//! Per-object metadata: an identity that survives renumbering, and an optional
//! name given by the user or by the naming engine.

use crate::object_pool::{Object, ObjectSpec};
use crate::object_type::{object_type_ident, type_ident, ObjectType};
use crate::text::{decimal, decimal_string};
use vstd::prelude::*;
use vstd::string::*;

verus! {

/// The name an object shows when it has none of its own: "{number}: {kind}".
pub open spec fn default_name(id: u16, t: ObjectType) -> Seq<char> {
    decimal(id as nat) + ": "@ + type_ident(t)
}

/// The name an object shows, given the name recorded for it, if any.
pub open spec fn shown_name(name: Option<Seq<char>>, o: ObjectSpec) -> Seq<char> {
    match name {
        Some(n) => n,
        None => default_name(o.id, o.object_type),
    }
}

/// `id` has the version and variant fields of a random (version 4) UUID.
pub open spec fn is_v4_identity(id: u128) -> bool {
    &&& (id >> 76u128) & 0xfu128 == 4u128
    &&& (id >> 62u128) & 0x3u128 == 2u128
}

/// What the metadata of one object holds.
pub struct ObjectInfoView {
    pub unique_id: u128,
    pub name: Option<Seq<char>>,
}

/// Metadata of one object.
#[derive(Debug)]
pub struct ObjectInfo {
    /// Identifies the object for as long as the process runs; unlike the object's
    /// number it never changes.
    unique_id: u128,
    /// The name that the user or the naming engine gave the object.
    pub name: Option<String>,
}

impl View for ObjectInfo {
    type V = ObjectInfoView;

    closed spec fn view(&self) -> ObjectInfoView {
        ObjectInfoView {
            unique_id: self.unique_id,
            name: match self.name {
                Some(n) => Some(n@),
                None => None,
            },
        }
    }
}

/// Relies on uuid::Uuid::new_v4 and Uuid::as_u128: a random version 4 UUID, whose
/// version field, bits 76 to 79 of the integer, holds 4, and whose variant field,
/// bits 62 and 63, holds binary 10. Generation panics only if the system has no
/// source of random bytes.
#[verifier::external_body]
fn fresh_unique_id() -> (r: u128)
    ensures
        (r >> 76u128) & 0xfu128 == 4u128,
        (r >> 62u128) & 0x3u128 == 2u128,
{
    uuid::Uuid::new_v4().as_u128()
}

/// The name an object shows when it has none of its own: "{number}: {kind}".
pub fn default_object_name(object: &Object) -> (r: String)
    ensures
        r@ == default_name(object.id, object.object_type),
{
    proof {
        reveal_strlit(": ");
    }
    let mut s = decimal_string(object.id as u128);
    s.append(": ");
    s.append(object_type_ident(object.object_type));
    s
}

impl ObjectInfo {
    /// Fresh metadata for `object`: a new random version 4 identity and no name.
    pub fn new(object: &Object) -> (r: ObjectInfo)
        ensures
            r@.name is None,
            is_v4_identity(r@.unique_id),
    {
        ObjectInfo { unique_id: fresh_unique_id(), name: None }
    }

    /// The name the object shows: its own, or else "{number}: {kind}".
    pub fn get_name(&self, object: &Object) -> (r: String)
        ensures
            r@ == shown_name(self@.name, object@),
    {
        match &self.name {
            Some(n) => n.clone(),
            None => default_object_name(object),
        }
    }

    /// Gives the object the name `name`, unless it is empty.
    pub fn set_name(&mut self, name: String)
        ensures
            name@.len() == 0 ==> final(self)@ == old(self)@,
            name@.len() > 0 ==> final(self)@ == (ObjectInfoView {
                name: Some(name@),
                ..old(self)@
            }),
    {
        if !name.as_str().is_empty() {
            self.name = Some(name);
        }
    }

    /// Whether the object has a name of its own.
    pub fn has_name(&self) -> (r: bool)
        ensures
            r == self@.name is Some,
    {
        self.name.is_some()
    }

    /// A copy of the object's own name, if it has one.
    pub fn name_copy(&self) -> (r: Option<String>)
        ensures
            match r {
                Some(n) => self@.name == Some(n@),
                None => self@.name is None,
            },
    {
        match &self.name {
            Some(n) => Some(n.clone()),
            None => None,
        }
    }

    /// The identity that survives renumbering.
    pub fn get_unique_id(&self) -> (r: u128)
        ensures
            r == self@.unique_id,
    {
        self.unique_id
    }

    /// A copy of this metadata, with the same identity.
    pub fn duplicate(&self) -> (r: ObjectInfo)
        ensures
            r@ == self@,
    {
        let name = match &self.name {
            Some(n) => Some(n.clone()),
            None => None,
        };
        ObjectInfo { unique_id: self.unique_id, name }
    }
}

impl PartialEq for ObjectInfo {
    fn eq(&self, other: &ObjectInfo) -> (r: bool) {
        self.unique_id == other.unique_id
    }
}

impl vstd::std_specs::cmp::PartialEqSpecImpl for ObjectInfo {
    open spec fn obeys_eq_spec() -> bool {
        true
    }

    open spec fn eq_spec(&self, other: &ObjectInfo) -> bool {
        self@.unique_id == other@.unique_id
    }
}

} // verus!
