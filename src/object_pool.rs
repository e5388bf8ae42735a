//! The object pool: an insertion-ordered collection of uniquely numbered objects
//! and the references between them.
//!
//! An object here holds what the editing core reads of a VT object: its number,
//! its kind, the key code of keys and buttons, the height of containers, and the
//! numbers of the objects it refers to. References may dangle: removing an
//! object leaves references to it in place, and readers treat a number that no
//! object carries as a missing object.

use crate::object_type::{type_code, ObjectType};
use crate::text::{lemma_text_le_total, lemma_text_le_transitive, text_le, text_le_exec};
use vstd::prelude::*;

verus! {

/// The number that marks "no object"; real objects carry 0 to 65534.
pub const NULL_OBJECT_ID: u16 = 65535;

/// What the editing core sees of one object.
pub struct ObjectSpec {
    pub id: u16,
    pub object_type: ObjectType,
    pub key_code: u8,
    pub height: u16,
    pub references: Seq<u16>,
}

/// One object of a pool.
#[derive(Debug)]
pub struct Object {
    pub id: u16,
    pub object_type: ObjectType,
    /// The key code of a key or a button.
    pub key_code: u8,
    /// The height in pixels of an object that has one.
    pub height: u16,
    /// The numbers of the objects this one refers to, in order.
    pub references: Vec<u16>,
}

impl View for Object {
    type V = ObjectSpec;

    open spec fn view(&self) -> ObjectSpec {
        ObjectSpec {
            id: self.id,
            object_type: self.object_type,
            key_code: self.key_code,
            height: self.height,
            references: self.references@,
        }
    }
}

fn copy_ids(v: &Vec<u16>) -> (r: Vec<u16>)
    ensures
        r@ == v@,
{
    let mut r: Vec<u16> = Vec::new();
    let mut i: usize = 0;
    while i < v.len()
        invariant
            i <= v@.len(),
            r@ == v@.subrange(0, i as int),
        decreases v@.len() - i,
    {
        r.push(v[i]);
        i += 1;
        assert(r@ =~= v@.subrange(0, i as int));
    }
    assert(r@ =~= v@);
    r
}

fn same_ids(a: &Vec<u16>, b: &Vec<u16>) -> (r: bool)
    ensures
        r == (a@ == b@),
{
    if a.len() != b.len() {
        return false;
    }
    let mut i: usize = 0;
    while i < a.len()
        invariant
            a@.len() == b@.len(),
            i <= a@.len(),
            forall|j: int| 0 <= j < i ==> a@[j] == b@[j],
        decreases a@.len() - i,
    {
        if a[i] != b[i] {
            return false;
        }
        i += 1;
    }
    assert(a@ =~= b@);
    true
}

impl Object {
    /// An object of the given number and kind, with no references.
    pub fn new(id: u16, object_type: ObjectType) -> (r: Object)
        ensures
            r@ == (ObjectSpec {
                id,
                object_type,
                key_code: 0,
                height: 0,
                references: seq![],
            }),
    {
        let r = Object { id, object_type, key_code: 0, height: 0, references: Vec::new() };
        assert(r@.references =~= seq![]);
        r
    }

    /// A copy of this object.
    pub fn duplicate(&self) -> (r: Object)
        ensures
            r@ == self@,
    {
        Object {
            id: self.id,
            object_type: self.object_type,
            key_code: self.key_code,
            height: self.height,
            references: copy_ids(&self.references),
        }
    }

    /// Whether two objects are equal in every field.
    pub fn same_as(&self, other: &Object) -> (r: bool)
        ensures
            r == (self@ == other@),
    {
        self.id == other.id && self.object_type == other.object_type && self.key_code
            == other.key_code && self.height == other.height && same_ids(
            &self.references,
            &other.references,
        )
    }

    /// The numbers of the objects this one refers to.
    pub fn referenced_objects(&self) -> (r: &Vec<u16>)
        ensures
            r@ == self@.references,
    {
        &self.references
    }
}

/// Whether some object of `s` carries the number `id`.
pub open spec fn has_id(s: Seq<ObjectSpec>, id: u16) -> bool {
    exists|i: int| 0 <= i < s.len() && s[i].id == id
}

/// Every object carries a real number, and no two carry the same one.
pub open spec fn pool_wf(s: Seq<ObjectSpec>) -> bool {
    &&& forall|i: int| 0 <= i < s.len() ==> s[i].id != NULL_OBJECT_ID
    &&& forall|i: int, j: int| 0 <= i < j < s.len() ==> s[i].id != s[j].id
}

/// The numbers of the objects of kind `t`, in pool order.
pub open spec fn ids_of_type(s: Seq<ObjectSpec>, t: ObjectType) -> Seq<u16>
    decreases s.len(),
{
    if s.len() == 0 {
        seq![]
    } else if s.last().object_type == t {
        ids_of_type(s.drop_last(), t).push(s.last().id)
    } else {
        ids_of_type(s.drop_last(), t)
    }
}

/// The numbers of the objects whose kind is one of `ts`, in pool order.
pub open spec fn ids_of_types(s: Seq<ObjectSpec>, ts: Seq<ObjectType>) -> Seq<u16>
    decreases s.len(),
{
    if s.len() == 0 {
        seq![]
    } else if ts.contains(s.last().object_type) {
        ids_of_types(s.drop_last(), ts).push(s.last().id)
    } else {
        ids_of_types(s.drop_last(), ts)
    }
}

fn kind_listed(types: &Vec<ObjectType>, t: ObjectType) -> (r: bool)
    ensures
        r == types@.contains(t),
{
    let mut i: usize = 0;
    while i < types.len()
        invariant
            i <= types@.len(),
            forall|j: int| 0 <= j < i ==> types@[j] != t,
        decreases types@.len() - i,
    {
        if types[i] == t {
            return true;
        }
        i += 1;
    }
    false
}

/// The numbers of the objects that refer to `id`, in pool order.
pub open spec fn parents_of(s: Seq<ObjectSpec>, id: u16) -> Seq<u16>
    decreases s.len(),
{
    if s.len() == 0 {
        seq![]
    } else if s.last().references.contains(id) {
        parents_of(s.drop_last(), id).push(s.last().id)
    } else {
        parents_of(s.drop_last(), id)
    }
}

/// The greatest number carried in `s`, or 0 when it is empty.
pub open spec fn max_id_of(s: Seq<ObjectSpec>) -> u16
    decreases s.len(),
{
    if s.len() == 0 {
        0
    } else {
        let m = max_id_of(s.drop_last());
        if s.last().id > m {
            s.last().id
        } else {
            m
        }
    }
}

/// The sort key of an object: its kind's type number, or its own number.
pub open spec fn sort_key(o: ObjectSpec, by_type: bool) -> int {
    if by_type {
        type_code(o.object_type) as int
    } else {
        o.id as int
    }
}

/// The objects of `s` from `lo` to `hi`, both included, are in key order.
pub open spec fn sorted_between(s: Seq<ObjectSpec>, by_type: bool, lo: int, hi: int) -> bool {
    forall|a: int, b: int| lo <= a < b <= hi ==> sort_key(s[a], by_type) <= sort_key(s[b], by_type)
}

fn key_of(o: &Object, by_type: bool) -> (r: u16)
    ensures
        r as int == sort_key(o@, by_type),
{
    if by_type {
        o.object_type.code() as u16
    } else {
        o.id
    }
}

/// `target` is `from` itself, or is reached from `from` by following at most
/// `depth` references through objects of `s`.
pub open spec fn reaches(s: Seq<ObjectSpec>, from: u16, target: u16, depth: nat) -> bool
    decreases depth,
{
    from == target || (depth > 0 && exists|i: int, k: int|
        0 <= i < s.len() && s[i].id == from && 0 <= k < s[i].references.len() && reaches(
            s,
            #[trigger] s[i].references[k],
            target,
            (depth - 1) as nat,
        ))
}

/// The texts of `names` from `lo` to `hi`, both included, are in order.
pub open spec fn texts_sorted_between(names: Seq<String>, lo: int, hi: int) -> bool {
    forall|a: int, b: int| lo <= a < b <= hi ==> text_le(names[a]@, names[b]@)
}

/// An insertion-ordered collection of objects with distinct numbers.
pub struct ObjectPool {
    objects: Vec<Object>,
}

impl View for ObjectPool {
    type V = Seq<ObjectSpec>;

    closed spec fn view(&self) -> Seq<ObjectSpec> {
        self.objects@.map_values(|o: Object| o@)
    }
}

impl ObjectPool {
    /// The pool's numbers are real and distinct.
    pub open spec fn wf(&self) -> bool {
        pool_wf(self@)
    }

    /// An empty pool.
    pub fn new() -> (r: ObjectPool)
        ensures
            r.wf(),
            r@ == Seq::<ObjectSpec>::empty(),
    {
        let r = ObjectPool { objects: Vec::new() };
        assert(r@ =~= Seq::<ObjectSpec>::empty());
        r
    }

    /// The number of objects.
    pub fn len(&self) -> (r: usize)
        ensures
            r == self@.len(),
    {
        self.objects.len()
    }

    /// The object at position `i`.
    pub fn object_at(&self, i: usize) -> (r: &Object)
        requires
            i < self@.len(),
        ensures
            r@ == self@[i as int],
    {
        &self.objects[i]
    }

    /// The position of the object numbered `id`, if there is one.
    pub fn position_of(&self, id: u16) -> (r: Option<usize>)
        ensures
            r is None <==> !has_id(self@, id),
            r matches Some(i) ==> i < self@.len() && self@[i as int].id == id,
    {
        let mut i: usize = 0;
        while i < self.objects.len()
            invariant
                i <= self@.len(),
                self@.len() == self.objects@.len(),
                forall|j: int| 0 <= j < i ==> self@[j].id != id,
            decreases self@.len() - i,
        {
            if self.objects[i].id == id {
                return Some(i);
            }
            i += 1;
        }
        None
    }

    /// The object numbered `id`, if there is one.
    pub fn object_by_id(&self, id: u16) -> (r: Option<&Object>)
        ensures
            r is None <==> !has_id(self@, id),
            r matches Some(o) ==> exists|i: int|
                0 <= i < self@.len() && self@[i] == o@ && o@.id == id,
    {
        match self.position_of(id) {
            Some(i) => Some(&self.objects[i]),
            None => None,
        }
    }

    /// Whether some object carries the number `id`.
    pub fn contains_id(&self, id: u16) -> (r: bool)
        ensures
            r == has_id(self@, id),
    {
        self.position_of(id).is_some()
    }

    /// Adds `object` at the end, unless its number is the null number or is taken;
    /// returns whether it was added.
    pub fn add(&mut self, object: Object) -> (r: bool)
        requires
            old(self).wf(),
        ensures
            final(self).wf(),
            r == (object.id != NULL_OBJECT_ID && !has_id(old(self)@, object.id)),
            r ==> final(self)@ == old(self)@.push(object@),
            !r ==> final(self)@ == old(self)@,
    {
        if object.id == NULL_OBJECT_ID || self.contains_id(object.id) {
            return false;
        }
        let ghost before = self@;
        self.objects.push(object);
        assert(self@ =~= before.push(object@));
        true
    }

    /// Removes the object numbered `id` and returns it. References to it that
    /// other objects hold are left in place.
    pub fn remove(&mut self, id: u16) -> (r: Option<Object>)
        requires
            old(self).wf(),
        ensures
            final(self).wf(),
            r is None <==> !has_id(old(self)@, id),
            r is None ==> final(self)@ == old(self)@,
            r matches Some(o) ==> o@.id == id && exists|i: int|
                0 <= i < old(self)@.len() && old(self)@[i] == o@ && final(self)@ == old(
                    self,
                )@.remove(i),
    {
        match self.position_of(id) {
            Some(i) => {
                let ghost before = self@;
                let o = self.objects.remove(i);
                assert(self@ =~= before.remove(i as int));
                Some(o)
            },
            None => None,
        }
    }

    /// Gives the object numbered `old_id` the number `new_id`, unless there is no
    /// such object, `new_id` is the null number, or another object carries it.
    /// References that other objects hold are left as they are.
    pub fn set_object_id(&mut self, old_id: u16, new_id: u16) -> (r: bool)
        requires
            old(self).wf(),
        ensures
            final(self).wf(),
            r == (has_id(old(self)@, old_id) && new_id != NULL_OBJECT_ID && (new_id == old_id
                || !has_id(old(self)@, new_id))),
            !r ==> final(self)@ == old(self)@,
            r ==> exists|i: int|
                0 <= i < old(self)@.len() && old(self)@[i].id == old_id && final(self)@ == old(
                    self,
                )@.update(i, ObjectSpec { id: new_id, ..old(self)@[i] }),
    {
        if new_id == NULL_OBJECT_ID {
            return false;
        }
        let pos = match self.position_of(old_id) {
            Some(i) => i,
            None => return false,
        };
        if new_id != old_id && self.contains_id(new_id) {
            return false;
        }
        let ghost before = self@;
        let mut o = self.objects.remove(pos);
        o.id = new_id;
        self.objects.insert(pos, o);
        assert(self@ =~= before.update(pos as int, ObjectSpec { id: new_id, ..before[pos as int] }));
        true
    }

    /// Reorders the objects by kind, when `by_type` holds, or else by number.
    pub fn sort_objects(&mut self, by_type: bool)
        requires
            old(self).wf(),
        ensures
            final(self).wf(),
            final(self)@.to_multiset() == old(self)@.to_multiset(),
            sorted_between(final(self)@, by_type, 0, final(self)@.len() - 1),
    {
        broadcast use vstd::multiset::group_multiset_axioms, vstd::seq_lib::group_to_multiset_ensures;

        let ghost orig = self@;
        let n = self.objects.len();
        let mut i: usize = 1;
        if n == 0 {
            return;
        }
        while i < n
            invariant
                n == self@.len() == self.objects@.len(),
                1 <= i <= n,
                self.wf(),
                self@.to_multiset() == orig.to_multiset(),
                sorted_between(self@, by_type, 0, i - 1),
            decreases n - i,
        {
            let mut j: usize = i;
            let mut placed = false;
            while j > 0 && !placed
                invariant
                    placed ==> j > 0 && sort_key(self@[j - 1], by_type) <= sort_key(
                        self@[j as int],
                        by_type,
                    ),
                    n == self@.len() == self.objects@.len(),
                    0 <= j <= i < n,
                    self.wf(),
                    self@.to_multiset() == orig.to_multiset(),
                    sorted_between(self@, by_type, 0, j - 1),
                    sorted_between(self@, by_type, j as int, i as int),
                    forall|a: int, b: int|
                        0 <= a < j < b <= i ==> sort_key(self@[a], by_type) <= sort_key(
                            self@[b],
                            by_type,
                        ),
                decreases j + if placed {
                    0nat
                } else {
                    1nat
                },
            {
                let ghost before = self@;
                assert(before[j - 1] == self.objects@[j - 1]@);
                assert(before[j as int] == self.objects@[j as int]@);
                if key_of(&self.objects[j - 1], by_type) <= key_of(&self.objects[j], by_type) {
                    placed = true;
                    continue;
                }
                let o = self.objects.remove(j);
                self.objects.insert(j - 1, o);
                proof {
                    let s1 = before.update(j - 1, before[j as int]);
                    assert(self@ =~= s1.update(j as int, before[j - 1]));
                    vstd::seq_lib::to_multiset_update(before, j - 1, before[j as int]);
                    vstd::seq_lib::to_multiset_update(s1, j as int, before[j - 1]);
                    assert(s1.to_multiset() == before.to_multiset().insert(before[j as int]).remove(
                        before[j - 1],
                    ));
                    assert(self@.to_multiset() == s1.to_multiset().insert(before[j - 1]).remove(
                        before[j as int],
                    ));
                    assert(before.contains(before[j - 1]));
                    vstd::seq_lib::to_multiset_contains(before, before[j - 1]);
                    assert(before.to_multiset().count(before[j - 1]) > 0);
                    assert(self@.to_multiset() =~= before.to_multiset());
                    assert forall|a: int, b: int| 0 <= a < b < self@.len() implies self@[a].id
                        != self@[b].id by {
                        let pa = if a == j - 1 {
                            j as int
                        } else if a == j {
                            j - 1
                        } else {
                            a
                        };
                        let pb = if b == j - 1 {
                            j as int
                        } else if b == j {
                            j - 1
                        } else {
                            b
                        };
                        assert(self@[a] == before[pa]);
                        assert(self@[b] == before[pb]);
                        assert(pa != pb);
                        if pa < pb {
                            assert(before[pa].id != before[pb].id);
                        } else {
                            assert(before[pb].id != before[pa].id);
                        }
                    }
                    assert forall|a: int| 0 <= a < self@.len() implies self@[a].id != NULL_OBJECT_ID by {
                        if a == j - 1 {
                            assert(self@[a] == before[j as int]);
                        } else if a == j {
                            assert(self@[a] == before[j - 1]);
                        } else {
                            assert(self@[a] == before[a]);
                        }
                    }
                }
                j = j - 1;
            }
            proof {
                assert forall|a: int, b: int| 0 <= a < b <= i implies sort_key(self@[a], by_type)
                    <= sort_key(self@[b], by_type) by {
                    if b == j && a < j && j > 0 {
                        if a < j - 1 {
                            assert(sort_key(self@[a], by_type) <= sort_key(self@[j - 1], by_type));
                        }
                    }
                }
            }
            i += 1;
        }
    }

    /// Reorders the objects by the texts in `names`, one for each object and
    /// moved along with it, in the order of code points.
    pub(crate) fn sort_by_texts(
        &mut self,
        names: &mut Vec<String>,
        tag: Ghost<spec_fn(ObjectSpec) -> Seq<char>>,
    )
        requires
            old(self).wf(),
            old(names)@.len() == old(self)@.len(),
            forall|a: int| 0 <= a < old(self)@.len() ==> #[trigger] old(names)@[a]@ == tag@(old(self)@[a]),
        ensures
            final(self).wf(),
            final(self)@.to_multiset() == old(self)@.to_multiset(),
            final(names)@.len() == final(self)@.len(),
            forall|a: int|
                0 <= a < final(self)@.len() ==> #[trigger] final(names)@[a]@ == tag@(final(self)@[a]),
            texts_sorted_between(final(names)@, 0, final(names)@.len() - 1),
    {
        broadcast use vstd::multiset::group_multiset_axioms, vstd::seq_lib::group_to_multiset_ensures;

        let ghost orig = self@;
        let n = self.objects.len();
        if n == 0 {
            return;
        }
        let mut i: usize = 1;
        while i < n
            invariant
                n == self@.len() == self.objects@.len() == names@.len(),
                1 <= i <= n,
                self.wf(),
                self@.to_multiset() == orig.to_multiset(),
                forall|a: int| 0 <= a < n ==> #[trigger] names@[a]@ == tag@(self@[a]),
                texts_sorted_between(names@, 0, i - 1),
            decreases n - i,
        {
            let mut j: usize = i;
            let mut placed = false;
            while j > 0 && !placed
                invariant
                    n == self@.len() == self.objects@.len() == names@.len(),
                    0 <= j <= i < n,
                    self.wf(),
                    self@.to_multiset() == orig.to_multiset(),
                    forall|a: int| 0 <= a < n ==> #[trigger] names@[a]@ == tag@(self@[a]),
                    placed ==> j > 0 && text_le(names@[j - 1]@, names@[j as int]@),
                    texts_sorted_between(names@, 0, j - 1),
                    texts_sorted_between(names@, j as int, i as int),
                    forall|a: int, b: int|
                        0 <= a < j < b <= i ==> text_le(names@[a]@, names@[b]@),
                decreases j + if placed {
                    0nat
                } else {
                    1nat
                },
            {
                let ghost before = self@;
                let ghost nbefore = names@;
                assert(before[j - 1] == self.objects@[j - 1]@);
                assert(before[j as int] == self.objects@[j as int]@);
                if text_le_exec(names[j - 1].as_str(), names[j].as_str()) {
                    placed = true;
                    continue;
                }
                proof {
                    lemma_text_le_total(nbefore[j - 1]@, nbefore[j as int]@);
                }
                let o = self.objects.remove(j);
                self.objects.insert(j - 1, o);
                let t = names.remove(j);
                names.insert(j - 1, t);
                proof {
                    assert(names@ =~= nbefore.update(j - 1, nbefore[j as int]).update(
                        j as int,
                        nbefore[j - 1],
                    ));
                    let s1 = before.update(j - 1, before[j as int]);
                    assert(self@ =~= s1.update(j as int, before[j - 1]));
                    vstd::seq_lib::to_multiset_update(before, j - 1, before[j as int]);
                    vstd::seq_lib::to_multiset_update(s1, j as int, before[j - 1]);
                    assert(before.contains(before[j - 1]));
                    vstd::seq_lib::to_multiset_contains(before, before[j - 1]);
                    assert(self@.to_multiset() =~= before.to_multiset());
                    assert forall|a: int, b: int| 0 <= a < b < self@.len() implies self@[a].id
                        != self@[b].id by {
                        let pa = if a == j - 1 {
                            j as int
                        } else if a == j {
                            j - 1
                        } else {
                            a
                        };
                        let pb = if b == j - 1 {
                            j as int
                        } else if b == j {
                            j - 1
                        } else {
                            b
                        };
                        assert(self@[a] == before[pa]);
                        assert(self@[b] == before[pb]);
                        if pa < pb {
                            assert(before[pa].id != before[pb].id);
                        } else {
                            assert(before[pb].id != before[pa].id);
                        }
                    }
                    assert forall|a: int| 0 <= a < self@.len() implies self@[a].id != NULL_OBJECT_ID by {
                        if a == j - 1 {
                            assert(self@[a] == before[j as int]);
                        } else if a == j {
                            assert(self@[a] == before[j - 1]);
                        } else {
                            assert(self@[a] == before[a]);
                        }
                    }
                    assert forall|a: int| 0 <= a < n implies #[trigger] names@[a]@ == tag@(self@[a]) by {
                        if a == j - 1 {
                            assert(nbefore[j as int]@ == tag@(before[j as int]));
                        } else if a == j {
                            assert(nbefore[j - 1]@ == tag@(before[j - 1]));
                        } else {
                            assert(nbefore[a]@ == tag@(before[a]));
                        }
                    }
                }
                j = j - 1;
            }
            proof {
                assert forall|a: int, b: int| 0 <= a < b <= i implies text_le(names@[a]@, names@[b]@) by {
                    if b == j && a < j && j > 0 {
                        if a < j - 1 {
                            lemma_text_le_transitive(names@[a]@, names@[j - 1]@, names@[j as int]@);
                        }
                    }
                }
            }
            i += 1;
        }
    }

    /// The numbers of the objects of kind `object_type`, in pool order.
    pub fn objects_by_type(&self, object_type: ObjectType) -> (r: Vec<u16>)
        ensures
            r@ == ids_of_type(self@, object_type),
    {
        let mut r: Vec<u16> = Vec::new();
        let mut i: usize = 0;
        while i < self.objects.len()
            invariant
                i <= self@.len(),
                self@.len() == self.objects@.len(),
                r@ == ids_of_type(self@.take(i as int), object_type),
            decreases self@.len() - i,
        {
            assert(self@.take(i + 1).drop_last() =~= self@.take(i as int));
            if self.objects[i].object_type == object_type {
                r.push(self.objects[i].id);
            }
            i += 1;
        }
        assert(self@.take(i as int) =~= self@);
        r
    }

    /// The numbers of the objects whose kind is one of `types`, in pool order.
    pub fn objects_by_types(&self, types: &Vec<ObjectType>) -> (r: Vec<u16>)
        ensures
            r@ == ids_of_types(self@, types@),
    {
        let mut r: Vec<u16> = Vec::new();
        let mut i: usize = 0;
        while i < self.objects.len()
            invariant
                i <= self@.len(),
                self@.len() == self.objects@.len(),
                r@ == ids_of_types(self@.take(i as int), types@),
            decreases self@.len() - i,
        {
            assert(self@.take(i + 1).drop_last() =~= self@.take(i as int));
            if kind_listed(types, self.objects[i].object_type) {
                r.push(self.objects[i].id);
            }
            i += 1;
        }
        assert(self@.take(i as int) =~= self@);
        r
    }

    /// How many objects are of kind `object_type`.
    pub fn count_of_type(&self, object_type: ObjectType) -> (r: usize)
        ensures
            r == ids_of_type(self@, object_type).len(),
    {
        self.objects_by_type(object_type).len()
    }

    /// The numbers of the objects that refer to `id`, in pool order.
    pub fn parent_objects(&self, id: u16) -> (r: Vec<u16>)
        ensures
            r@ == parents_of(self@, id),
    {
        let mut r: Vec<u16> = Vec::new();
        let mut i: usize = 0;
        while i < self.objects.len()
            invariant
                i <= self@.len(),
                self@.len() == self.objects@.len(),
                r@ == parents_of(self@.take(i as int), id),
            decreases self@.len() - i,
        {
            assert(self@.take(i + 1).drop_last() =~= self@.take(i as int));
            let refs = &self.objects[i].references;
            let mut found = false;
            let mut j: usize = 0;
            while j < refs.len()
                invariant
                    j <= refs@.len(),
                    found == refs@.subrange(0, j as int).contains(id),
                decreases refs@.len() - j,
            {
                if refs[j] == id {
                    found = true;
                }
                proof {
                    let s = refs@.subrange(0, j + 1);
                    if s.contains(id) && refs@[j as int] != id {
                        let k = choose|k: int| 0 <= k < s.len() && s[k] == id;
                        assert(refs@.subrange(0, j as int)[k] == id);
                    }
                    if refs@.subrange(0, j as int).contains(id) {
                        let k = choose|k: int| 0 <= k < j && refs@.subrange(0, j as int)[k] == id;
                        assert(s[k] == id);
                    }
                    assert(refs@[j as int] == id ==> s[j as int] == id);
                }
                j += 1;
            }
            assert(refs@.subrange(0, j as int) =~= refs@);
            if found {
                r.push(self.objects[i].id);
            }
            i += 1;
        }
        assert(self@.take(i as int) =~= self@);
        r
    }

    /// Whether `target` is `from` or lies below it, following at most `depth`
    /// references; references to missing objects lead nowhere, and cycles are cut
    /// off by the depth.
    pub fn reaches_within(&self, from: u16, target: u16, depth: usize) -> (r: bool)
        requires
            self.wf(),
        ensures
            r == reaches(self@, from, target, depth as nat),
        decreases depth,
    {
        if from == target {
            return true;
        }
        if depth == 0 {
            return false;
        }
        match self.position_of(from) {
            None => false,
            Some(i) => {
                let refs = &self.objects[i].references;
                assert(self@[i as int] == self.objects@[i as int]@);
                let mut k: usize = 0;
                while k < refs.len()
                    invariant
                        self.wf(),
                        0 < depth,
                        i < self@.len(),
                        self@[i as int].id == from,
                        refs@ == self@[i as int].references,
                        k <= refs@.len(),
                        forall|kk: int|
                            0 <= kk < k ==> !reaches(
                                self@,
                                #[trigger] refs@[kk],
                                target,
                                (depth - 1) as nat,
                            ),
                    decreases refs@.len() - k,
                {
                    if self.reaches_within(refs[k], target, depth - 1) {
                        return true;
                    }
                    k += 1;
                }
                proof {
                    if reaches(self@, from, target, depth as nat) {
                        let (i2, k2) = choose|i2: int, k2: int|
                            0 <= i2 < self@.len() && self@[i2].id == from && 0 <= k2
                                < self@[i2].references.len() && reaches(
                                self@,
                                #[trigger] self@[i2].references[k2],
                                target,
                                (depth - 1) as nat,
                            );
                        assert(i2 == i as int);
                        assert(refs@[k2] == self@[i2].references[k2]);
                    }
                }
                false
            },
        }
    }

    /// The first working set object, the root of the pool, if there is one.
    pub fn working_set_object(&self) -> (r: Option<&Object>)
        ensures
            r is None <==> ids_of_type(self@, ObjectType::WorkingSet).len() == 0,
            r matches Some(o) ==> exists|i: int|
                0 <= i < self@.len() && self@[i] == o@ && o@.object_type == ObjectType::WorkingSet
                    && forall|j: int| 0 <= j < i ==> self@[j].object_type != ObjectType::WorkingSet,
    {
        let mut i: usize = 0;
        while i < self.objects.len()
            invariant
                i <= self@.len(),
                self@.len() == self.objects@.len(),
                ids_of_type(self@.take(i as int), ObjectType::WorkingSet).len() == 0,
                forall|j: int| 0 <= j < i ==> self@[j].object_type != ObjectType::WorkingSet,
            decreases self@.len() - i,
        {
            assert(self@.take(i + 1).drop_last() =~= self@.take(i as int));
            if self.objects[i].object_type == ObjectType::WorkingSet {
                proof {
                    lemma_ids_of_type_nonempty(self@, i as int, ObjectType::WorkingSet);
                }
                assert(self@[i as int] == self.objects[i as int]@);
                return Some(&self.objects[i]);
            }
            i += 1;
        }
        assert(self@.take(i as int) =~= self@);
        None
    }

    /// The greatest number in use, or 0 for an empty pool.
    pub fn max_id(&self) -> (r: u16)
        ensures
            r == max_id_of(self@),
    {
        let mut m: u16 = 0;
        let mut i: usize = 0;
        while i < self.objects.len()
            invariant
                i <= self@.len(),
                self@.len() == self.objects@.len(),
                m == max_id_of(self@.take(i as int)),
            decreases self@.len() - i,
        {
            assert(self@.take(i + 1).drop_last() =~= self@.take(i as int));
            if self.objects[i].id > m {
                m = self.objects[i].id;
            }
            i += 1;
        }
        assert(self@.take(i as int) =~= self@);
        m
    }

    /// A copy of the pool, object for object.
    pub fn snapshot(&self) -> (r: ObjectPool)
        ensures
            r@ == self@,
    {
        let mut objects: Vec<Object> = Vec::new();
        let mut i: usize = 0;
        while i < self.objects.len()
            invariant
                i <= self@.len(),
                self@.len() == self.objects@.len(),
                objects@.len() == i,
                forall|j: int| 0 <= j < i ==> objects@[j]@ == self@[j],
            decreases self@.len() - i,
        {
            assert(self@[i as int] == self.objects@[i as int]@);
            objects.push(self.objects[i].duplicate());
            i += 1;
        }
        let r = ObjectPool { objects };
        assert(r@ =~= self@);
        r
    }

    /// Whether two pools hold equal objects in the same order.
    pub fn same_as(&self, other: &ObjectPool) -> (r: bool)
        ensures
            r == (self@ == other@),
    {
        if self.objects.len() != other.objects.len() {
            return false;
        }
        let mut i: usize = 0;
        while i < self.objects.len()
            invariant
                i <= self@.len(),
                self@.len() == self.objects@.len(),
                other@.len() == other.objects@.len(),
                self@.len() == other@.len(),
                forall|j: int| 0 <= j < i ==> self@[j] == other@[j],
            decreases self@.len() - i,
        {
            assert(self@[i as int] == self.objects@[i as int]@);
            assert(other@[i as int] == other.objects@[i as int]@);
            if !self.objects[i].same_as(&other.objects[i]) {
                assert(self@[i as int] != other@[i as int]);
                return false;
            }
            i += 1;
        }
        assert(self@ =~= other@);
        true
    }
}

proof fn lemma_ids_of_type_nonempty(s: Seq<ObjectSpec>, i: int, t: ObjectType)
    requires
        0 <= i < s.len(),
        s[i].object_type == t,
    ensures
        ids_of_type(s, t).len() > 0,
    decreases s.len(),
{
    if i < s.len() - 1 {
        lemma_ids_of_type_nonempty(s.drop_last(), i, t);
    }
}

} // verus!
