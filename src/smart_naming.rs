//! The naming engine: contextual names from an object's own properties, default
//! names that are unique among the names in use, suggestions for new children, and
//! validation of names that a user types.

use crate::object_pool::{Object, ObjectPool, ObjectSpec};
use crate::object_type::{get_object_type_name, lemma_type_label_nonempty, type_label, ObjectType};
use crate::text::{
    decimal, decimal_string, lemma_free_numbered, name_taken, numbered, numbered_string, texts,
};
use vstd::prelude::*;
use vstd::string::*;

verus! {

/// The text of an optional string.
pub open spec fn opt_text(s: Option<String>) -> Option<Seq<char>> {
    match s {
        Some(x) => Some(x@),
        None => None,
    }
}

/// The label from which default names of kind `t` are made; `same_type_count` is
/// how many objects of that kind come first.
pub open spec fn base_label(t: ObjectType, same_type_count: nat) -> Seq<char> {
    if t == ObjectType::DataMask {
        if same_type_count == 0 {
            "Main Screen"@
        } else {
            "Data Screen"@
        }
    } else {
        type_label(t)
    }
}

/// `k` is the least number from `lo` on whose numbered form of `base` is not in `names`.
pub open spec fn is_first_free(names: Seq<Seq<char>>, base: Seq<char>, lo: nat, k: nat) -> bool {
    &&& lo <= k
    &&& !names.contains(numbered(base, k))
    &&& forall|j: nat| lo <= j < k ==> names.contains(#[trigger] numbered(base, j))
}

/// `r` is the default name of an object of kind `t` that has `same_type_count`
/// objects of its kind before it, given the names in use: the bare label for the
/// first of its kind when the label is free, else the label with the least number
/// from `same_type_count + 1` on that gives a free name.
pub open spec fn is_smart_default_name(
    t: ObjectType,
    same_type_count: nat,
    names: Seq<Seq<char>>,
    r: Seq<char>,
) -> bool {
    let base = base_label(t, same_type_count);
    if same_type_count == 0 && !names.contains(base) {
        r == base
    } else {
        exists|k: nat| is_first_free(names, base, same_type_count + 1, k) && r == numbered(base, k)
    }
}

/// The name that an object's own properties suggest, if any: keys by key code,
/// buttons by key code, containers by height.
pub open spec fn contextual_name(o: ObjectSpec) -> Option<Seq<char>> {
    match o.object_type {
        ObjectType::Key => {
            if o.key_code == 0 {
                Some("ACK/Enter Key"@)
            } else if o.key_code == 1 {
                Some("ESC Key"@)
            } else if o.key_code <= 7 {
                Some(numbered("Soft Key"@, (o.key_code - 1) as nat))
            } else {
                None
            }
        },
        ObjectType::Button => {
            if o.key_code == 0 {
                Some("OK"@)
            } else if o.key_code == 1 {
                Some("Cancel"@)
            } else {
                None
            }
        },
        ObjectType::Container => {
            if o.height < 100 {
                Some("Header Container"@)
            } else if o.height > 300 {
                Some("Main Container"@)
            } else {
                None
            }
        },
        _ => None,
    }
}

/// Whether some object of `pool` carries `id` and is of kind `t`.
pub open spec fn resolves_to(pool: Seq<ObjectSpec>, id: u16, t: ObjectType) -> bool {
    exists|i: int| 0 <= i < pool.len() && pool[i].id == id && pool[i].object_type == t
}

/// How many of `refs` name an object of kind `t` in `pool`.
pub open spec fn resolved_count(refs: Seq<u16>, pool: Seq<ObjectSpec>, t: ObjectType) -> nat
    decreases refs.len(),
{
    if refs.len() == 0 {
        0
    } else {
        resolved_count(refs.drop_last(), pool, t) + if resolves_to(pool, refs.last(), t) {
            1nat
        } else {
            0nat
        }
    }
}

/// The name suggested for a new child of kind `child` under `parent`.
pub open spec fn child_suggestion(parent: ObjectSpec, child: ObjectType, pool: Seq<ObjectSpec>) -> Option<
    Seq<char>,
> {
    if parent.object_type == ObjectType::SoftKeyMask && child == ObjectType::Key {
        Some("F"@ + decimal(resolved_count(parent.references, pool, ObjectType::Key) + 1) + " Key"@)
    } else if parent.object_type == ObjectType::Container && child == ObjectType::Button {
        Some("Container Button"@)
    } else if parent.object_type == ObjectType::Container && child == ObjectType::OutputString {
        Some("Container Label"@)
    } else if parent.object_type == ObjectType::DataMask && child == ObjectType::Container {
        let c = resolved_count(parent.references, pool, ObjectType::Container);
        if c == 0 {
            Some("Header Container"@)
        } else if c == 1 {
            Some("Main Container"@)
        } else if c == 2 {
            Some("Footer Container"@)
        } else {
            None
        }
    } else {
        None
    }
}

/// A character with the Unicode White_Space property.
pub open spec fn is_white_space(c: char) -> bool {
    let u = c as u32;
    (9 <= u && u <= 13) || u == 0x20 || u == 0x85 || u == 0xa0 || u == 0x1680 || (0x2000 <= u && u
        <= 0x200a) || u == 0x2028 || u == 0x2029 || u == 0x202f || u == 0x205f || u == 0x3000
}

/// Every character of `s` is white space.
pub open spec fn is_blank(s: Seq<char>) -> bool {
    forall|i: int| 0 <= i < s.len() ==> is_white_space(s[i])
}

/// The refusal of a blank name.
pub open spec fn empty_name_error() -> Seq<char> {
    "Name cannot be empty"@
}

/// The refusal of a name longer than 100 bytes.
pub open spec fn long_name_error() -> Seq<char> {
    "Name is too long (max 100 characters)"@
}

/// The refusal of a name in use, with a free variant to try.
pub open spec fn taken_name_error(name: Seq<char>, suggestion: Seq<char>) -> Seq<char> {
    "Name '"@ + name + "' already exists. Try '"@ + suggestion + "'"@
}

/// The refusal of a name in use whose numbered variants are all in use too.
pub open spec fn exhausted_name_error(name: Seq<char>) -> Seq<char> {
    "Name '"@ + name + "' already exists and all numbered variations up to 65535 are taken"@
}

/// The text of a validation result.
pub open spec fn result_text(r: Result<(), String>) -> Result<(), Seq<char>> {
    match r {
        Ok(()) => Ok(()),
        Err(e) => Err(e@),
    }
}

/// `r` is the verdict on `name`, which is `nbytes` bytes long, given the
/// names in use: blank and overlong names are refused, a free name passes, and a
/// name in use is refused with the least free numbered variant from 2 on, or with
/// word that none up to the limit is free.
pub open spec fn is_validation(
    name: Seq<char>,
    nbytes: nat,
    names: Seq<Seq<char>>,
    r: Result<(), Seq<char>>,
) -> bool {
    if is_blank(name) {
        r == Err::<(), Seq<char>>(empty_name_error())
    } else if nbytes > 100 {
        r == Err::<(), Seq<char>>(long_name_error())
    } else if !names.contains(name) {
        r == Ok::<(), Seq<char>>(())
    } else {
        match r {
            Ok(_) => false,
            Err(e) => (exists|k: nat|
                k <= MAX_SUGGESTION && is_first_free(names, name, 2, k) && e == taken_name_error(
                    name,
                    numbered(name, k),
                )) || ((forall|k: nat|
                2 <= k <= MAX_SUGGESTION ==> names.contains(#[trigger] numbered(name, k))) && e
                == exhausted_name_error(name)),
        }
    }
}

/// The most numbered variants that a validation tries.
pub const MAX_SUGGESTION: u32 = 65535;

fn white_space(c: char) -> (r: bool)
    ensures
        r == is_white_space(c),
{
    let u = c as u32;
    (9 <= u && u <= 13) || u == 0x20 || u == 0x85 || u == 0xa0 || u == 0x1680 || (0x2000 <= u && u
        <= 0x200a) || u == 0x2028 || u == 0x2029 || u == 0x202f || u == 0x205f || u == 0x3000
}

fn blank(s: &str) -> (r: bool)
    ensures
        r == is_blank(s@),
{
    let n = s.unicode_len();
    let mut i: usize = 0;
    while i < n
        invariant
            n == s@.len(),
            i <= n,
            forall|j: int| 0 <= j < i ==> is_white_space(s@[j]),
        decreases n - i,
    {
        if !white_space(s.get_char(i)) {
            return false;
        }
        i += 1;
    }
    true
}

/// The default name for an object of kind `object_type` that has
/// `same_type_count` objects of its kind before it; it is never one of
/// `existing_names`.
pub fn generate_smart_default_name(
    object_type: ObjectType,
    same_type_count: usize,
    existing_names: &Vec<String>,
) -> (r: String)
    ensures
        is_smart_default_name(object_type, same_type_count as nat, texts(existing_names@), r@),
        !texts(existing_names@).contains(r@),
        r@.len() > 0,
{
    proof {
        lemma_type_label_nonempty(object_type);
        reveal_strlit("Main Screen");
        reveal_strlit("Data Screen");
    }
    let base: &str = if object_type == ObjectType::DataMask {
        if same_type_count == 0 {
            "Main Screen"
        } else {
            "Data Screen"
        }
    } else {
        get_object_type_name(object_type)
    };
    assert(base@ == base_label(object_type, same_type_count as nat));
    if same_type_count == 0 {
        let b = base.to_owned();
        if !name_taken(existing_names, &b) {
            return b;
        }
    }
    let ghost names = texts(existing_names@);
    let ghost lo = same_type_count as nat + 1;
    proof {
        lemma_free_numbered(names, base@, lo);
    }
    let count_names = existing_names.len();
    assert(lo + names.len() <= u128::MAX) by {
        assert(count_names as int == names.len());
    }
    let mut counter: u128 = same_type_count as u128 + 1;
    loop
        invariant
            lo <= counter <= lo + names.len(),
            lo + names.len() <= u128::MAX,
            lo == same_type_count as nat + 1,
            names == texts(existing_names@),
            !(same_type_count == 0 && !names.contains(base@)),
            base@ == base_label(object_type, same_type_count as nat),
            exists|k: nat| counter <= k <= lo + names.len() && !names.contains(#[trigger] numbered(base@, k)),
            forall|j: nat| lo <= j < counter ==> names.contains(#[trigger] numbered(base@, j)),
        decreases lo + names.len() - counter,
    {
        let candidate = numbered_string(base, counter);
        if !name_taken(existing_names, &candidate) {
            assert(is_first_free(names, base@, lo, counter as nat));
            let ghost k = counter as nat;
            assert(is_first_free(names, base_label(object_type, same_type_count as nat), same_type_count as nat + 1, k));
            return candidate;
        }
        proof {
            let k = choose|k: nat| counter <= k <= lo + names.len() && !names.contains(#[trigger] numbered(base@, k));
            assert(k != counter);
        }
        counter = counter + 1;
    }
}

/// The name that an object's own properties suggest, if any. These names are not
/// checked against the names in use.
pub fn generate_contextual_name(object: &Object) -> (r: Option<String>)
    ensures
        opt_text(r) == contextual_name(object@),
        r matches Some(s) ==> s@.len() > 0,
{
    proof {
        reveal_strlit("ACK/Enter Key");
        reveal_strlit("ESC Key");
        reveal_strlit("OK");
        reveal_strlit("Cancel");
        reveal_strlit("Header Container");
        reveal_strlit("Main Container");
    }
    match object.object_type {
        ObjectType::Key => {
            if object.key_code == 0 {
                Some("ACK/Enter Key".to_owned())
            } else if object.key_code == 1 {
                Some("ESC Key".to_owned())
            } else if object.key_code <= 7 {
                Some(numbered_string("Soft Key", (object.key_code - 1) as u128))
            } else {
                None
            }
        },
        ObjectType::Button => {
            if object.key_code == 0 {
                Some("OK".to_owned())
            } else if object.key_code == 1 {
                Some("Cancel".to_owned())
            } else {
                None
            }
        },
        ObjectType::Container => {
            if object.height < 100 {
                Some("Header Container".to_owned())
            } else if object.height > 300 {
                Some("Main Container".to_owned())
            } else {
                None
            }
        },
        _ => None,
    }
}

fn count_resolved(refs: &Vec<u16>, pool: &ObjectPool, t: ObjectType) -> (r: usize)
    requires
        pool.wf(),
    ensures
        r == resolved_count(refs@, pool@, t),
        r <= refs@.len(),
{
    let mut n: usize = 0;
    let mut i: usize = 0;
    while i < refs.len()
        invariant
            pool.wf(),
            i <= refs@.len(),
            n == resolved_count(refs@.take(i as int), pool@, t),
            n <= i,
        decreases refs@.len() - i,
    {
        assert(refs@.take(i + 1).drop_last() =~= refs@.take(i as int));
        match pool.object_by_id(refs[i]) {
            Some(o) => {
                if o.object_type == t {
                    n = n + 1;
                } else {
                    proof {
                        if resolves_to(pool@, refs@[i as int], t) {
                            let j = choose|j: int|
                                0 <= j < pool@.len() && pool@[j].id == refs@[i as int]
                                    && pool@[j].object_type == t;
                            let k = choose|k: int| 0 <= k < pool@.len() && pool@[k] == o@ && o@.id == refs@[i as int];
                            assert(j == k);
                        }
                    }
                }
            },
            None => {},
        }
        i += 1;
    }
    assert(refs@.take(i as int) =~= refs@);
    n
}

/// The name suggested for a new child of kind `child_type` under `parent_object`:
/// numbered function keys in a soft key mask, labels inside containers, and
/// header, main and footer containers in a data mask.
pub fn suggest_name_for_child(parent_object: &Object, child_type: ObjectType, pool: &ObjectPool) -> (r:
    Option<String>)
    requires
        pool.wf(),
    ensures
        opt_text(r) == child_suggestion(parent_object@, child_type, pool@),
{
    if parent_object.object_type == ObjectType::SoftKeyMask && child_type == ObjectType::Key {
        let n = count_resolved(&parent_object.references, pool, ObjectType::Key);
        proof {
            reveal_strlit("F");
            reveal_strlit(" Key");
        }
        let mut s = "F".to_owned();
        let d = decimal_string(n as u128 + 1);
        s.append(d.as_str());
        s.append(" Key");
        Some(s)
    } else if parent_object.object_type == ObjectType::Container && child_type == ObjectType::Button {
        Some("Container Button".to_owned())
    } else if parent_object.object_type == ObjectType::Container && child_type
        == ObjectType::OutputString {
        Some("Container Label".to_owned())
    } else if parent_object.object_type == ObjectType::DataMask && child_type
        == ObjectType::Container {
        let c = count_resolved(&parent_object.references, pool, ObjectType::Container);
        if c == 0 {
            Some("Header Container".to_owned())
        } else if c == 1 {
            Some("Main Container".to_owned())
        } else if c == 2 {
            Some("Footer Container".to_owned())
        } else {
            None
        }
    } else {
        None
    }
}

/// Checks a name that a user typed: it must not be blank, must be at most 100
/// bytes long, and must not be in use. A name in use is refused with the least
/// numbered variant from 2 on that is free, if one up to 65535 is.
pub fn validate_and_suggest_name(name: &str, existing_names: &Vec<String>) -> (r: Result<(), String>)
    ensures
        is_validation(name@, name.len() as nat, texts(existing_names@), result_text(r)),
{
    if blank(name) {
        return Err("Name cannot be empty".to_owned());
    }
    if name.len() > 100 {
        return Err("Name is too long (max 100 characters)".to_owned());
    }
    let owned = name.to_owned();
    if name_taken(existing_names, &owned) {
        let ghost names = texts(existing_names@);
        let mut counter: u32 = 2;
        while counter <= MAX_SUGGESTION
            invariant
                2 <= counter <= MAX_SUGGESTION + 1,
                names == texts(existing_names@),
                names.contains(name@),
                !is_blank(name@),
                name.len() <= 100,
                forall|j: nat| 2 <= j < counter ==> names.contains(#[trigger] numbered(name@, j)),
            decreases MAX_SUGGESTION + 1 - counter,
        {
            let suggestion = numbered_string(name, counter as u128);
            if !name_taken(existing_names, &suggestion) {
                assert(is_first_free(names, name@, 2, counter as nat));
                let mut e = "Name '".to_owned();
                e.append(name);
                e.append("' already exists. Try '");
                e.append(suggestion.as_str());
                e.append("'");
                return Err(e);
            }
            counter = counter + 1;
        }
        let mut e = "Name '".to_owned();
        e.append(name);
        e.append("' already exists and all numbered variations up to 65535 are taken");
        return Err(e);
    }
    Ok(())
}

} // verus!
