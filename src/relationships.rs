//! The relationship schema: which object kinds each kind may hold as children,
//! by VT version. Later versions only ever add kinds.

use crate::object_pool::{ids_of_types, ObjectPool};
use crate::object_type::{ObjectType, VtVersion};
use vstd::prelude::*;

verus! {

/// The kinds in `kinds`, provided the version is at least `since`.
pub open spec fn since(version: VtVersion, since: nat, kinds: Seq<ObjectType>) -> Seq<ObjectType> {
    if version.spec_number() >= since {
        kinds
    } else {
        seq![]
    }
}

/// The allowed kinds of a table of tiers: each tier is a version and the kinds that
/// become allowed from that version on, in the order in which they are listed.
pub open spec fn tiers(version: VtVersion, table: Seq<(nat, Seq<ObjectType>)>) -> Seq<ObjectType>
    decreases table.len(),
{
    if table.len() == 0 {
        seq![]
    } else {
        since(version, table[0].0, table[0].1) + tiers(version, table.drop_first())
    }
}

/// The tiers of allowed children of a working set.
pub open spec fn working_set_table() -> Seq<(nat, Seq<ObjectType>)> {
    seq![
        (0, seq![ObjectType::OutputString, ObjectType::OutputNumber, ObjectType::OutputLine, ObjectType::OutputRectangle, ObjectType::OutputEllipse, ObjectType::OutputPolygon, ObjectType::PictureGraphic]),
        (4, seq![ObjectType::OutputList, ObjectType::OutputMeter, ObjectType::OutputLinearBarGraph, ObjectType::OutputArchedBarGraph, ObjectType::GraphicsContext, ObjectType::ObjectPointer]),
        (6, seq![ObjectType::ScaledGraphic]),
    ]
}

/// The tiers of allowed children of a data mask.
pub open spec fn data_mask_table() -> Seq<(nat, Seq<ObjectType>)> {
    seq![
        (0, seq![ObjectType::Container, ObjectType::Button, ObjectType::InputBoolean, ObjectType::InputString, ObjectType::InputNumber, ObjectType::InputList, ObjectType::OutputString, ObjectType::OutputNumber, ObjectType::OutputLine, ObjectType::OutputRectangle, ObjectType::OutputEllipse, ObjectType::OutputPolygon, ObjectType::OutputMeter, ObjectType::OutputLinearBarGraph, ObjectType::OutputArchedBarGraph, ObjectType::PictureGraphic, ObjectType::ObjectPointer]),
        (3, seq![ObjectType::WorkingSet]),
        (4, seq![ObjectType::OutputList, ObjectType::GraphicsContext]),
        (5, seq![ObjectType::Animation, ObjectType::ExternalObjectPointer]),
        (6, seq![ObjectType::ScaledGraphic]),
    ]
}

/// The tiers of allowed children of an alarm mask.
pub open spec fn alarm_mask_table() -> Seq<(nat, Seq<ObjectType>)> {
    seq![
        (0, seq![ObjectType::Container, ObjectType::OutputString, ObjectType::OutputNumber, ObjectType::OutputLine, ObjectType::OutputRectangle, ObjectType::OutputEllipse, ObjectType::OutputPolygon, ObjectType::OutputMeter, ObjectType::OutputLinearBarGraph, ObjectType::OutputArchedBarGraph, ObjectType::PictureGraphic, ObjectType::ObjectPointer]),
        (3, seq![ObjectType::WorkingSet]),
        (4, seq![ObjectType::OutputList, ObjectType::GraphicsContext]),
        (5, seq![ObjectType::Animation, ObjectType::ExternalObjectPointer]),
        (6, seq![ObjectType::ScaledGraphic]),
    ]
}

/// The tiers of allowed children of a soft key mask.
pub open spec fn soft_key_mask_table() -> Seq<(nat, Seq<ObjectType>)> {
    seq![
        (0, seq![ObjectType::Key, ObjectType::ObjectPointer]),
        (5, seq![ObjectType::ExternalObjectPointer]),
    ]
}

/// The tiers of allowed children of a key.
pub open spec fn key_table() -> Seq<(nat, Seq<ObjectType>)> {
    seq![
        (0, seq![ObjectType::Container, ObjectType::OutputString, ObjectType::OutputNumber, ObjectType::OutputLine, ObjectType::OutputRectangle, ObjectType::OutputEllipse, ObjectType::OutputPolygon, ObjectType::PictureGraphic, ObjectType::ObjectPointer]),
        (4, seq![ObjectType::WorkingSet, ObjectType::OutputList, ObjectType::OutputMeter, ObjectType::OutputLinearBarGraph, ObjectType::OutputArchedBarGraph, ObjectType::GraphicsContext]),
        (5, seq![ObjectType::Animation, ObjectType::ExternalObjectPointer]),
        (6, seq![ObjectType::ScaledGraphic]),
    ]
}

/// The tiers of allowed children of an input list.
pub open spec fn input_list_table() -> Seq<(nat, Seq<ObjectType>)> {
    seq![
        (0, seq![ObjectType::OutputString, ObjectType::OutputNumber, ObjectType::PictureGraphic]),
        (4, seq![ObjectType::WorkingSet, ObjectType::Container, ObjectType::OutputList, ObjectType::OutputLine, ObjectType::OutputRectangle, ObjectType::OutputEllipse, ObjectType::OutputPolygon, ObjectType::OutputMeter, ObjectType::OutputLinearBarGraph, ObjectType::OutputArchedBarGraph, ObjectType::GraphicsContext, ObjectType::ObjectPointer]),
        (5, seq![ObjectType::ExternalObjectPointer]),
        (6, seq![ObjectType::ScaledGraphic]),
    ]
}

/// The tiers of allowed children of an auxiliary function type 1.
pub open spec fn auxiliary_function_type1_table() -> Seq<(nat, Seq<ObjectType>)> {
    seq![
        (0, seq![ObjectType::OutputString, ObjectType::OutputNumber, ObjectType::OutputLine, ObjectType::OutputRectangle, ObjectType::OutputEllipse, ObjectType::OutputPolygon, ObjectType::PictureGraphic]),
    ]
}

/// The tiers of allowed children of an auxiliary function type 2.
pub open spec fn auxiliary_function_type2_table() -> Seq<(nat, Seq<ObjectType>)> {
    seq![
        (3, seq![ObjectType::Container, ObjectType::OutputString, ObjectType::OutputNumber, ObjectType::OutputLine, ObjectType::OutputRectangle, ObjectType::OutputEllipse, ObjectType::OutputPolygon, ObjectType::OutputMeter, ObjectType::OutputLinearBarGraph, ObjectType::OutputArchedBarGraph, ObjectType::PictureGraphic, ObjectType::ObjectPointer]),
        (4, seq![ObjectType::OutputList, ObjectType::GraphicsContext]),
        (6, seq![ObjectType::ScaledGraphic]),
    ]
}

/// The tiers of allowed children of a window mask.
pub open spec fn window_mask_table() -> Seq<(nat, Seq<ObjectType>)> {
    seq![
        (4, seq![ObjectType::WorkingSet, ObjectType::Container, ObjectType::Button, ObjectType::InputBoolean, ObjectType::InputString, ObjectType::InputNumber, ObjectType::InputList, ObjectType::OutputString, ObjectType::OutputNumber, ObjectType::OutputList, ObjectType::OutputLine, ObjectType::OutputRectangle, ObjectType::OutputEllipse, ObjectType::OutputPolygon, ObjectType::OutputMeter, ObjectType::OutputLinearBarGraph, ObjectType::OutputArchedBarGraph, ObjectType::GraphicsContext, ObjectType::PictureGraphic, ObjectType::ObjectPointer]),
        (5, seq![ObjectType::Animation, ObjectType::ExternalObjectPointer]),
        (6, seq![ObjectType::ScaledGraphic]),
    ]
}

/// The tiers of allowed children of a key group.
pub open spec fn key_group_table() -> Seq<(nat, Seq<ObjectType>)> {
    seq![
        (4, seq![ObjectType::Key]),
    ]
}

/// The tiers of allowed children of an animation.
pub open spec fn animation_table() -> Seq<(nat, Seq<ObjectType>)> {
    seq![
        (5, seq![ObjectType::Container, ObjectType::OutputString, ObjectType::OutputNumber, ObjectType::OutputList, ObjectType::OutputLine, ObjectType::OutputRectangle, ObjectType::OutputEllipse, ObjectType::OutputPolygon, ObjectType::OutputMeter, ObjectType::OutputLinearBarGraph, ObjectType::OutputArchedBarGraph, ObjectType::GraphicsContext, ObjectType::PictureGraphic, ObjectType::ObjectPointer]),
        (6, seq![ObjectType::ScaledGraphic]),
    ]
}

/// The tiers of allowed children of an object label reference list.
pub open spec fn object_label_reference_list_table() -> Seq<(nat, Seq<ObjectType>)> {
    seq![]
}

/// The tiers of allowed children of an object label.
pub open spec fn object_label_table() -> Seq<(nat, Seq<ObjectType>)> {
    seq![
        (4, seq![ObjectType::Container, ObjectType::OutputString, ObjectType::OutputNumber, ObjectType::OutputList, ObjectType::OutputLine, ObjectType::OutputRectangle, ObjectType::OutputEllipse, ObjectType::OutputPolygon, ObjectType::OutputMeter, ObjectType::OutputLinearBarGraph, ObjectType::OutputArchedBarGraph, ObjectType::GraphicsContext, ObjectType::PictureGraphic, ObjectType::ObjectPointer]),
        (6, seq![ObjectType::ScaledGraphic]),
    ]
}

/// The tiers of allowed children of each object kind; kinds that hold no
/// children have an empty table.
pub open spec fn child_table(object_type: ObjectType) -> Seq<(nat, Seq<ObjectType>)> {
    match object_type {
        ObjectType::WorkingSet => working_set_table(),
        ObjectType::DataMask => data_mask_table(),
        ObjectType::AlarmMask => alarm_mask_table(),
        ObjectType::Container => data_mask_table(),
        ObjectType::SoftKeyMask => soft_key_mask_table(),
        ObjectType::Key => key_table(),
        ObjectType::Button => key_table(),
        ObjectType::InputList => input_list_table(),
        ObjectType::OutputList => window_mask_table(),
        ObjectType::AuxiliaryFunctionType1 => auxiliary_function_type1_table(),
        ObjectType::AuxiliaryInputType1 => auxiliary_function_type1_table(),
        ObjectType::AuxiliaryFunctionType2 => auxiliary_function_type2_table(),
        ObjectType::AuxiliaryInputType2 => auxiliary_function_type2_table(),
        ObjectType::WindowMask => window_mask_table(),
        ObjectType::KeyGroup => key_group_table(),
        ObjectType::Animation => animation_table(),
        ObjectType::ObjectLabelReferenceList => object_label_reference_list_table(),
        _ => seq![],
    }
}

/// The kinds that an object of kind `object_type` may hold as children under `version`.
pub open spec fn allowed_children(object_type: ObjectType, version: VtVersion) -> Seq<ObjectType> {
    tiers(version, child_table(object_type))
}

/// The kinds that a working set may hold, under `version`.
fn working_set_children(version: VtVersion) -> (r: Vec<ObjectType>)
    ensures
        r@ == tiers(version, working_set_table()),
{
    reveal_with_fuel(tiers, 4);
    let mut allowed = vec![ObjectType::OutputString, ObjectType::OutputNumber, ObjectType::OutputLine, ObjectType::OutputRectangle, ObjectType::OutputEllipse, ObjectType::OutputPolygon, ObjectType::PictureGraphic];
    let n = version.number();
    if n >= 4 {
        let mut more = vec![ObjectType::OutputList, ObjectType::OutputMeter, ObjectType::OutputLinearBarGraph, ObjectType::OutputArchedBarGraph, ObjectType::GraphicsContext, ObjectType::ObjectPointer];
        allowed.append(&mut more);
    }
    if n >= 6 {
        allowed.push(ObjectType::ScaledGraphic);
    }
    assert(allowed@ =~= tiers(version, working_set_table()));
    allowed
}

/// The kinds that a data mask may hold, under `version`.
fn data_mask_children(version: VtVersion) -> (r: Vec<ObjectType>)
    ensures
        r@ == tiers(version, data_mask_table()),
{
    reveal_with_fuel(tiers, 6);
    let mut allowed = vec![ObjectType::Container, ObjectType::Button, ObjectType::InputBoolean, ObjectType::InputString, ObjectType::InputNumber, ObjectType::InputList, ObjectType::OutputString, ObjectType::OutputNumber, ObjectType::OutputLine, ObjectType::OutputRectangle, ObjectType::OutputEllipse, ObjectType::OutputPolygon, ObjectType::OutputMeter, ObjectType::OutputLinearBarGraph, ObjectType::OutputArchedBarGraph, ObjectType::PictureGraphic, ObjectType::ObjectPointer];
    let n = version.number();
    if n >= 3 {
        allowed.push(ObjectType::WorkingSet);
    }
    if n >= 4 {
        let mut more = vec![ObjectType::OutputList, ObjectType::GraphicsContext];
        allowed.append(&mut more);
    }
    if n >= 5 {
        let mut more = vec![ObjectType::Animation, ObjectType::ExternalObjectPointer];
        allowed.append(&mut more);
    }
    if n >= 6 {
        allowed.push(ObjectType::ScaledGraphic);
    }
    assert(allowed@ =~= tiers(version, data_mask_table()));
    allowed
}

/// The kinds that an alarm mask may hold, under `version`.
fn alarm_mask_children(version: VtVersion) -> (r: Vec<ObjectType>)
    ensures
        r@ == tiers(version, alarm_mask_table()),
{
    reveal_with_fuel(tiers, 6);
    let mut allowed = vec![ObjectType::Container, ObjectType::OutputString, ObjectType::OutputNumber, ObjectType::OutputLine, ObjectType::OutputRectangle, ObjectType::OutputEllipse, ObjectType::OutputPolygon, ObjectType::OutputMeter, ObjectType::OutputLinearBarGraph, ObjectType::OutputArchedBarGraph, ObjectType::PictureGraphic, ObjectType::ObjectPointer];
    let n = version.number();
    if n >= 3 {
        allowed.push(ObjectType::WorkingSet);
    }
    if n >= 4 {
        let mut more = vec![ObjectType::OutputList, ObjectType::GraphicsContext];
        allowed.append(&mut more);
    }
    if n >= 5 {
        let mut more = vec![ObjectType::Animation, ObjectType::ExternalObjectPointer];
        allowed.append(&mut more);
    }
    if n >= 6 {
        allowed.push(ObjectType::ScaledGraphic);
    }
    assert(allowed@ =~= tiers(version, alarm_mask_table()));
    allowed
}

/// The kinds that a soft key mask may hold, under `version`.
fn soft_key_mask_children(version: VtVersion) -> (r: Vec<ObjectType>)
    ensures
        r@ == tiers(version, soft_key_mask_table()),
{
    reveal_with_fuel(tiers, 3);
    let mut allowed = vec![ObjectType::Key, ObjectType::ObjectPointer];
    let n = version.number();
    if n >= 5 {
        allowed.push(ObjectType::ExternalObjectPointer);
    }
    assert(allowed@ =~= tiers(version, soft_key_mask_table()));
    allowed
}

/// The kinds that a key may hold, under `version`.
fn key_children(version: VtVersion) -> (r: Vec<ObjectType>)
    ensures
        r@ == tiers(version, key_table()),
{
    reveal_with_fuel(tiers, 5);
    let mut allowed = vec![ObjectType::Container, ObjectType::OutputString, ObjectType::OutputNumber, ObjectType::OutputLine, ObjectType::OutputRectangle, ObjectType::OutputEllipse, ObjectType::OutputPolygon, ObjectType::PictureGraphic, ObjectType::ObjectPointer];
    let n = version.number();
    if n >= 4 {
        let mut more = vec![ObjectType::WorkingSet, ObjectType::OutputList, ObjectType::OutputMeter, ObjectType::OutputLinearBarGraph, ObjectType::OutputArchedBarGraph, ObjectType::GraphicsContext];
        allowed.append(&mut more);
    }
    if n >= 5 {
        let mut more = vec![ObjectType::Animation, ObjectType::ExternalObjectPointer];
        allowed.append(&mut more);
    }
    if n >= 6 {
        allowed.push(ObjectType::ScaledGraphic);
    }
    assert(allowed@ =~= tiers(version, key_table()));
    allowed
}

/// The kinds that an input list may hold, under `version`.
fn input_list_children(version: VtVersion) -> (r: Vec<ObjectType>)
    ensures
        r@ == tiers(version, input_list_table()),
{
    reveal_with_fuel(tiers, 5);
    let mut allowed = vec![ObjectType::OutputString, ObjectType::OutputNumber, ObjectType::PictureGraphic];
    let n = version.number();
    if n >= 4 {
        let mut more = vec![ObjectType::WorkingSet, ObjectType::Container, ObjectType::OutputList, ObjectType::OutputLine, ObjectType::OutputRectangle, ObjectType::OutputEllipse, ObjectType::OutputPolygon, ObjectType::OutputMeter, ObjectType::OutputLinearBarGraph, ObjectType::OutputArchedBarGraph, ObjectType::GraphicsContext, ObjectType::ObjectPointer];
        allowed.append(&mut more);
    }
    if n >= 5 {
        allowed.push(ObjectType::ExternalObjectPointer);
    }
    if n >= 6 {
        allowed.push(ObjectType::ScaledGraphic);
    }
    assert(allowed@ =~= tiers(version, input_list_table()));
    allowed
}

/// The kinds that an auxiliary function type 1 may hold, under `version`.
fn auxiliary_function_type1_children(version: VtVersion) -> (r: Vec<ObjectType>)
    ensures
        r@ == tiers(version, auxiliary_function_type1_table()),
{
    reveal_with_fuel(tiers, 2);
    let mut allowed = vec![ObjectType::OutputString, ObjectType::OutputNumber, ObjectType::OutputLine, ObjectType::OutputRectangle, ObjectType::OutputEllipse, ObjectType::OutputPolygon, ObjectType::PictureGraphic];
    assert(allowed@ =~= tiers(version, auxiliary_function_type1_table()));
    allowed
}

/// The kinds that an auxiliary function type 2 may hold, under `version`.
fn auxiliary_function_type2_children(version: VtVersion) -> (r: Vec<ObjectType>)
    ensures
        r@ == tiers(version, auxiliary_function_type2_table()),
{
    reveal_with_fuel(tiers, 4);
    let mut allowed: Vec<ObjectType> = Vec::new();
    let n = version.number();
    if n >= 3 {
        let mut more = vec![ObjectType::Container, ObjectType::OutputString, ObjectType::OutputNumber, ObjectType::OutputLine, ObjectType::OutputRectangle, ObjectType::OutputEllipse, ObjectType::OutputPolygon, ObjectType::OutputMeter, ObjectType::OutputLinearBarGraph, ObjectType::OutputArchedBarGraph, ObjectType::PictureGraphic, ObjectType::ObjectPointer];
        allowed.append(&mut more);
    }
    if n >= 4 {
        let mut more = vec![ObjectType::OutputList, ObjectType::GraphicsContext];
        allowed.append(&mut more);
    }
    if n >= 6 {
        allowed.push(ObjectType::ScaledGraphic);
    }
    assert(allowed@ =~= tiers(version, auxiliary_function_type2_table()));
    allowed
}

/// The kinds that a window mask may hold, under `version`.
fn window_mask_children(version: VtVersion) -> (r: Vec<ObjectType>)
    ensures
        r@ == tiers(version, window_mask_table()),
{
    reveal_with_fuel(tiers, 4);
    let mut allowed: Vec<ObjectType> = Vec::new();
    let n = version.number();
    if n >= 4 {
        let mut more = vec![ObjectType::WorkingSet, ObjectType::Container, ObjectType::Button, ObjectType::InputBoolean, ObjectType::InputString, ObjectType::InputNumber, ObjectType::InputList, ObjectType::OutputString, ObjectType::OutputNumber, ObjectType::OutputList, ObjectType::OutputLine, ObjectType::OutputRectangle, ObjectType::OutputEllipse, ObjectType::OutputPolygon, ObjectType::OutputMeter, ObjectType::OutputLinearBarGraph, ObjectType::OutputArchedBarGraph, ObjectType::GraphicsContext, ObjectType::PictureGraphic, ObjectType::ObjectPointer];
        allowed.append(&mut more);
    }
    if n >= 5 {
        let mut more = vec![ObjectType::Animation, ObjectType::ExternalObjectPointer];
        allowed.append(&mut more);
    }
    if n >= 6 {
        allowed.push(ObjectType::ScaledGraphic);
    }
    assert(allowed@ =~= tiers(version, window_mask_table()));
    allowed
}

/// The kinds that a key group may hold, under `version`.
fn key_group_children(version: VtVersion) -> (r: Vec<ObjectType>)
    ensures
        r@ == tiers(version, key_group_table()),
{
    reveal_with_fuel(tiers, 2);
    let mut allowed: Vec<ObjectType> = Vec::new();
    let n = version.number();
    if n >= 4 {
        allowed.push(ObjectType::Key);
    }
    assert(allowed@ =~= tiers(version, key_group_table()));
    allowed
}

/// The kinds that an animation may hold, under `version`.
fn animation_children(version: VtVersion) -> (r: Vec<ObjectType>)
    ensures
        r@ == tiers(version, animation_table()),
{
    reveal_with_fuel(tiers, 3);
    let mut allowed: Vec<ObjectType> = Vec::new();
    let n = version.number();
    if n >= 5 {
        let mut more = vec![ObjectType::Container, ObjectType::OutputString, ObjectType::OutputNumber, ObjectType::OutputList, ObjectType::OutputLine, ObjectType::OutputRectangle, ObjectType::OutputEllipse, ObjectType::OutputPolygon, ObjectType::OutputMeter, ObjectType::OutputLinearBarGraph, ObjectType::OutputArchedBarGraph, ObjectType::GraphicsContext, ObjectType::PictureGraphic, ObjectType::ObjectPointer];
        allowed.append(&mut more);
    }
    if n >= 6 {
        allowed.push(ObjectType::ScaledGraphic);
    }
    assert(allowed@ =~= tiers(version, animation_table()));
    allowed
}

/// The kinds that an object label reference list may hold, under `version`.
fn object_label_reference_list_children(version: VtVersion) -> (r: Vec<ObjectType>)
    ensures
        r@ == tiers(version, object_label_reference_list_table()),
{
    reveal_with_fuel(tiers, 1);
    let mut allowed: Vec<ObjectType> = Vec::new();
    assert(allowed@ =~= tiers(version, object_label_reference_list_table()));
    allowed
}

/// The kinds that an object label may show, under `version`.
pub fn object_label_children(version: VtVersion) -> (r: Vec<ObjectType>)
    ensures
        r@ == tiers(version, object_label_table()),
{
    reveal_with_fuel(tiers, 3);
    let mut allowed: Vec<ObjectType> = Vec::new();
    let n = version.number();
    if n >= 4 {
        let mut more = vec![ObjectType::Container, ObjectType::OutputString, ObjectType::OutputNumber, ObjectType::OutputList, ObjectType::OutputLine, ObjectType::OutputRectangle, ObjectType::OutputEllipse, ObjectType::OutputPolygon, ObjectType::OutputMeter, ObjectType::OutputLinearBarGraph, ObjectType::OutputArchedBarGraph, ObjectType::GraphicsContext, ObjectType::PictureGraphic, ObjectType::ObjectPointer];
        allowed.append(&mut more);
    }
    if n >= 6 {
        allowed.push(ObjectType::ScaledGraphic);
    }
    assert(allowed@ =~= tiers(version, object_label_table()));
    allowed
}

/// The kinds that an object of kind `obj_type` may hold as children under `version`,
/// in the order of the schema's tiers.
pub fn get_allowed_child_refs(obj_type: ObjectType, version: VtVersion) -> (r: Vec<ObjectType>)
    ensures
        r@ == allowed_children(obj_type, version),
{
    match obj_type {
        ObjectType::WorkingSet => working_set_children(version),
        ObjectType::DataMask => data_mask_children(version),
        ObjectType::AlarmMask => alarm_mask_children(version),
        // a container accepts what a data mask accepts
        ObjectType::Container => data_mask_children(version),
        ObjectType::SoftKeyMask => soft_key_mask_children(version),
        ObjectType::Key => key_children(version),
        // a button accepts what a key accepts
        ObjectType::Button => key_children(version),
        ObjectType::InputList => input_list_children(version),
        // an output list accepts what a window mask accepts
        ObjectType::OutputList => window_mask_children(version),
        ObjectType::AuxiliaryFunctionType1 => auxiliary_function_type1_children(version),
        // an auxiliary input accepts what its auxiliary function accepts
        ObjectType::AuxiliaryInputType1 => auxiliary_function_type1_children(version),
        ObjectType::AuxiliaryFunctionType2 => auxiliary_function_type2_children(version),
        // an auxiliary input accepts what its auxiliary function accepts
        ObjectType::AuxiliaryInputType2 => auxiliary_function_type2_children(version),
        ObjectType::WindowMask => window_mask_children(version),
        ObjectType::KeyGroup => key_group_children(version),
        ObjectType::Animation => animation_children(version),
        ObjectType::ObjectLabelReferenceList => object_label_reference_list_children(version),
        _ => Vec::new(),
    }
}

/// The numbers of the objects of `pool` that an object of kind `parent_type` may
/// hold as children under `version`, in pool order.
pub fn candidate_children(pool: &ObjectPool, parent_type: ObjectType, version: VtVersion) -> (r: Vec<
    u16,
>)
    ensures
        r@ == ids_of_types(pool@, allowed_children(parent_type, version)),
{
    let allowed = get_allowed_child_refs(parent_type, version);
    pool.objects_by_types(&allowed)
}

proof fn lemma_concat_contains(a: Seq<ObjectType>, b: Seq<ObjectType>, c: ObjectType)
    ensures
        (a + b).contains(c) <==> (a.contains(c) || b.contains(c)),
{
    if (a + b).contains(c) {
        let i = choose|i: int| 0 <= i < (a + b).len() && (a + b)[i] == c;
        if i < a.len() {
            assert(a[i] == c);
        } else {
            assert(b[i - a.len()] == c);
        }
    }
    if a.contains(c) {
        let i = choose|i: int| 0 <= i < a.len() && a[i] == c;
        assert((a + b)[i] == c);
    }
    if b.contains(c) {
        let i = choose|i: int| 0 <= i < b.len() && b[i] == c;
        assert((a + b)[a.len() + i] == c);
    }
}

proof fn lemma_tiers_monotonic(table: Seq<(nat, Seq<ObjectType>)>, v1: VtVersion, v2: VtVersion)
    requires
        v1.spec_number() <= v2.spec_number(),
    ensures
        forall|c: ObjectType| tiers(v1, table).contains(c) ==> tiers(v2, table).contains(c),
    decreases table.len(),
{
    if table.len() > 0 {
        lemma_tiers_monotonic(table.drop_first(), v1, v2);
        assert forall|c: ObjectType| tiers(v1, table).contains(c) implies tiers(v2, table).contains(
            c,
        ) by {
            let a1 = since(v1, table[0].0, table[0].1);
            let b1 = tiers(v1, table.drop_first());
            let a2 = since(v2, table[0].0, table[0].1);
            let b2 = tiers(v2, table.drop_first());
            lemma_concat_contains(a1, b1, c);
            lemma_concat_contains(a2, b2, c);
        }
    }
}

/// The schema is monotonic in the VT version: whatever a kind may hold under one
/// version it may still hold under any later version.
pub proof fn lemma_allowed_children_monotonic(object_type: ObjectType, v1: VtVersion, v2: VtVersion)
    requires
        v1.spec_number() <= v2.spec_number(),
    ensures
        forall|c: ObjectType|
            allowed_children(object_type, v1).contains(c) ==> allowed_children(
                object_type,
                v2,
            ).contains(c),
{
    lemma_tiers_monotonic(child_table(object_type), v1, v2);
}

} // verus!
