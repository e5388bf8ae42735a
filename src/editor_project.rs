//! The project state engine: a committed pool and selection, a working copy of
//! each that the editor changes freely, bounded undo and redo histories, object
//! metadata, and the allocation of fresh object numbers.

use crate::object_info::{
    default_name, default_object_name, is_v4_identity, shown_name, ObjectInfo, ObjectInfoView,
};
use crate::object_pool::{
    has_id, ids_of_type, max_id_of, pool_wf, sorted_between, Object, ObjectPool, ObjectSpec,
    NULL_OBJECT_ID,
};
use crate::object_type::ObjectType;
use crate::smart_naming::{
    contextual_name, generate_contextual_name, generate_smart_default_name, is_smart_default_name,
    opt_text,
};
use crate::text::{text_le, texts};
use std::collections::HashMap;
use vstd::prelude::*;

verus! {

broadcast use vstd::std_specs::hash::group_hash_axioms;

/// How many earlier pools the undo history keeps.
pub const MAX_UNDO_REDO_POOL: usize = 10;

/// How many earlier selections the selection history keeps.
pub const MAX_UNDO_REDO_SELECTED: usize = 20;

/// What a project holds.
pub struct EditorProjectView {
    /// The committed pool.
    pub pool: Seq<ObjectSpec>,
    /// The working copy of the pool that the editor changes.
    pub mut_pool: Seq<ObjectSpec>,
    pub undo_pool_history: Seq<Seq<ObjectSpec>>,
    pub redo_pool_history: Seq<Seq<ObjectSpec>>,
    /// The committed selection.
    pub selected: Option<u16>,
    /// The working copy of the selection.
    pub mut_selected: Option<u16>,
    pub undo_selected_history: Seq<Option<u16>>,
    pub redo_selected_history: Seq<Option<u16>>,
    /// The size in pixels of the square data mask area.
    pub mask_size: u16,
    /// The width and height in pixels of a soft key.
    pub soft_key_size: (u16, u16),
    /// Metadata by object number.
    pub object_info: Map<u16, ObjectInfoView>,
    /// The element of the user interface, the object and the text of a rename in progress.
    pub renaming_object: Option<(u64, u16, Seq<char>)>,
    /// Where the search for a fresh object number starts.
    pub next_available_id: u16,
}

/// `s` with `x` added at the end, keeping only the last `max` entries.
pub open spec fn push_bounded<T>(s: Seq<T>, x: T, max: nat) -> Seq<T> {
    let t = s.push(x);
    if t.len() > max {
        t.subrange(t.len() - max, t.len() as int)
    } else {
        t
    }
}

/// The number after the greatest one in use, or 65535 when that one is 65535.
pub open spec fn next_id_after(s: Seq<ObjectSpec>) -> u16 {
    if max_id_of(s) < 65535 {
        (max_id_of(s) + 1) as u16
    } else {
        65535
    }
}

/// No object of the committed or the working pool carries the number `id`.
pub open spec fn is_free_id(v: EditorProjectView, id: int) -> bool {
    !has_id(v.pool, id as u16) && !has_id(v.mut_pool, id as u16)
}

/// Some number from 1 to 65534 is free in both pools.
pub open spec fn has_free_id(v: EditorProjectView) -> bool {
    exists|id: int| 1 <= id <= 65534 && is_free_id(v, id)
}

/// `r` is the first number from `lo` to 65534 that is free in both pools.
pub open spec fn first_free_from(v: EditorProjectView, lo: int, r: int) -> bool {
    &&& lo <= r <= 65534
    &&& is_free_id(v, r)
    &&& forall|j: int| lo <= j < r ==> !is_free_id(v, j)
}

/// Where the search for a fresh number starts: the cursor, or 1 for a cursor of 0.
pub open spec fn search_start(v: EditorProjectView) -> int {
    if v.next_available_id == 0 {
        1
    } else {
        v.next_available_id as int
    }
}

/// Every pool of the project holds distinct real numbers, and the histories keep
/// within their bounds.
pub open spec fn project_wf(v: EditorProjectView) -> bool {
    &&& pool_wf(v.pool)
    &&& pool_wf(v.mut_pool)
    &&& forall|i: int| 0 <= i < v.undo_pool_history.len() ==> pool_wf(#[trigger] v.undo_pool_history[i])
    &&& forall|i: int| 0 <= i < v.redo_pool_history.len() ==> pool_wf(#[trigger] v.redo_pool_history[i])
    &&& v.undo_pool_history.len() + v.redo_pool_history.len() <= MAX_UNDO_REDO_POOL
    &&& v.undo_selected_history.len() + v.redo_selected_history.len() <= MAX_UNDO_REDO_SELECTED
}

/// A commit from `pre` to `post` that returned `changed`: when the working pool
/// differs from the committed one, the committed pool goes onto the undo history,
/// the redo history is cleared, and the working pool becomes the committed one;
/// otherwise nothing changes.
pub open spec fn commit_step(pre: EditorProjectView, post: EditorProjectView, changed: bool) -> bool {
    &&& changed == (pre.mut_pool != pre.pool)
    &&& !changed ==> post == pre
    &&& changed ==> post == EditorProjectView {
        pool: pre.mut_pool,
        undo_pool_history: push_bounded(pre.undo_pool_history, pre.pool, MAX_UNDO_REDO_POOL as nat),
        redo_pool_history: seq![],
        ..pre
    }
}

/// An undo from `pre` to `post`: the last pool of the undo history becomes both
/// the committed and the working pool, and the committed one goes onto the redo
/// history. With an empty undo history nothing changes.
pub open spec fn undo_step(pre: EditorProjectView, post: EditorProjectView) -> bool {
    if pre.undo_pool_history.len() == 0 {
        post == pre
    } else {
        let p = pre.undo_pool_history.last();
        post == EditorProjectView {
            pool: p,
            mut_pool: p,
            undo_pool_history: pre.undo_pool_history.drop_last(),
            redo_pool_history: pre.redo_pool_history.push(pre.pool),
            next_available_id: next_id_after(p),
            ..pre
        }
    }
}

/// A redo from `pre` to `post`: the last pool of the redo history becomes both
/// the committed and the working pool, and the committed one goes onto the undo
/// history. With an empty redo history nothing changes.
pub open spec fn redo_step(pre: EditorProjectView, post: EditorProjectView) -> bool {
    if pre.redo_pool_history.len() == 0 {
        post == pre
    } else {
        let p = pre.redo_pool_history.last();
        post == EditorProjectView {
            pool: p,
            mut_pool: p,
            undo_pool_history: pre.undo_pool_history.push(pre.pool),
            redo_pool_history: pre.redo_pool_history.drop_last(),
            next_available_id: next_id_after(p),
            ..pre
        }
    }
}

/// A commit of the selection from `pre` to `post` that returned `changed`. A new
/// selection clears the redo history; the earlier selection goes onto the undo
/// history only when the new one is not empty.
pub open spec fn select_step(pre: EditorProjectView, post: EditorProjectView, changed: bool) -> bool {
    &&& changed == (pre.mut_selected != pre.selected)
    &&& !changed ==> post == pre
    &&& changed ==> post == EditorProjectView {
        selected: pre.mut_selected,
        undo_selected_history: if pre.mut_selected is Some {
            push_bounded(
                pre.undo_selected_history,
                pre.selected,
                MAX_UNDO_REDO_SELECTED as nat,
            )
        } else {
            pre.undo_selected_history
        },
        redo_selected_history: seq![],
        ..pre
    }
}

/// A step back in the selection history, from `pre` to `post`.
pub open spec fn previous_selected_step(pre: EditorProjectView, post: EditorProjectView) -> bool {
    if pre.undo_selected_history.len() == 0 {
        post == pre
    } else {
        let s = pre.undo_selected_history.last();
        post == EditorProjectView {
            selected: s,
            mut_selected: s,
            undo_selected_history: pre.undo_selected_history.drop_last(),
            redo_selected_history: pre.redo_selected_history.push(pre.selected),
            ..pre
        }
    }
}

/// A step forward in the selection history, from `pre` to `post`.
pub open spec fn next_selected_step(pre: EditorProjectView, post: EditorProjectView) -> bool {
    if pre.redo_selected_history.len() == 0 {
        post == pre
    } else {
        let s = pre.redo_selected_history.last();
        post == EditorProjectView {
            selected: s,
            mut_selected: s,
            undo_selected_history: pre.undo_selected_history.push(pre.selected),
            redo_selected_history: pre.redo_selected_history.drop_last(),
            ..pre
        }
    }
}

/// An allocation from `pre` to `post` that handed out `r`: the first number
/// free in both pools from the cursor on, or, when none is left up to 65534, the
/// first free one from 1; the cursor moves past it.
pub open spec fn allocate_step(pre: EditorProjectView, post: EditorProjectView, r: u16) -> bool {
    &&& 1 <= r <= 65534
    &&& is_free_id(pre, r as int)
    &&& if exists|j: int| search_start(pre) <= j <= 65534 && is_free_id(pre, j) {
        first_free_from(pre, search_start(pre), r as int)
    } else {
        first_free_from(pre, 1, r as int)
    }
    &&& post == EditorProjectView { next_available_id: (r + 1) as u16, ..pre }
}

/// Adding `o` to the working pool, from `pre` to `post`, which reported `added`.
pub open spec fn add_step(pre: EditorProjectView, post: EditorProjectView, o: ObjectSpec, added: bool) -> bool {
    &&& added == (o.id != NULL_OBJECT_ID && !has_id(pre.mut_pool, o.id))
    &&& added ==> post == EditorProjectView { mut_pool: pre.mut_pool.push(o), ..pre }
    &&& !added ==> post == pre
}

/// The name recorded for object `id`, if any.
pub open spec fn recorded_name(info: Map<u16, ObjectInfoView>, id: u16) -> Option<Seq<char>> {
    if info.contains_key(id) {
        info[id].name
    } else {
        None
    }
}

/// Object `id` has a name of its own.
pub open spec fn is_named(info: Map<u16, ObjectInfoView>, id: u16) -> bool {
    recorded_name(info, id) is Some
}

/// The name object `o` shows, given the metadata.
pub open spec fn displayed_name(info: Map<u16, ObjectInfoView>, o: ObjectSpec) -> Seq<char> {
    shown_name(recorded_name(info, o.id), o)
}

/// The names the objects of `pool` show, in pool order.
pub open spec fn displayed_names(pool: Seq<ObjectSpec>, info: Map<u16, ObjectInfoView>) -> Seq<
    Seq<char>,
> {
    pool.map_values(|o: ObjectSpec| displayed_name(info, o))
}

/// The metadata of `id` is the same in `a` and in `b`.
pub open spec fn info_kept(a: Map<u16, ObjectInfoView>, b: Map<u16, ObjectInfoView>, id: u16) -> bool {
    &&& a.contains_key(id) == b.contains_key(id)
    &&& a.contains_key(id) ==> a[id] == b[id]
}

/// Every object with metadata in `a` still has it in `b`, with the same identity.
pub open spec fn identities_kept(a: Map<u16, ObjectInfoView>, b: Map<u16, ObjectInfoView>) -> bool {
    forall|id: u16|
        #![trigger a.contains_key(id)]
        a.contains_key(id) ==> b.contains_key(id) && b[id].unique_id == a[id].unique_id
}

/// The object at position `i` of `pool` shows a name that no other object of
/// `pool` shows.
pub open spec fn shows_unique_name(pool: Seq<ObjectSpec>, info: Map<u16, ObjectInfoView>, i: int) -> bool {
    forall|j: int|
        0 <= j < pool.len() && j != i ==> #[trigger] displayed_name(info, pool[j]) != displayed_name(
            info,
            pool[i],
        )
}

/// How many objects of the kind of the object at position `i` come before it.
pub open spec fn rank_in_pool(pool: Seq<ObjectSpec>, i: int) -> nat {
    ids_of_type(pool.take(i), pool[i].object_type).len()
}

/// Object `id` is one that a naming run over `listed` works on: listed, in the
/// committed pool, and without a name of its own.
pub open spec fn is_candidate(v: EditorProjectView, listed: Seq<u16>, id: u16) -> bool {
    listed.contains(id) && has_id(v.pool, id) && !is_named(v.object_info, id)
}

/// After naming by properties: the object at position `i` of `pool` has the name
/// its properties suggest, or, when they suggest none, its metadata is unchanged.
pub open spec fn contextual_outcome(
    pool: Seq<ObjectSpec>,
    pre: Map<u16, ObjectInfoView>,
    post: Map<u16, ObjectInfoView>,
    i: int,
) -> bool {
    match contextual_name(pool[i]) {
        Some(n) => recorded_name(post, pool[i].id) == Some(n),
        None => info_kept(pre, post, pool[i].id),
    }
}

/// The objects that a naming run over `listed` works on, given the metadata
/// before the run: those listed that have no name of their own.
pub open spec fn naming_targets(info: Map<u16, ObjectInfoView>, listed: Seq<u16>) -> Set<u16> {
    Set::new(|id: u16| listed.contains(id) && !is_named(info, id))
}

/// The names that the objects of `pool` show at the moment the object at position
/// `q` receives its default name, in a run over `targets` that ended with `info`:
/// the objects from `q` on that wait for a default name still show
/// "{number}: {kind}", and every other object shows its final name.
pub open spec fn names_when_named(
    pool: Seq<ObjectSpec>,
    info: Map<u16, ObjectInfoView>,
    targets: Set<u16>,
    q: int,
) -> Seq<Seq<char>> {
    Seq::new(
        pool.len(),
        |j: int|
            if q <= j && targets.contains(pool[j].id) && contextual_name(pool[j]) is None {
                default_name(pool[j].id, pool[j].object_type)
            } else {
                displayed_name(info, pool[j])
            },
    )
}

/// What a naming run over `targets` did to the object at position `i` of `pool`,
/// one of its targets: the name its properties suggest, or else the default name
/// for its kind and rank given the names shown at that moment, which no other
/// object shows.
pub open spec fn naming_outcome(
    pool: Seq<ObjectSpec>,
    info: Map<u16, ObjectInfoView>,
    targets: Set<u16>,
    i: int,
) -> bool {
    match contextual_name(pool[i]) {
        Some(n) => recorded_name(info, pool[i].id) == Some(n),
        None => recorded_name(info, pool[i].id) matches Some(n) && is_smart_default_name(
            pool[i].object_type,
            rank_in_pool(pool, i),
            names_when_named(pool, info, targets, i),
            n,
        ) && shows_unique_name(pool, info, i),
    }
}

/// The texts of saved names by object number.
pub open spec fn meta_view(v: Seq<(u16, Option<String>)>) -> Seq<(u16, Option<Seq<char>>)> {
    v.map_values(|e: (u16, Option<String>)| (e.0, opt_text(e.1)))
}

/// The name saved for object `id`: that of the first entry for `id`, if any.
pub open spec fn saved_name(meta: Seq<(u16, Option<Seq<char>>)>, id: u16) -> Option<Seq<char>>
    decreases meta.len(),
{
    if meta.len() == 0 {
        None
    } else if meta[0].0 == id {
        meta[0].1
    } else {
        saved_name(meta.drop_first(), id)
    }
}

/// A name that is not empty was saved for object `id`.
pub open spec fn has_saved_name(meta: Seq<(u16, Option<Seq<char>>)>, id: u16) -> bool {
    saved_name(meta, id) matches Some(n) && n.len() > 0
}

/// The selection restored from a saved one: none for the null number.
pub open spec fn restored_selection(saved: Option<u16>) -> Option<u16> {
    match saved {
        Some(id) => if id != NULL_OBJECT_ID {
            Some(id)
        } else {
            None
        },
        None => None,
    }
}

/// The objects that loading names by a naming run: those without a saved name.
pub open spec fn load_targets(meta: Seq<(u16, Option<Seq<char>>)>) -> Set<u16> {
    Set::new(|id: u16| !has_saved_name(meta, id))
}

/// What loading did to the name of the object at position `i` of `pool`: its
/// saved name where one was saved, else what a naming run gives.
pub open spec fn loaded_name_outcome(
    pool: Seq<ObjectSpec>,
    meta: Seq<(u16, Option<Seq<char>>)>,
    info: Map<u16, ObjectInfoView>,
    i: int,
) -> bool {
    if has_saved_name(meta, pool[i].id) {
        recorded_name(info, pool[i].id) == saved_name(meta, pool[i].id)
    } else {
        naming_outcome(pool, info, load_targets(meta), i)
    }
}

/// The metadata after moving the entry of `old_id`, if any, to `new_id`.
pub open spec fn moved_info(info: Map<u16, ObjectInfoView>, old_id: u16, new_id: u16) -> Map<
    u16,
    ObjectInfoView,
> {
    if info.contains_key(old_id) {
        info.remove(old_id).insert(new_id, info[old_id])
    } else {
        info
    }
}

/// The metadata after a rename in progress ends, stored or not.
pub open spec fn renamed_info(v: EditorProjectView, store: bool) -> Map<u16, ObjectInfoView> {
    match v.renaming_object {
        Some((_, id, name)) => if store && v.object_info.contains_key(id) && name.len() > 0 {
            v.object_info.insert(id, ObjectInfoView { name: Some(name), ..v.object_info[id] })
        } else {
            v.object_info
        },
        None => v.object_info,
    }
}

/// An editing session on one object pool.
pub struct EditorProject {
    pool: ObjectPool,
    mut_pool: ObjectPool,
    undo_pool_history: Vec<ObjectPool>,
    redo_pool_history: Vec<ObjectPool>,
    selected_object: Option<u16>,
    mut_selected_object: Option<u16>,
    undo_selected_history: Vec<Option<u16>>,
    redo_selected_history: Vec<Option<u16>>,
    mask_size: u16,
    soft_key_size: (u16, u16),
    object_info: HashMap<u16, ObjectInfo>,
    renaming_object: Option<(u64, u16, String)>,
    next_available_id: u16,
}

/// An order in which the working pool can be sorted.
#[derive(Clone, Copy, Debug, PartialEq, Eq, Structural)]
pub enum SortOrder {
    /// By the kinds' type numbers.
    ByType,
    /// By the names the objects show, in the order of code points.
    ByName,
    /// By object number.
    ById,
}

/// The objects of `pool` are in `order`, the names being those `info` gives.
pub open spec fn sorted_in(pool: Seq<ObjectSpec>, info: Map<u16, ObjectInfoView>, order: SortOrder) -> bool {
    match order {
        SortOrder::ByType => sorted_between(pool, true, 0, pool.len() - 1),
        SortOrder::ById => sorted_between(pool, false, 0, pool.len() - 1),
        SortOrder::ByName => forall|a: int, b: int|
            0 <= a < b < pool.len() ==> text_le(
                #[trigger] displayed_name(info, pool[a]),
                #[trigger] displayed_name(info, pool[b]),
            ),
    }
}

/// What each pool of a history holds.
pub open spec fn pools_view(v: Seq<ObjectPool>) -> Seq<Seq<ObjectSpec>> {
    v.map_values(|p: ObjectPool| p@)
}

impl View for EditorProject {
    type V = EditorProjectView;

    closed spec fn view(&self) -> EditorProjectView {
        EditorProjectView {
            pool: self.pool@,
            mut_pool: self.mut_pool@,
            undo_pool_history: pools_view(self.undo_pool_history@),
            redo_pool_history: pools_view(self.redo_pool_history@),
            selected: self.selected_object,
            mut_selected: self.mut_selected_object,
            undo_selected_history: self.undo_selected_history@,
            redo_selected_history: self.redo_selected_history@,
            mask_size: self.mask_size,
            soft_key_size: self.soft_key_size,
            object_info: self.object_info@.map_values(|i: ObjectInfo| i@),
            renaming_object: match self.renaming_object {
                Some((u, id, s)) => Some((u, id, s@)),
                None => None,
            },
            next_available_id: self.next_available_id,
        }
    }
}

fn id_listed(ids: &Vec<u16>, id: u16) -> (r: bool)
    ensures
        r == ids@.contains(id),
{
    let mut i: usize = 0;
    while i < ids.len()
        invariant
            i <= ids@.len(),
            forall|j: int| 0 <= j < i ==> ids@[j] != id,
        decreases ids@.len() - i,
    {
        if ids[i] == id {
            return true;
        }
        i += 1;
    }
    false
}

fn find_saved(metadata: &Vec<(u16, Option<String>)>, id: u16) -> (r: Option<usize>)
    ensures
        r is None ==> saved_name(meta_view(metadata@), id) is None,
        r matches Some(k) ==> k < metadata@.len() && saved_name(meta_view(metadata@), id) == opt_text(
            metadata@[k as int].1,
        ),
{
    let ghost meta = meta_view(metadata@);
    assert(meta.skip(0) =~= meta);
    let mut k: usize = 0;
    while k < metadata.len()
        invariant
            k <= metadata@.len(),
            meta == meta_view(metadata@),
            saved_name(meta, id) == saved_name(meta.skip(k as int), id),
        decreases metadata@.len() - k,
    {
        assert(meta.skip(k as int).drop_first() =~= meta.skip(k + 1));
        if metadata[k].0 == id {
            return Some(k);
        }
        k += 1;
    }
    None
}

fn next_id_for(pool: &ObjectPool) -> (r: u16)
    ensures
        r == next_id_after(pool@),
{
    let m = pool.max_id();
    if m < 65535 {
        m + 1
    } else {
        65535
    }
}

impl EditorProject {
    /// The project is well formed.
    pub open spec fn wf(&self) -> bool {
        project_wf(self@)
    }

    /// A project on `pool`, with the given mask geometry, empty histories, no
    /// selection and no metadata.
    pub fn from_pool(pool: ObjectPool, mask_size: u16, soft_key_size: (u16, u16)) -> (r: EditorProject)
        requires
            pool.wf(),
        ensures
            r.wf(),
            r@ == (EditorProjectView {
                pool: pool@,
                mut_pool: pool@,
                undo_pool_history: seq![],
                redo_pool_history: seq![],
                selected: None,
                mut_selected: None,
                undo_selected_history: seq![],
                redo_selected_history: seq![],
                mask_size,
                soft_key_size,
                object_info: Map::empty(),
                renaming_object: None,
                next_available_id: next_id_after(pool@),
            }),
    {
        let next = next_id_for(&pool);
        let r = EditorProject {
            mut_pool: pool.snapshot(),
            pool,
            undo_pool_history: Vec::new(),
            redo_pool_history: Vec::new(),
            selected_object: None,
            mut_selected_object: None,
            undo_selected_history: Vec::new(),
            redo_selected_history: Vec::new(),
            mask_size,
            soft_key_size,
            object_info: HashMap::new(),
            renaming_object: None,
            next_available_id: next,
        };
        assert(r@.undo_pool_history =~= seq![]);
        assert(r@.redo_pool_history =~= seq![]);
        assert(r@.object_info =~= Map::empty());
        r
    }

    /// The committed pool.
    pub fn get_pool(&self) -> (r: &ObjectPool)
        ensures
            r@ == self@.pool,
    {
        &self.pool
    }

    /// The working copy of the pool, which the next commit adopts.
    pub fn get_mut_pool(&self) -> (r: &ObjectPool)
        ensures
            r@ == self@.mut_pool,
    {
        &self.mut_pool
    }

    /// Replaces the working copy of the pool.
    pub fn set_mut_pool(&mut self, pool: ObjectPool)
        requires
            old(self).wf(),
            pool.wf(),
        ensures
            final(self).wf(),
            final(self)@ == (EditorProjectView { mut_pool: pool@, ..old(self)@ }),
    {
        self.mut_pool = pool;
    }

    /// The committed selection.
    pub fn get_selected(&self) -> (r: Option<u16>)
        ensures
            r == self@.selected,
    {
        self.selected_object
    }

    /// The working copy of the selection, which the next commit of the selection adopts.
    pub fn get_mut_selected(&self) -> (r: Option<u16>)
        ensures
            r == self@.mut_selected,
    {
        self.mut_selected_object
    }

    /// Replaces the working copy of the selection.
    pub fn set_mut_selected(&mut self, selected: Option<u16>)
        requires
            old(self).wf(),
        ensures
            final(self).wf(),
            final(self)@ == (EditorProjectView { mut_selected: selected, ..old(self)@ }),
    {
        self.mut_selected_object = selected;
    }

    /// The size in pixels of the square data mask area.
    pub fn mask_size(&self) -> (r: u16)
        ensures
            r == self@.mask_size,
    {
        self.mask_size
    }

    /// Sets the size of the data mask area.
    pub fn set_mask_size(&mut self, mask_size: u16)
        requires
            old(self).wf(),
        ensures
            final(self).wf(),
            final(self)@ == (EditorProjectView { mask_size, ..old(self)@ }),
    {
        self.mask_size = mask_size;
    }

    /// The size of the soft keys, width and height in pixels.
    pub fn soft_key_size(&self) -> (r: (u16, u16))
        ensures
            r == self@.soft_key_size,
    {
        self.soft_key_size
    }

    /// Commits the working pool when it differs from the committed one; returns
    /// whether it did.
    pub fn update_pool(&mut self) -> (r: bool)
        requires
            old(self).wf(),
        ensures
            final(self).wf(),
            commit_step(old(self)@, final(self)@, r),
    {
        if self.mut_pool.same_as(&self.pool) {
            return false;
        }
        let ghost pre = self@;
        self.redo_pool_history.clear();
        let committed = self.pool.snapshot();
        self.undo_pool_history.push(committed);
        if self.undo_pool_history.len() > MAX_UNDO_REDO_POOL {
            self.undo_pool_history.remove(0);
        }
        self.pool = self.mut_pool.snapshot();
        proof {
            let post = EditorProjectView {
                pool: pre.mut_pool,
                undo_pool_history: push_bounded(
                    pre.undo_pool_history,
                    pre.pool,
                    MAX_UNDO_REDO_POOL as nat,
                ),
                redo_pool_history: seq![],
                ..pre
            };
            assert(self@.undo_pool_history =~= post.undo_pool_history);
            assert(self@.redo_pool_history =~= post.redo_pool_history);
            assert(self@ == post);
        }
        true
    }

    /// Goes back to the pool before the last commit, if there is one.
    pub fn undo(&mut self)
        requires
            old(self).wf(),
        ensures
            final(self).wf(),
            undo_step(old(self)@, final(self)@),
    {
        let ghost pre = self@;
        match self.undo_pool_history.pop() {
            Some(pool) => {
                let committed = self.pool.snapshot();
                self.redo_pool_history.push(committed);
                self.pool = pool.snapshot();
                self.mut_pool = pool;
                self.next_available_id = next_id_for(&self.pool);
                proof {
                    assert(self@.undo_pool_history =~= pre.undo_pool_history.drop_last());
                    assert(self@.redo_pool_history =~= pre.redo_pool_history.push(pre.pool));
                    assert(pool_wf(pre.undo_pool_history[pre.undo_pool_history.len() - 1]));
                    assert forall|i: int| 0 <= i < self@.undo_pool_history.len() implies pool_wf(
                        #[trigger] self@.undo_pool_history[i],
                    ) by {
                        assert(self@.undo_pool_history[i] == pre.undo_pool_history[i]);
                    }
                    assert forall|i: int| 0 <= i < self@.redo_pool_history.len() implies pool_wf(
                        #[trigger] self@.redo_pool_history[i],
                    ) by {
                        if i < pre.redo_pool_history.len() {
                            assert(self@.redo_pool_history[i] == pre.redo_pool_history[i]);
                        }
                    }
                }
            },
            None => {},
        }
    }

    /// Whether there is a commit to undo.
    pub fn undo_available(&self) -> (r: bool)
        ensures
            r == (self@.undo_pool_history.len() > 0),
    {
        self.undo_pool_history.len() > 0
    }

    /// Goes forward to the pool that the last undo left, if there is one.
    pub fn redo(&mut self)
        requires
            old(self).wf(),
        ensures
            final(self).wf(),
            redo_step(old(self)@, final(self)@),
    {
        let ghost pre = self@;
        match self.redo_pool_history.pop() {
            Some(pool) => {
                let committed = self.pool.snapshot();
                self.undo_pool_history.push(committed);
                self.pool = pool.snapshot();
                self.mut_pool = pool;
                self.next_available_id = next_id_for(&self.pool);
                proof {
                    assert(self@.redo_pool_history =~= pre.redo_pool_history.drop_last());
                    assert(self@.undo_pool_history =~= pre.undo_pool_history.push(pre.pool));
                    assert(pool_wf(pre.redo_pool_history[pre.redo_pool_history.len() - 1]));
                    assert forall|i: int| 0 <= i < self@.redo_pool_history.len() implies pool_wf(
                        #[trigger] self@.redo_pool_history[i],
                    ) by {
                        assert(self@.redo_pool_history[i] == pre.redo_pool_history[i]);
                    }
                    assert forall|i: int| 0 <= i < self@.undo_pool_history.len() implies pool_wf(
                        #[trigger] self@.undo_pool_history[i],
                    ) by {
                        if i < pre.undo_pool_history.len() {
                            assert(self@.undo_pool_history[i] == pre.undo_pool_history[i]);
                        }
                    }
                }
            },
            None => {},
        }
    }

    /// Whether there is an undo to redo.
    pub fn redo_available(&self) -> (r: bool)
        ensures
            r == (self@.redo_pool_history.len() > 0),
    {
        self.redo_pool_history.len() > 0
    }

    /// Commits the working selection when it differs from the committed one;
    /// returns whether it did.
    pub fn update_selected(&mut self) -> (r: bool)
        requires
            old(self).wf(),
        ensures
            final(self).wf(),
            select_step(old(self)@, final(self)@, r),
    {
        let mut_selected = self.mut_selected_object;
        if mut_selected == self.selected_object {
            return false;
        }
        let ghost pre = self@;
        self.redo_selected_history.clear();
        if mut_selected.is_some() {
            self.undo_selected_history.push(self.selected_object);
            if self.undo_selected_history.len() > MAX_UNDO_REDO_SELECTED {
                self.undo_selected_history.remove(0);
            }
        }
        self.selected_object = mut_selected;
        proof {
            let post = EditorProjectView {
                selected: pre.mut_selected,
                undo_selected_history: if pre.mut_selected is Some {
                    push_bounded(
                        pre.undo_selected_history,
                        pre.selected,
                        MAX_UNDO_REDO_SELECTED as nat,
                    )
                } else {
                    pre.undo_selected_history
                },
                redo_selected_history: seq![],
                ..pre
            };
            assert(self@.undo_selected_history =~= post.undo_selected_history);
            assert(self@.redo_selected_history =~= post.redo_selected_history);
            assert(self@ == post);
        }
        true
    }

    /// Goes back to the selection before the last recorded one, if there is one.
    pub fn set_previous_selected(&mut self)
        requires
            old(self).wf(),
        ensures
            final(self).wf(),
            previous_selected_step(old(self)@, final(self)@),
    {
        match self.undo_selected_history.pop() {
            Some(selected) => {
                self.redo_selected_history.push(self.selected_object);
                self.selected_object = selected;
                self.mut_selected_object = selected;
            },
            None => {},
        }
    }

    /// Goes forward to the selection that the last step back left, if there is one.
    pub fn set_next_selected(&mut self)
        requires
            old(self).wf(),
        ensures
            final(self).wf(),
            next_selected_step(old(self)@, final(self)@),
    {
        match self.redo_selected_history.pop() {
            Some(selected) => {
                self.undo_selected_history.push(self.selected_object);
                self.selected_object = selected;
                self.mut_selected_object = selected;
            },
            None => {},
        }
    }

    fn id_free(&self, id: u16) -> (r: bool)
        ensures
            r == is_free_id(self@, id as int),
    {
        !self.pool.contains_id(id) && !self.mut_pool.contains_id(id)
    }

    /// Whether some number from 1 to 65534 is free in both the committed and the
    /// working pool.
    pub fn can_allocate_object_id(&self) -> (r: bool)
        ensures
            r == has_free_id(self@),
    {
        let mut id: u32 = 1;
        while id <= 65534
            invariant
                1 <= id <= 65535,
                forall|j: int| 1 <= j < id ==> !is_free_id(self@, j),
            decreases 65535 - id,
        {
            if self.id_free(id as u16) {
                return true;
            }
            id += 1;
        }
        false
    }

    /// A number from 1 to 65534 that no object of the committed or the working
    /// pool carries: the first free one from the cursor on, or, when none is left
    /// up to 65534, the first free one from 1. The cursor moves past it.
    pub fn allocate_object_id(&mut self) -> (r: u16)
        requires
            old(self).wf(),
            has_free_id(old(self)@),
        ensures
            final(self).wf(),
            allocate_step(old(self)@, final(self)@, r),
    {
        let ghost pre = self@;
        let lo: u32 = if self.next_available_id == 0 {
            1
        } else {
            self.next_available_id as u32
        };
        let mut candidate: u32 = lo;
        while candidate <= 65534 && !self.id_free(candidate as u16)
            invariant
                self@ == pre,
                lo == search_start(pre),
                lo <= candidate <= 65535,
                forall|j: int| lo <= j < candidate ==> !is_free_id(pre, j),
            decreases 65535 - candidate,
        {
            candidate += 1;
        }
        if candidate > 65534 {
            candidate = 1;
            while candidate <= 65534 && !self.id_free(candidate as u16)
                invariant
                    self@ == pre,
                    1 <= candidate <= 65535,
                    forall|j: int| 1 <= j < candidate ==> !is_free_id(pre, j),
                decreases 65535 - candidate,
            {
                candidate += 1;
            }
            if candidate > 65534 {
                proof {
                    let j = choose|j: int| 1 <= j <= 65534 && is_free_id(pre, j);
                    assert(!is_free_id(pre, j));
                }
            }
            assert(first_free_from(pre, 1, candidate as int));
        } else {
            assert(first_free_from(pre, lo as int, candidate as int));
        }
        let r = candidate as u16;
        self.next_available_id = r + 1;
        r
    }

    /// Adds `object` to the working pool, unless its number is the null number or
    /// is taken; returns whether it was added.
    pub fn add_object(&mut self, object: Object) -> (r: bool)
        requires
            old(self).wf(),
        ensures
            final(self).wf(),
            add_step(old(self)@, final(self)@, object@, r),
    {
        self.mut_pool.add(object)
    }

    /// Removes the object numbered `id` from the working pool and returns it.
    /// References to it are left in place.
    pub fn remove_object(&mut self, id: u16) -> (r: Option<Object>)
        requires
            old(self).wf(),
        ensures
            final(self).wf(),
            r is None <==> !has_id(old(self)@.mut_pool, id),
            r is None ==> final(self)@ == old(self)@,
            r matches Some(o) ==> o@.id == id && exists|i: int|
                0 <= i < old(self)@.mut_pool.len() && old(self)@.mut_pool[i] == o@ && final(self)@
                    == (EditorProjectView {
                    mut_pool: old(self)@.mut_pool.remove(i),
                    ..old(self)@
                }),
    {
        self.mut_pool.remove(id)
    }

    /// Reorders the working pool by kind, by number, or by the names the objects
    /// show.
    pub fn sort_objects_by(&mut self, order: SortOrder)
        requires
            old(self).wf(),
        ensures
            final(self).wf(),
            final(self)@ == (EditorProjectView { mut_pool: final(self)@.mut_pool, ..old(self)@ }),
            final(self)@.mut_pool.to_multiset() == old(self)@.mut_pool.to_multiset(),
            sorted_in(final(self)@.mut_pool, final(self)@.object_info, order),
    {
        match order {
            SortOrder::ByType => self.mut_pool.sort_objects(true),
            SortOrder::ById => self.mut_pool.sort_objects(false),
            SortOrder::ByName => {
                let ghost info = self@.object_info;
                let mut names: Vec<String> = Vec::new();
                let mut i: usize = 0;
                while i < self.mut_pool.len()
                    invariant
                        info == self@.object_info,
                        i <= self@.mut_pool.len(),
                        names@.len() == i,
                        forall|a: int|
                            0 <= a < i ==> #[trigger] names@[a]@ == displayed_name(
                                info,
                                self@.mut_pool[a],
                            ),
                    decreases self@.mut_pool.len() - i,
                {
                    let name = self.displayed_name_of(self.mut_pool.object_at(i));
                    names.push(name);
                    i += 1;
                }
                self.mut_pool.sort_by_texts(
                    &mut names,
                    Ghost(|o: ObjectSpec| displayed_name(info, o)),
                );
                proof {
                    let p = self@.mut_pool;
                    assert forall|a: int, b: int| 0 <= a < b < p.len() implies text_le(
                        displayed_name(info, p[a]),
                        displayed_name(info, p[b]),
                    ) by {
                        assert(names@[a]@ == displayed_name(info, p[a]));
                        assert(names@[b]@ == displayed_name(info, p[b]));
                    }
                }
            },
        }
    }

    /// Moves the metadata of object `old_id`, if any, to `new_id`.
    pub fn update_object_id_for_info(&mut self, old_id: u16, new_id: u16)
        requires
            old(self).wf(),
        ensures
            final(self).wf(),
            final(self)@ == (EditorProjectView {
                object_info: moved_info(old(self)@.object_info, old_id, new_id),
                ..old(self)@
            }),
    {
        let ghost pre = self@;
        match self.object_info.remove(&old_id) {
            Some(info) => {
                self.object_info.insert(new_id, info);
            },
            None => {},
        }
        assert(self@.object_info =~= moved_info(pre.object_info, old_id, new_id));
    }

    /// Renumbers object `old_id` of the working pool to `new_id` and moves its
    /// metadata along, so that it keeps its identity and name. A number that
    /// another object carries, or the null number, is refused.
    pub fn change_object_id(&mut self, old_id: u16, new_id: u16) -> (r: bool)
        requires
            old(self).wf(),
        ensures
            final(self).wf(),
            r == (has_id(old(self)@.mut_pool, old_id) && new_id != NULL_OBJECT_ID && (new_id == old_id
                || !has_id(old(self)@.mut_pool, new_id))),
            !r ==> final(self)@ == old(self)@,
            r ==> exists|i: int|
                0 <= i < old(self)@.mut_pool.len() && old(self)@.mut_pool[i].id == old_id
                    && final(self)@ == (EditorProjectView {
                    mut_pool: old(self)@.mut_pool.update(
                        i,
                        ObjectSpec { id: new_id, ..old(self)@.mut_pool[i] },
                    ),
                    object_info: moved_info(old(self)@.object_info, old_id, new_id),
                    ..old(self)@
                }),
    {
        let ok = self.mut_pool.set_object_id(old_id, new_id);
        if ok {
            self.update_object_id_for_info(old_id, new_id);
        }
        ok
    }

    /// The metadata of `object`; an object without any gets fresh metadata, which
    /// is recorded.
    pub fn get_object_info(&mut self, object: &Object) -> (r: ObjectInfo)
        requires
            old(self).wf(),
        ensures
            final(self).wf(),
            old(self)@.object_info.contains_key(object.id) ==> r@ == old(self)@.object_info[object.id]
                && final(self)@ == old(self)@,
            !old(self)@.object_info.contains_key(object.id) ==> r@.name is None && is_v4_identity(
                r@.unique_id,
            ) && final(self)@ == (
            EditorProjectView {
                object_info: old(self)@.object_info.insert(object.id, r@),
                ..old(self)@
            }),
    {
        let ghost pre = self@;
        match self.object_info.get(&object.id) {
            Some(info) => info.duplicate(),
            None => {
                let info = ObjectInfo::new(object);
                let r = info.duplicate();
                self.object_info.insert(object.id, info);
                assert(self@.object_info =~= pre.object_info.insert(object.id, r@));
                r
            },
        }
    }

    fn set_info_name(&mut self, object: &Object, name: String)
        requires
            old(self).wf(),
        ensures
            final(self).wf(),
            final(self)@ == (EditorProjectView { object_info: final(self)@.object_info, ..old(self)@ }),
            final(self)@.object_info == old(self)@.object_info.insert(
                object.id,
                final(self)@.object_info[object.id],
            ),
            name@.len() > 0 ==> recorded_name(final(self)@.object_info, object.id) == Some(name@),
            name@.len() == 0 ==> recorded_name(final(self)@.object_info, object.id) == recorded_name(
                old(self)@.object_info,
                object.id,
            ),
            identities_kept(old(self)@.object_info, final(self)@.object_info),
    {
        let ghost pre = self@;
        let mut info = match self.object_info.remove(&object.id) {
            Some(i) => i,
            None => ObjectInfo::new(object),
        };
        info.set_name(name);
        self.object_info.insert(object.id, info);
        assert(self@.object_info =~= pre.object_info.insert(object.id, self@.object_info[object.id]));
    }

    /// Starts, or updates, the rename of object `object_id` in the element
    /// `ui_id` of the user interface, with the text typed so far.
    pub fn set_renaming_object(&mut self, ui_id: u64, object_id: u16, name: String)
        requires
            old(self).wf(),
        ensures
            final(self).wf(),
            final(self)@ == (EditorProjectView {
                renaming_object: Some((ui_id, object_id, name@)),
                ..old(self)@
            }),
    {
        self.renaming_object = Some((ui_id, object_id, name));
    }

    /// The rename in progress, if any.
    pub fn get_renaming_object(&self) -> (r: Option<(u64, u16, String)>)
        ensures
            match r {
                Some((u, id, s)) => self@.renaming_object == Some((u, id, s@)),
                None => self@.renaming_object is None,
            },
    {
        match &self.renaming_object {
            Some((u, id, s)) => Some((*u, *id, s.clone())),
            None => None,
        }
    }

    /// Ends the rename in progress; when `store` holds, the typed text becomes
    /// the object's name, provided it is not empty and the object has metadata.
    pub fn finish_renaming_object(&mut self, store: bool)
        requires
            old(self).wf(),
        ensures
            final(self).wf(),
            final(self)@ == (EditorProjectView {
                renaming_object: None,
                object_info: renamed_info(old(self)@, store),
                ..old(self)@
            }),
    {
        let ghost pre = self@;
        if store {
            match &self.renaming_object {
                Some((_, id, name)) => {
                    let id = *id;
                    let name = name.clone();
                    match self.object_info.remove(&id) {
                        Some(info) => {
                            let mut info = info;
                            info.set_name(name);
                            self.object_info.insert(id, info);
                        },
                        None => {},
                    }
                },
                None => {},
            }
        }
        self.renaming_object = None;
        assert(self@.object_info =~= renamed_info(pre, store));
    }

    fn displayed_name_of(&self, object: &Object) -> (r: String)
        ensures
            r@ == displayed_name(self@.object_info, object@),
    {
        match self.object_info.get(&object.id) {
            Some(info) => info.get_name(object),
            None => default_object_name(object),
        }
    }

    /// The names that the objects of the committed pool show, in pool order.
    pub fn get_all_object_names(&self) -> (r: Vec<String>)
        ensures
            texts(r@) == displayed_names(self@.pool, self@.object_info),
    {
        let mut names: Vec<String> = Vec::new();
        let mut i: usize = 0;
        while i < self.pool.len()
            invariant
                i <= self@.pool.len(),
                names@.len() == i,
                forall|j: int|
                    0 <= j < i ==> #[trigger] names@[j]@ == displayed_name(
                        self@.object_info,
                        self@.pool[j],
                    ),
            decreases self@.pool.len() - i,
        {
            let name = self.displayed_name_of(self.pool.object_at(i));
            names.push(name);
            i += 1;
        }
        assert(texts(names@) =~= displayed_names(self@.pool, self@.object_info));
        names
    }

    /// A default name for a new object of kind `object_type`, unique among the
    /// names that the committed pool shows.
    pub fn generate_smart_name_for_new_object(&self, object_type: ObjectType) -> (r: String)
        ensures
            is_smart_default_name(
                object_type,
                ids_of_type(self@.pool, object_type).len(),
                displayed_names(self@.pool, self@.object_info),
                r@,
            ),
            !displayed_names(self@.pool, self@.object_info).contains(r@),
    {
        let existing = self.get_all_object_names();
        let count = self.pool.count_of_type(object_type);
        generate_smart_default_name(object_type, count, &existing)
    }

    /// The name that the properties of `object` suggest, if any.
    pub fn generate_contextual_name(&self, object: &Object) -> (r: Option<String>)
        ensures
            opt_text(r) == contextual_name(object@),
    {
        generate_contextual_name(object)
    }

    /// Names the objects numbered in `ids` that are in the committed pool and have
    /// no name yet: first by their properties where those suggest a name, then, in
    /// pool order, with default names. Each default name is chosen against the
    /// names that all objects show at that moment, so that no other object shows it.
    pub fn apply_smart_naming_to_objects(&mut self, ids: &Vec<u16>)
        requires
            old(self).wf(),
        ensures
            final(self).wf(),
            final(self)@ == (EditorProjectView { object_info: final(self)@.object_info, ..old(self)@ }),
            identities_kept(old(self)@.object_info, final(self)@.object_info),
            forall|id: u16|
                !is_candidate(old(self)@, ids@, id) ==> #[trigger] info_kept(
                    old(self)@.object_info,
                    final(self)@.object_info,
                    id,
                ),
            forall|i: int|
                0 <= i < old(self)@.pool.len() && is_candidate(old(self)@, ids@, old(self)@.pool[i].id)
                    ==> #[trigger] naming_outcome(
                    old(self)@.pool,
                    final(self)@.object_info,
                    naming_targets(old(self)@.object_info, ids@),
                    i,
                ),
    {
        let ghost pre = self@;
        let ghost pool = self@.pool;
        let mut k: usize = 0;
        while k < ids.len()
            invariant
                self.wf(),
                pre.pool == pool,
                pool_wf(pool),
                k <= ids@.len(),
                self@ == (EditorProjectView { object_info: self@.object_info, ..pre }),
                identities_kept(pre.object_info, self@.object_info),
                forall|id: u16|
                    !is_candidate(pre, ids@.take(k as int), id) ==> #[trigger] info_kept(
                        pre.object_info,
                        self@.object_info,
                        id,
                    ),
                forall|i: int|
                    0 <= i < pool.len() && is_candidate(pre, ids@.take(k as int), #[trigger] pool[i].id)
                        ==> contextual_outcome(pool, pre.object_info, self@.object_info, i),
            decreases ids@.len() - k,
        {
            let id = ids[k];
            let ghost info_before = self@.object_info;
            proof {
                assert(ids@.take(k + 1) =~= ids@.take(k as int).push(id));
                assert forall|x: u16| is_candidate(pre, ids@.take(k as int), x) implies is_candidate(
                    pre,
                    ids@.take(k + 1),
                    x,
                ) by {
                    let w = choose|w: int| 0 <= w < k && ids@.take(k as int)[w] == x;
                    assert(ids@.take(k + 1)[w] == x);
                }
            }
            let named = self.has_recorded_name(id);
            if !named {
                match self.pool.position_of(id) {
                    Some(q) => {
                        let object = self.pool.object_at(q).duplicate();
                        match generate_contextual_name(&object) {
                            Some(name) => {
                                self.set_info_name(&object, name);
                            },
                            None => {},
                        }
                        proof {
                            assert forall|i: int| 0 <= i < pool.len() && pool[i].id == id implies i == q by {
                            }
                        }
                    },
                    None => {},
                }
            }
            proof {
                assert forall|x: u16| !is_candidate(pre, ids@.take(k + 1), x) implies #[trigger] info_kept(
                    pre.object_info,
                    self@.object_info,
                    x,
                ) by {
                    assert(!is_candidate(pre, ids@.take(k as int), x));
                    assert(info_kept(pre.object_info, info_before, x));
                    if x == id {
                        assert(ids@.take(k + 1)[k as int] == id);
                        assert(is_named(pre.object_info, id) || !has_id(pool, id));
                    }
                }
                assert forall|i: int|
                    0 <= i < pool.len() && is_candidate(pre, ids@.take(k + 1), #[trigger] pool[i].id)
                        implies contextual_outcome(pool, pre.object_info, self@.object_info, i) by {
                    if pool[i].id != id {
                        assert(is_candidate(pre, ids@.take(k as int), pool[i].id));
                    } else if is_candidate(pre, ids@.take(k as int), pool[i].id) {
                        assert(contextual_outcome(pool, pre.object_info, info_before, i));
                    } else {
                        assert(info_kept(pre.object_info, info_before, id));
                    }
                }
            }
            k += 1;
        }
        proof {
            assert(ids@.take(k as int) =~= ids@);
        }
        let ghost targets = naming_targets(pre.object_info, ids@);
        let mut existing = self.get_all_object_names();
        proof {
            assert(texts(existing@).len() == existing@.len());
            assert(displayed_names(pool, self@.object_info).len() == pool.len());
            assert forall|j: int| 0 <= j < pool.len() implies #[trigger] existing@[j]@ == displayed_name(
                self@.object_info,
                pool[j],
            ) by {
                assert(texts(existing@)[j] == existing@[j]@);
                assert(texts(existing@)[j] == displayed_names(pool, self@.object_info)[j]);
            }
        }
        let mut q: usize = 0;
        while q < self.pool.len()
            invariant
                self.wf(),
                pre.pool == pool,
                pool_wf(pool),
                targets == naming_targets(pre.object_info, ids@),
                q <= pool.len(),
                self@ == (EditorProjectView { object_info: self@.object_info, ..pre }),
                identities_kept(pre.object_info, self@.object_info),
                forall|id: u16|
                    !is_candidate(pre, ids@, id) ==> #[trigger] info_kept(
                        pre.object_info,
                        self@.object_info,
                        id,
                    ),
                forall|i: int|
                    0 <= i < pool.len() && is_candidate(pre, ids@, #[trigger] pool[i].id)
                        && contextual_name(pool[i]) is Some ==> contextual_outcome(
                        pool,
                        pre.object_info,
                        self@.object_info,
                        i,
                    ),
                forall|i: int|
                    q <= i < pool.len() && is_candidate(pre, ids@, #[trigger] pool[i].id)
                        && contextual_name(pool[i]) is None ==> info_kept(
                        pre.object_info,
                        self@.object_info,
                        pool[i].id,
                    ),
                forall|i: int|
                    0 <= i < q && is_candidate(pre, ids@, #[trigger] pool[i].id) && contextual_name(
                        pool[i],
                    ) is None ==> naming_outcome(pool, self@.object_info, targets, i),
                existing@.len() == pool.len(),
                forall|j: int|
                    0 <= j < pool.len() ==> #[trigger] existing@[j]@ == displayed_name(
                        self@.object_info,
                        pool[j],
                    ),
            decreases pool.len() - q,
        {
            let ghost info_before = self@.object_info;
            let ghost existing_before = texts(existing@);
            let object = self.pool.object_at(q).duplicate();
            let wanted = id_listed(ids, object.id) && !self.has_recorded_name(object.id);
            proof {
                assert forall|i: int| 0 <= i < pool.len() && pool[i].id == object.id implies i == q by {
                }
                if is_candidate(pre, ids@, object.id) {
                    if contextual_name(pool[q as int]) is Some {
                        assert(contextual_outcome(pool, pre.object_info, info_before, q as int));
                    } else {
                        assert(info_kept(pre.object_info, info_before, object.id));
                    }
                } else {
                    assert(info_kept(pre.object_info, info_before, object.id));
                }
                assert forall|j: int| 0 <= j < pool.len() implies #[trigger] existing_before[j]
                    == displayed_name(info_before, pool[j]) by {
                    assert(existing_before[j] == existing@[j]@);
                }
            }
            if wanted {
                let rank = self.rank_of_type(q);
                let name = generate_smart_default_name(object.object_type, rank, &existing);
                existing.set(q, name.clone());
                self.set_info_name(&object, name);
                proof {
                    let nm = recorded_name(self@.object_info, object.id)->Some_0;
                    let ghost t = targets;
                    assert(!existing_before.contains(nm));
                    assert forall|j: int| 0 <= j < pool.len() && j != q implies #[trigger] displayed_name(
                        self@.object_info,
                        pool[j],
                    ) == displayed_name(info_before, pool[j]) by {
                        assert(pool[j].id != pool[q as int].id);
                    }
                    assert(existing_before =~= names_when_named(pool, info_before, t, q as int)) by {
                        assert forall|j: int| 0 <= j < pool.len() implies existing_before[j]
                            == names_when_named(pool, info_before, t, q as int)[j] by {
                            if q <= j && t.contains(pool[j].id) && contextual_name(pool[j]) is None {
                                assert(is_candidate(pre, ids@, pool[j].id));
                                assert(info_kept(pre.object_info, info_before, pool[j].id));
                            }
                        }
                    }
                    assert(names_when_named(pool, self@.object_info, t, q as int)
                        =~= names_when_named(pool, info_before, t, q as int));
                    assert forall|j: int| 0 <= j < pool.len() implies #[trigger] existing@[j]@
                        == displayed_name(self@.object_info, pool[j]) by {
                        if j != q {
                            assert(existing@[j]@ == existing_before[j]);
                        }
                    }
                    assert forall|i: int|
                        0 <= i < q + 1 && is_candidate(pre, ids@, #[trigger] pool[i].id)
                            && contextual_name(pool[i]) is None implies naming_outcome(
                        pool,
                        self@.object_info,
                        t,
                        i,
                    ) by {
                        if i != q {
                            assert(naming_outcome(pool, info_before, t, i));
                            assert(pool[i].id != pool[q as int].id);
                            assert(recorded_name(self@.object_info, pool[i].id) == recorded_name(
                                info_before,
                                pool[i].id,
                            ));
                            assert(names_when_named(pool, self@.object_info, t, i) =~= names_when_named(
                                pool,
                                info_before,
                                t,
                                i,
                            )) by {
                                assert(t.contains(pool[q as int].id));
                            }
                            assert forall|j: int| 0 <= j < pool.len() && j != i implies #[trigger] displayed_name(
                                self@.object_info,
                                pool[j],
                            ) != displayed_name(self@.object_info, pool[i]) by {
                                if j == q {
                                    assert(existing_before[i] == displayed_name(info_before, pool[i]));
                                } else {
                                    assert(displayed_name(info_before, pool[j]) != displayed_name(
                                        info_before,
                                        pool[i],
                                    ));
                                }
                            }
                        } else {
                            assert forall|j: int| 0 <= j < pool.len() && j != i implies #[trigger] displayed_name(
                                self@.object_info,
                                pool[j],
                            ) != displayed_name(self@.object_info, pool[i]) by {
                                assert(existing_before[j] == displayed_name(info_before, pool[j]));
                            }
                        }
                    }
                    assert forall|id: u16| !is_candidate(pre, ids@, id) implies #[trigger] info_kept(
                        pre.object_info,
                        self@.object_info,
                        id,
                    ) by {
                        assert(info_kept(pre.object_info, info_before, id));
                    }
                    assert forall|i: int|
                        0 <= i < pool.len() && is_candidate(pre, ids@, #[trigger] pool[i].id)
                            && contextual_name(pool[i]) is Some implies contextual_outcome(
                        pool,
                        pre.object_info,
                        self@.object_info,
                        i,
                    ) by {
                        assert(contextual_outcome(pool, pre.object_info, info_before, i));
                    }
                    assert forall|i: int|
                        q + 1 <= i < pool.len() && is_candidate(pre, ids@, #[trigger] pool[i].id)
                            && contextual_name(pool[i]) is None implies info_kept(
                        pre.object_info,
                        self@.object_info,
                        pool[i].id,
                    ) by {
                        assert(info_kept(pre.object_info, info_before, pool[i].id));
                    }
                }
            }
            q += 1;
        }
        proof {
            assert forall|i: int|
                0 <= i < pre.pool.len() && is_candidate(pre, ids@, pre.pool[i].id) implies #[trigger] naming_outcome(
                pre.pool,
                self@.object_info,
                targets,
                i,
            ) by {
                if contextual_name(pool[i]) is Some {
                    assert(contextual_outcome(pool, pre.object_info, self@.object_info, i));
                }
            }
        }
    }

    fn has_recorded_name(&self, id: u16) -> (r: bool)
        ensures
            r == is_named(self@.object_info, id),
    {
        match self.object_info.get(&id) {
            Some(info) => info.has_name(),
            None => false,
        }
    }

    /// Names object `id` as a batch of one would.
    pub fn apply_smart_naming_to_object(&mut self, id: u16)
        requires
            old(self).wf(),
        ensures
            final(self).wf(),
            final(self)@ == (EditorProjectView { object_info: final(self)@.object_info, ..old(self)@ }),
            identities_kept(old(self)@.object_info, final(self)@.object_info),
            forall|other: u16|
                !is_candidate(old(self)@, seq![id], other) ==> #[trigger] info_kept(
                    old(self)@.object_info,
                    final(self)@.object_info,
                    other,
                ),
            forall|i: int|
                0 <= i < old(self)@.pool.len() && is_candidate(old(self)@, seq![id], old(self)@.pool[i].id)
                    ==> #[trigger] naming_outcome(
                    old(self)@.pool,
                    final(self)@.object_info,
                    naming_targets(old(self)@.object_info, seq![id]),
                    i,
                ),
    {
        let ids = vec![id];
        assert(ids@ =~= seq![id]);
        self.apply_smart_naming_to_objects(&ids);
    }

    /// The names to save with the project: for each object of the committed pool,
    /// in pool order, its number and the name recorded for it, if any.
    pub fn saved_metadata(&self) -> (r: Vec<(u16, Option<String>)>)
        ensures
            meta_view(r@) == self@.pool.map_values(
                |o: ObjectSpec| (o.id, recorded_name(self@.object_info, o.id)),
            ),
    {
        let mut r: Vec<(u16, Option<String>)> = Vec::new();
        let mut i: usize = 0;
        while i < self.pool.len()
            invariant
                i <= self@.pool.len(),
                r@.len() == i,
                forall|j: int|
                    0 <= j < i ==> (#[trigger] r@[j]).0 == self@.pool[j].id && opt_text(r@[j].1)
                        == recorded_name(self@.object_info, self@.pool[j].id),
            decreases self@.pool.len() - i,
        {
            let id = self.pool.object_at(i).id;
            let name = match self.object_info.get(&id) {
                Some(info) => info.name_copy(),
                None => None,
            };
            r.push((id, name));
            i += 1;
        }
        assert(meta_view(r@) =~= self@.pool.map_values(
            |o: ObjectSpec| (o.id, recorded_name(self@.object_info, o.id)),
        ));
        r
    }

    /// The selection to save with the project: the working one when there is
    /// one, else the committed one.
    pub fn saved_selection(&self) -> (r: Option<u16>)
        ensures
            r == if self@.mut_selected is Some {
                self@.mut_selected
            } else {
                self@.selected
            },
    {
        if self.mut_selected_object.is_some() {
            self.mut_selected_object
        } else {
            self.selected_object
        }
    }

    /// A project restored from saved parts: the pool, the mask geometry, the names
    /// saved by object number, and the last selection. Saved names that are not
    /// empty are attached to the objects that now carry those numbers; every other
    /// object of the pool is then named as a naming run would name it. A saved
    /// selection other than the null number is restored.
    pub fn load_project(
        pool: ObjectPool,
        mask_size: u16,
        soft_key_size: (u16, u16),
        metadata: &Vec<(u16, Option<String>)>,
        last_selected: Option<u16>,
    ) -> (r: EditorProject)
        requires
            pool.wf(),
        ensures
            r.wf(),
            r@.pool == pool@,
            r@.mut_pool == pool@,
            r@.undo_pool_history.len() == 0,
            r@.redo_pool_history.len() == 0,
            r@.undo_selected_history.len() == 0,
            r@.redo_selected_history.len() == 0,
            r@.mask_size == mask_size,
            r@.soft_key_size == soft_key_size,
            r@.renaming_object is None,
            r@.next_available_id == next_id_after(pool@),
            r@.selected == restored_selection(last_selected),
            r@.mut_selected == restored_selection(last_selected),
            forall|i: int|
                0 <= i < pool@.len() ==> #[trigger] loaded_name_outcome(
                    pool@,
                    meta_view(metadata@),
                    r@.object_info,
                    i,
                ),
    {
        let ghost meta = meta_view(metadata@);
        let mut project = EditorProject::from_pool(pool, mask_size, soft_key_size);
        let ghost base = project@;
        let ghost pv = project@.pool;
        let mut i: usize = 0;
        while i < project.pool.len()
            invariant
                project.wf(),
                pool_wf(pv),
                meta == meta_view(metadata@),
                i <= pv.len(),
                project@ == (EditorProjectView { object_info: project@.object_info, ..base }),
                base.pool == pv,
                forall|j: int|
                    0 <= j < i && has_saved_name(meta, #[trigger] pv[j].id) ==> recorded_name(
                        project@.object_info,
                        pv[j].id,
                    ) == saved_name(meta, pv[j].id),
                forall|j: int|
                    0 <= j < pv.len() && !(j < i && has_saved_name(meta, #[trigger] pv[j].id))
                        ==> !is_named(project@.object_info, pv[j].id),
            decreases pv.len() - i,
        {
            let object = project.pool.object_at(i).duplicate();
            let ghost info_before = project@.object_info;
            match find_saved(metadata, object.id) {
                Some(k) => {
                    project.get_object_info(&object);
                    let name = match &metadata[k].1 {
                        Some(n) => n.clone(),
                        None => String::new(),
                    };
                    project.set_info_name(&object, name);
                },
                None => {},
            }
            proof {
                assert forall|j: int| 0 <= j < pv.len() && j != i implies recorded_name(
                    project@.object_info,
                    #[trigger] pv[j].id,
                ) == recorded_name(info_before, pv[j].id) by {
                    assert(pv[j].id != pv[i as int].id);
                }
            }
            i += 1;
        }
        let mut all_ids: Vec<u16> = Vec::new();
        let mut j: usize = 0;
        while j < project.pool.len()
            invariant
                j <= pv.len(),
                project@.pool == pv,
                all_ids@ == pv.map_values(|o: ObjectSpec| o.id).take(j as int),
            decreases pv.len() - j,
        {
            all_ids.push(project.pool.object_at(j).id);
            j += 1;
            assert(all_ids@ =~= pv.map_values(|o: ObjectSpec| o.id).take(j as int));
        }
        assert(all_ids@ =~= pv.map_values(|o: ObjectSpec| o.id));
        let ghost named_before = project@.object_info;
        project.apply_smart_naming_to_objects(&all_ids);
        proof {
            assert forall|k: int| 0 <= k < pv.len() implies #[trigger] loaded_name_outcome(
                pv,
                meta,
                project@.object_info,
                k,
            ) by {
                assert(all_ids@[k] == pv[k].id);
                if has_saved_name(meta, pv[k].id) {
                    assert(is_named(named_before, pv[k].id));
                    assert(info_kept(named_before, project@.object_info, pv[k].id));
                } else {
                    assert(has_id(pv, pv[k].id));
                    assert(is_candidate(
                        EditorProjectView { object_info: named_before, ..base },
                        all_ids@,
                        pv[k].id,
                    ));
                    let t1 = naming_targets(named_before, all_ids@);
                    let t2 = load_targets(meta);
                    assert forall|j: int| 0 <= j < pv.len() implies t1.contains(pv[j].id)
                        == t2.contains(pv[j].id) by {
                        assert(all_ids@[j] == pv[j].id);
                    }
                    assert(naming_outcome(pv, project@.object_info, t1, k));
                    assert(names_when_named(pv, project@.object_info, t1, k) =~= names_when_named(
                        pv,
                        project@.object_info,
                        t2,
                        k,
                    ));
                }
            }
        }
        match last_selected {
            Some(id) => {
                if id != NULL_OBJECT_ID {
                    project.selected_object = Some(id);
                    project.mut_selected_object = Some(id);
                }
            },
            None => {},
        }
        project
    }

    fn rank_of_type(&self, q: usize) -> (r: usize)
        requires
            q < self@.pool.len(),
        ensures
            r == ids_of_type(self@.pool.take(q as int), self@.pool[q as int].object_type).len(),
    {
        let t = self.pool.object_at(q).object_type;
        let mut n: usize = 0;
        let mut i: usize = 0;
        while i < q
            invariant
                q < self@.pool.len(),
                t == self@.pool[q as int].object_type,
                i <= q,
                n == ids_of_type(self@.pool.take(i as int), t).len(),
                n <= i,
            decreases q - i,
        {
            assert(self@.pool.take(i + 1).drop_last() =~= self@.pool.take(i as int));
            if self.pool.object_at(i).object_type == t {
                n = n + 1;
            }
            i += 1;
        }
        n
    }
}

/// Committing twice with no edit in between changes the project at most once:
/// the second commit reports no change and leaves everything as it was.
pub proof fn lemma_commit_idempotent(
    s0: EditorProjectView,
    s1: EditorProjectView,
    s2: EditorProjectView,
    c1: bool,
    c2: bool,
)
    requires
        commit_step(s0, s1, c1),
        commit_step(s1, s2, c2),
    ensures
        !c2,
        s2 == s1,
{
}

/// An undo followed by a redo gives back the committed pool and both histories
/// as they were before the undo.
pub proof fn lemma_undo_redo_inverse(s0: EditorProjectView, s1: EditorProjectView, s2: EditorProjectView)
    requires
        s0.undo_pool_history.len() > 0,
        undo_step(s0, s1),
        redo_step(s1, s2),
    ensures
        s2.pool == s0.pool,
        s2.mut_pool == s0.pool,
        s2.undo_pool_history == s0.undo_pool_history,
        s2.redo_pool_history == s0.redo_pool_history,
{
    assert(s2.undo_pool_history =~= s0.undo_pool_history);
    assert(s2.redo_pool_history =~= s0.redo_pool_history);
}

/// A redo with nothing to redo changes nothing.
pub proof fn lemma_redo_empty_is_noop(s0: EditorProjectView, s1: EditorProjectView)
    requires
        s0.redo_pool_history.len() == 0,
        redo_step(s0, s1),
    ensures
        s1 == s0,
{
}

proof fn lemma_commits_fill_history(states: Seq<EditorProjectView>, n: nat, k: nat)
    requires
        k <= n < states.len(),
        forall|i: int| 0 <= i < n ==> commit_step(#[trigger] states[i], states[i + 1], true),
    ensures
        k >= 1 ==> states[k as int].undo_pool_history.len() <= MAX_UNDO_REDO_POOL,
        states[k as int].undo_pool_history.len() >= if k < 10 {
            k
        } else {
            10
        },
    decreases k,
{
    if k > 0 {
        lemma_commits_fill_history(states, n, (k - 1) as nat);
        assert(commit_step(states[k - 1], states[k as int], true));
    }
}

#[verifier::rlimit(50)]
proof fn lemma_undos_drain_history(states: Seq<EditorProjectView>, n: nat, m: nat, j: nat)
    requires
        j <= m,
        n + m < states.len(),
        states[n as int].undo_pool_history.len() == 10,
        forall|i: int| n <= i < n + m ==> undo_step(#[trigger] states[i], states[i + 1]),
    ensures
        states[(n + j) as int].undo_pool_history.len() == if j <= 10 {
            10 - j
        } else {
            0
        },
    decreases j,
{
    if j > 0 {
        lemma_undos_drain_history(states, n, m, (j - 1) as nat);
        assert(undo_step(states[(n + j - 1) as int], states[(n + j) as int]));
    }
}

/// After more than ten commits that each changed the pool, any run of undos
/// finds undo available for exactly its first ten steps: available before each
/// of the first ten undos, and no longer available from the tenth on.
pub proof fn lemma_history_bound(states: Seq<EditorProjectView>, n: nat, m: nat)
    requires
        n > 10,
        states.len() == n + m + 1,
        forall|i: int| 0 <= i < n ==> commit_step(#[trigger] states[i], states[i + 1], true),
        forall|i: int| n <= i < n + m ==> undo_step(#[trigger] states[i], states[i + 1]),
    ensures
        forall|k: int|
            0 <= k <= m ==> (#[trigger] states[n + k].undo_pool_history.len() > 0 <==> k < 10),
{
    lemma_commits_fill_history(states, n, n);
    assert forall|k: int| 0 <= k <= m implies (#[trigger] states[n + k].undo_pool_history.len() > 0
        <==> k < 10) by {
        lemma_undos_drain_history(states, n, m, k as nat);
    }
}

/// A number that allocation hands out is free in the working pool at that moment,
/// and once an object carrying it has been added, the next allocation hands out
/// another number.
pub proof fn lemma_allocation_never_repeats(
    s0: EditorProjectView,
    s1: EditorProjectView,
    s2: EditorProjectView,
    s3: EditorProjectView,
    r1: u16,
    o: ObjectSpec,
    added: bool,
    r2: u16,
)
    requires
        allocate_step(s0, s1, r1),
        o.id == r1,
        add_step(s1, s2, o, added),
        allocate_step(s2, s3, r2),
    ensures
        !has_id(s0.mut_pool, r1),
        added,
        r1 != r2,
{
    assert(s2.mut_pool[s2.mut_pool.len() - 1].id == r1);
}


/// While numbers above the last one handed out are free, allocation moves
/// upward: after an object with the last number is added, the next allocation
/// hands out a greater number.
pub proof fn lemma_allocation_advances(
    s0: EditorProjectView,
    s1: EditorProjectView,
    s2: EditorProjectView,
    s3: EditorProjectView,
    r1: u16,
    o: ObjectSpec,
    added: bool,
    r2: u16,
)
    requires
        allocate_step(s0, s1, r1),
        add_step(s1, s2, o, added),
        allocate_step(s2, s3, r2),
        exists|j: int| r1 < j <= 65534 && is_free_id(s2, j),
    ensures
        r2 > r1,
{
    assert(search_start(s2) == r1 + 1);
}

proof fn lemma_max_id_bound(s: Seq<ObjectSpec>, i: int)
    requires
        0 <= i < s.len(),
    ensures
        s[i].id <= max_id_of(s),
    decreases s.len(),
{
    if i < s.len() - 1 {
        lemma_max_id_bound(s.drop_last(), i);
    }
}

/// When the cursor has just been set from the committed pool, as a new project,
/// a load, an undo or a redo does, and both pools agree, allocation hands out
/// the number after the greatest one in use.
pub proof fn lemma_allocation_after_resync(s0: EditorProjectView, s1: EditorProjectView, r: u16)
    requires
        s0.mut_pool == s0.pool,
        s0.next_available_id == next_id_after(s0.pool),
        max_id_of(s0.pool) < 65534,
        allocate_step(s0, s1, r),
    ensures
        r == max_id_of(s0.pool) + 1,
{
    let m = max_id_of(s0.pool) + 1;
    assert(!has_id(s0.pool, m as u16)) by {
        if has_id(s0.pool, m as u16) {
            let i = choose|i: int| 0 <= i < s0.pool.len() && s0.pool[i].id == m as u16;
            lemma_max_id_bound(s0.pool, i);
        }
    }
    assert(is_free_id(s0, m));
    assert(search_start(s0) == m);
}

} // verus!
