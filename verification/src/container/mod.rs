//! In-pane containers: the separator vocabulary, the pods a container
//! holds, and which tab of a tabbed container is active.

pub mod tabbed;

use crate::memory::{spec_lookup, MaraMemory, MemoryKey, MemoryKind, MemoryValue};
use crate::vocab::{id_with, Id};
use vstd::prelude::*;

pub use tabbed::Tab;

verus! {

/// Visual style for a separator between pods or containers.
#[derive(Copy, Clone, Debug, PartialEq, Eq, Structural)]
pub enum SeparatorStyle {
    /// No separator — neighbours sit flush.
    Flush,
    /// Plain thin hairline.
    Line,
    /// Hairline + three centred dots + hairline. Doubles as a drag
    /// handle when painted as a resize separator.
    LineDots,
}

impl SeparatorStyle {
    /// The default separator: a plain hairline.
    pub fn default_style() -> (s: SeparatorStyle)
        ensures
            s == SeparatorStyle::Line,
    {
        SeparatorStyle::Line
    }
}

/// Which axis the separator's line runs along.
#[derive(Copy, Clone, Debug, PartialEq, Eq, Structural)]
pub enum SeparatorOrient {
    /// Line runs left↔right; used between vertically-stacked items.
    Horizontal,
    /// Line runs top↕bottom; used between horizontally-stacked items.
    Vertical,
}

impl SeparatorOrient {
    /// The default orientation: horizontal.
    pub fn default_orient() -> (o: SeparatorOrient)
        ensures
            o == SeparatorOrient::Horizontal,
    {
        SeparatorOrient::Horizontal
    }
}

/// A pod slot inside a container body, identified by its stable id.
#[derive(Copy, Clone, Debug, PartialEq, Eq, Structural)]
pub struct Pod {
    pub id: Id,
}

/// Where a container's user-chosen flow size is persisted. Present only
/// once the user dragged the resize handle; absent means auto-fit.
pub fn container_flow_key(cid: Id) -> (k: Id)
    ensures
        k == id_with(cid, "mara_container_flow"@),
{
    cid.with("mara_container_flow")
}

/// Where a container's measured content size is kept each frame.
pub fn container_intrinsic_key(cid: Id) -> (k: Id)
    ensures
        k == id_with(cid, "mara_container_intrinsic"@),
{
    cid.with("mara_container_intrinsic")
}

/// Where a container's own auto-fit cap or default flow is kept.
pub fn container_initial_flow_key(cid: Id) -> (k: Id)
    ensures
        k == id_with(cid, "mara_container_initial_flow"@),
{
    cid.with("mara_container_initial_flow")
}

/// The store key that remembers the active tab by id, next to the one
/// that remembers it by index.
pub open spec fn spec_active_tab_id_key(active_idx_key: Id) -> Id {
    id_with(active_idx_key, "tab_id"@)
}

/// The store key that remembers the active tab by id.
pub fn active_tab_id_key(active_idx_key: Id) -> (k: Id)
    ensures
        k == spec_active_tab_id_key(active_idx_key),
{
    active_idx_key.with("tab_id")
}

/// First index of `id` in `ids`, if any.
pub open spec fn index_of(ids: Seq<Id>, id: Id) -> Option<int>
    decreases ids.len(),
{
    if ids.len() == 0 {
        None
    } else {
        match index_of(ids.drop_last(), id) {
            Some(i) => Some(i),
            None => if ids.last() == id {
                Some(ids.len() - 1)
            } else {
                None
            },
        }
    }
}

proof fn lemma_index_of(ids: Seq<Id>, id: Id)
    ensures
        index_of(ids, id) matches Some(i) ==> 0 <= i < ids.len() && ids[i] == id && forall|j: int|
            0 <= j < i ==> ids[j] != id,
        index_of(ids, id) is None ==> forall|j: int| 0 <= j < ids.len() ==> ids[j] != id,
    decreases ids.len(),
{
    if ids.len() > 0 {
        let t = ids.drop_last();
        lemma_index_of(t, id);
        assert forall|j: int| 0 <= j < t.len() implies t[j] == ids[j] by {}
    }
}

fn position_of(ids: &[Id], id: Id) -> (r: Option<usize>)
    ensures
        match r {
            Some(i) => index_of(ids@, id) == Some(i as int),
            None => index_of(ids@, id) is None,
        },
{
    proof {
        lemma_index_of(ids@, id);
    }
    let mut i: usize = 0;
    while i < ids.len()
        invariant
            i <= ids@.len(),
            forall|j: int| 0 <= j < i ==> ids@[j] != id,
            index_of(ids@, id) matches Some(k) ==> 0 <= k < ids@.len() && ids@[k] == id && forall|
                j: int,
            |
                0 <= j < k ==> ids@[j] != id,
            index_of(ids@, id) is None ==> forall|j: int| 0 <= j < ids@.len() ==> ids@[j] != id,
        decreases ids@.len() - i,
    {
        if ids[i] == id {
            proof {
                if let Some(k) = index_of(ids@, id) {
                    if k < i {
                    } else if k > i {
                    }
                }
            }
            return Some(i);
        }
        i = i + 1;
    }
    proof {
        if let Some(k) = index_of(ids@, id) {
            assert(ids@[k] != id);
        }
    }
    None
}

/// The tab id remembered under `key` in the persisted entries, if any.
pub open spec fn remembered_tab_id(persisted: Map<MemoryKey, MemoryValue>, key: Id) -> Option<Id> {
    match spec_lookup(persisted, spec_active_tab_id_key(key), MemoryKind::Key) {
        Some(MemoryValue::Key(id)) => Some(id),
        _ => None,
    }
}

/// The tab index remembered under `key`, 0 when none is.
pub open spec fn remembered_tab_index(persisted: Map<MemoryKey, MemoryValue>, key: Id) -> usize {
    match spec_lookup(persisted, key, MemoryKind::Index) {
        Some(MemoryValue::Index(i)) => i,
        _ => 0,
    }
}

/// The tab id remembered under `key` is still one of `tab_ids`.
pub open spec fn remembered_id_live(persisted: Map<MemoryKey, MemoryValue>, key: Id, tab_ids: Seq<Id>) -> bool {
    remembered_tab_id(persisted, key) matches Some(id) && index_of(tab_ids, id) is Some
}

/// The active tab: the remembered tab id wherever it now sits (tabs
/// may have been reordered or moved), else the remembered index
/// clamped into the tab list.
pub open spec fn active_tab(persisted: Map<MemoryKey, MemoryValue>, key: Id, tab_ids: Seq<Id>) -> int {
    match remembered_tab_id(persisted, key) {
        Some(id) => match index_of(tab_ids, id) {
            Some(i) => i,
            None => clamp_index(remembered_tab_index(persisted, key), tab_ids.len()),
        },
        None => clamp_index(remembered_tab_index(persisted, key), tab_ids.len()),
    }
}

/// `stored` clamped into a list of `len` tabs.
pub open spec fn clamp_index(stored: usize, len: nat) -> int {
    if stored < len {
        stored as int
    } else {
        len - 1
    }
}

/// Resolve which tab of a tabbed container is active and repair the
/// remembered state: the index under `active_idx_key` and the tab id
/// beside it both name the returned tab afterwards. The index entry is
/// rewritten only when the remembered id decided or the clamp changed
/// it, so an index that was never stored stays unstored.
pub fn resolve_active_tab_idx(memory: &mut MaraMemory, active_idx_key: Id, tab_ids: &[Id]) -> (r:
    usize)
    requires
        tab_ids@.len() > 0,
    ensures
        r == active_tab(old(memory).persisted(), active_idx_key, tab_ids@),
        r < tab_ids@.len(),
        remembered_tab_index(final(memory).persisted(), active_idx_key) == r,
        remembered_id_live(old(memory).persisted(), active_idx_key, tab_ids@) ==> spec_lookup(
            final(memory).persisted(),
            active_idx_key,
            MemoryKind::Index,
        ) == Some(MemoryValue::Index(r)),
        !remembered_id_live(old(memory).persisted(), active_idx_key, tab_ids@) ==> spec_lookup(
            final(memory).persisted(),
            active_idx_key,
            MemoryKind::Index,
        ) == (if r == remembered_tab_index(old(memory).persisted(), active_idx_key) {
            spec_lookup(old(memory).persisted(), active_idx_key, MemoryKind::Index)
        } else {
            Some(MemoryValue::Index(r))
        }),
        remembered_tab_id(final(memory).persisted(), active_idx_key) == Some(tab_ids@[r as int]),
        forall|k: MemoryKey|
            k != (active_idx_key, MemoryKind::Index) && k != (spec_active_tab_id_key(active_idx_key), MemoryKind::Key)
                ==> #[trigger] final(memory).persisted().dom().contains(k) == old(memory).persisted().dom().contains(k)
                && final(memory).persisted()[k] == old(memory).persisted()[k],
        final(memory).temp() == old(memory).temp(),
{
    proof {
        lemma_index_of(tab_ids@, tab_ids@[0]);
    }
    let id_key = active_tab_id_key(active_idx_key);
    if let Some(MemoryValue::Key(active_id)) = memory.get_persisted(id_key, MemoryKind::Key) {
        if let Some(idx) = position_of(tab_ids, active_id) {
            proof {
                lemma_index_of(tab_ids@, active_id);
            }
            memory.set_persisted(active_idx_key, MemoryValue::Index(idx));
            return idx;
        }
    }
    let stored = match memory.get_persisted(active_idx_key, MemoryKind::Index) {
        Some(MemoryValue::Index(i)) => i,
        _ => 0,
    };
    let last = tab_ids.len() - 1;
    let clamped = if stored < tab_ids.len() {
        stored
    } else {
        last
    };
    if clamped != stored {
        memory.set_persisted(active_idx_key, MemoryValue::Index(clamped));
    }
    memory.set_persisted(id_key, MemoryValue::Key(tab_ids[clamped]));
    clamped
}


/// Without a live remembered tab id, the active tab is the stored
/// index held inside the tab list: kept when it is in range, the last
/// tab when it is past the end (tabs were closed), never beyond it.
pub proof fn law_stale_index_clamps_to_last_tab(persisted: Map<MemoryKey, MemoryValue>, key: Id, tab_ids: Seq<Id>)
    requires
        tab_ids.len() > 0,
        !remembered_id_live(persisted, key, tab_ids),
    ensures
        ({
            let r = active_tab(persisted, key, tab_ids);
            let stored = remembered_tab_index(persisted, key);
            &&& 0 <= r < tab_ids.len()
            &&& r <= stored
            &&& stored < tab_ids.len() ==> r == stored
            &&& stored >= tab_ids.len() ==> r == tab_ids.len() - 1
        }),
{
}

/// A live remembered tab id decides: the active tab is that tab,
/// wherever it now sits.
pub proof fn law_live_tab_id_wins(persisted: Map<MemoryKey, MemoryValue>, key: Id, tab_ids: Seq<Id>)
    requires
        remembered_id_live(persisted, key, tab_ids),
    ensures
        0 <= active_tab(persisted, key, tab_ids) < tab_ids.len(),
        Some(tab_ids[active_tab(persisted, key, tab_ids)]) == remembered_tab_id(persisted, key),
{
    lemma_index_of(tab_ids, remembered_tab_id(persisted, key)->0);
}

} // verus!
