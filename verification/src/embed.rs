//! Shared "maximise this widget to full window" state.
//!
//! Each maximisable widget keeps a flag under its own key. While one is
//! maximised it stamps itself as the global fullscreen owner, as
//! `(pass, owner)`, every pass; a stamp older than the previous pass is
//! stale and ignored, so a widget that stops rendering releases the
//! screen by itself. Hosts can ask for the owner to be restored; the
//! owner honours the request the next time it renders.

use crate::memory::{spec_lookup, MaraMemory, MemoryKey, MemoryKind, MemoryValue};
use crate::ribbon::{RibbonAvoidance, RibbonCluster, RibbonEdge};
use crate::vocab::{id_of, id_with, id_with_u64, Id};
use vstd::prelude::*;

verus! {

/// Configuration for the fullscreen overlay's chrome: where the
/// minimize button sits (edge + cluster along it), and which ribbon
/// rails the body lays out away from.
#[derive(Copy, Clone, Debug, PartialEq, Eq, Structural)]
pub struct OverlayOpts {
    pub minimize_edge: RibbonEdge,
    pub minimize_cluster: RibbonCluster,
    pub content_avoidance: RibbonAvoidance,
}

impl Default for OverlayOpts {
    /// Minimize button in the upper-right corner, no rail avoided.
    fn default() -> (o: Self)
        ensures
            o.minimize_edge == RibbonEdge::Right,
            o.minimize_cluster == RibbonCluster::Start,
            o.content_avoidance == (RibbonAvoidance { top: false, bottom: false, left: false, right: false }),
    {
        OverlayOpts {
            minimize_edge: RibbonEdge::Right,
            minimize_cluster: RibbonCluster::Start,
            content_avoidance: RibbonAvoidance::none(),
        }
    }
}

impl OverlayOpts {
    /// The minimize button anchored to the given edge + cluster.
    pub fn minimize_at(edge: RibbonEdge, cluster: RibbonCluster) -> (o: Self)
        ensures
            o.minimize_edge == edge,
            o.minimize_cluster == cluster,
            o.content_avoidance == (RibbonAvoidance { top: false, bottom: false, left: false, right: false }),
    {
        OverlayOpts { minimize_edge: edge, minimize_cluster: cluster, content_avoidance: RibbonAvoidance::none() }
    }

    /// Keep the overlay full-window, but lay out the body away from
    /// the selected ribbon rails.
    pub fn avoid_ribbons(self, avoidance: RibbonAvoidance) -> (o: Self)
        ensures
            o.minimize_edge == self.minimize_edge,
            o.minimize_cluster == self.minimize_cluster,
            o.content_avoidance == avoidance,
    {
        OverlayOpts { content_avoidance: avoidance, ..self }
    }
}

/// The key a maximisable widget keeps its flag under.
pub open spec fn spec_maximize_state_key(id_salt: Seq<char>) -> Id {
    id_with(id_of("mara_maximize"@), id_salt)
}

/// The key the maximise flag for `id_salt` is kept under, so hosts can
/// rebuild it from the outside.
pub fn maximize_state_key(id_salt: &str) -> (k: Id)
    ensures
        k == spec_maximize_state_key(id_salt@),
{
    Id::pair("mara_maximize", id_salt)
}

/// The key the maximise flag for a widget salted with an id is kept
/// under.
pub fn maximize_state_key_for_id(id_salt: Id) -> (k: Id)
    ensures
        k == id_with_u64(id_of("mara_maximize"@), id_salt.value),
{
    Id::new("mara_maximize").with_id(id_salt)
}

fn pending_restore_fullscreen_key() -> (k: Id)
    ensures
        k == id_of("mara_pending_restore_fullscreen"@),
{
    Id::new("mara_pending_restore_fullscreen")
}

fn fullscreen_global_key() -> (k: Id)
    ensures
        k == id_of("mara_maximize_global"@),
{
    Id::new("mara_maximize_global")
}

fn suppress_fullscreen_minimize_chip_key() -> (k: Id)
    ensures
        k == id_of("mara_suppress_fullscreen_minimize_chip"@),
{
    Id::new("mara_suppress_fullscreen_minimize_chip")
}

/// A stamp made in pass `stamped` is current in pass `pass`.
pub open spec fn stamp_current(stamped: u64, pass: u64) -> bool {
    stamped == pass || stamped + 1 == pass
}

/// The widget that holds the fullscreen overlay in pass `pass`, if any.
pub open spec fn spec_fullscreen_owner(temp: Map<MemoryKey, MemoryValue>, pass: u64) -> Option<Id> {
    match spec_lookup(temp, id_of("mara_maximize_global"@), MemoryKind::PassOwner) {
        Some(MemoryValue::PassOwner(f, id)) => if stamp_current(f, pass) {
            Some(id)
        } else {
            None
        },
        _ => None,
    }
}

/// The widget currently in fullscreen, if any.
pub fn fullscreen_owner(memory: &MaraMemory, pass: u64) -> (r: Option<Id>)
    ensures
        r == spec_fullscreen_owner(memory.temp(), pass),
{
    match memory.get_temp(fullscreen_global_key(), MemoryKind::PassOwner) {
        Some(MemoryValue::PassOwner(f, id)) => {
            if f == pass || (f < u64::MAX && f + 1 == pass) {
                Some(id)
            } else {
                None
            }
        },
        _ => None,
    }
}

/// Whether any widget is in fullscreen.
pub fn is_any_fullscreen(memory: &MaraMemory, pass: u64) -> (r: bool)
    ensures
        r == spec_fullscreen_owner(memory.temp(), pass) is Some,
{
    fullscreen_owner(memory, pass).is_some()
}

/// Show or hide the fullscreen overlay's minimize chip.
pub fn set_fullscreen_minimize_chip_visible(memory: &mut MaraMemory, visible: bool)
    ensures
        final(memory).temp() == old(memory).temp().insert(
            (id_of("mara_suppress_fullscreen_minimize_chip"@), MemoryKind::Flag),
            MemoryValue::Flag(!visible),
        ),
        final(memory).persisted() == old(memory).persisted(),
{
    memory.set_temp(suppress_fullscreen_minimize_chip_key(), MemoryValue::Flag(!visible));
}

/// Whether the minimize chip is hidden (shown unless hidden).
pub fn minimize_chip_suppressed(memory: &MaraMemory) -> (r: bool)
    ensures
        r == (spec_lookup(memory.temp(), id_of("mara_suppress_fullscreen_minimize_chip"@), MemoryKind::Flag)
            == Some(MemoryValue::Flag(true))),
{
    match memory.get_temp(suppress_fullscreen_minimize_chip_key(), MemoryKind::Flag) {
        Some(MemoryValue::Flag(b)) => b,
        _ => false,
    }
}

/// Ask the fullscreen owner to restore. Returns `true` when an owner
/// was found; it leaves fullscreen the next time it renders.
pub fn restore_fullscreen(memory: &mut MaraMemory, pass: u64) -> (r: bool)
    ensures
        r == spec_fullscreen_owner(old(memory).temp(), pass) is Some,
        match spec_fullscreen_owner(old(memory).temp(), pass) {
            Some(owner) => final(memory).temp() == old(memory).temp().insert(
                (id_of("mara_pending_restore_fullscreen"@), MemoryKind::Key),
                MemoryValue::Key(owner),
            ),
            None => final(memory).temp() == old(memory).temp(),
        },
        final(memory).persisted() == old(memory).persisted(),
{
    match fullscreen_owner(memory, pass) {
        Some(owner) => {
            memory.set_temp(pending_restore_fullscreen_key(), MemoryValue::Key(owner));
            true
        },
        None => false,
    }
}

/// A maximisable widget's state for one pass.
#[derive(Copy, Clone, Debug, PartialEq, Eq, Structural)]
pub struct MaximizeFrame {
    /// Render the body full-window this pass.
    pub maximized: bool,
    /// Another widget holds the fullscreen overlay; hide this one's chip.
    pub some_other_maximized: bool,
}

/// The store a widget's flag is read from: a pending restore aimed at
/// the widget is honoured first (flag cleared, request and owner stamp
/// dropped).
pub open spec fn after_restore(temp: Map<MemoryKey, MemoryValue>, max_id: Id) -> Map<MemoryKey, MemoryValue> {
    if spec_lookup(temp, id_of("mara_pending_restore_fullscreen"@), MemoryKind::Key) == Some(
        MemoryValue::Key(max_id),
    ) {
        temp.insert((max_id, MemoryKind::Flag), MemoryValue::Flag(false)).remove(
            (id_of("mara_pending_restore_fullscreen"@), MemoryKind::Key),
        ).remove((id_of("mara_maximize_global"@), MemoryKind::PassOwner))
    } else {
        temp
    }
}

/// The widget's maximise flag (off unless set).
pub open spec fn maximize_flag(temp: Map<MemoryKey, MemoryValue>, max_id: Id) -> bool {
    spec_lookup(temp, max_id, MemoryKind::Flag) == Some(MemoryValue::Flag(true))
}

/// Start a maximisable widget's pass: honour a pending restore, read
/// the flag, see whether another widget holds the screen, and stamp
/// this one as owner when it is maximised.
pub fn begin_maximizable(memory: &mut MaraMemory, max_id: Id, pass: u64) -> (f: MaximizeFrame)
    ensures
        ({
            let t = after_restore(old(memory).temp(), max_id);
            &&& f.maximized == maximize_flag(t, max_id)
            &&& f.some_other_maximized == (spec_fullscreen_owner(t, pass) matches Some(o) && o != max_id)
            &&& final(memory).temp() == (if f.maximized {
                t.insert((id_of("mara_maximize_global"@), MemoryKind::PassOwner), MemoryValue::PassOwner(pass, max_id))
            } else {
                t
            })
        }),
        final(memory).persisted() == old(memory).persisted(),
{
    let pending = match memory.get_temp(pending_restore_fullscreen_key(), MemoryKind::Key) {
        Some(MemoryValue::Key(id)) => id == max_id,
        _ => false,
    };
    if pending {
        memory.set_temp(max_id, MemoryValue::Flag(false));
        memory.remove_temp(pending_restore_fullscreen_key(), MemoryKind::Key);
        memory.remove_temp(fullscreen_global_key(), MemoryKind::PassOwner);
    }
    let maximized = match memory.get_temp(max_id, MemoryKind::Flag) {
        Some(MemoryValue::Flag(b)) => b,
        _ => false,
    };
    let some_other_maximized = match fullscreen_owner(memory, pass) {
        Some(owner) => owner != max_id,
        None => false,
    };
    if maximized {
        memory.set_temp(fullscreen_global_key(), MemoryValue::PassOwner(pass, max_id));
    }
    MaximizeFrame { maximized, some_other_maximized }
}

/// End a maximisable widget's pass: a click on its chip flips the flag.
pub fn finish_maximizable(memory: &mut MaraMemory, max_id: Id, maximized: bool, toggle: bool)
    ensures
        toggle ==> final(memory).temp() == old(memory).temp().insert(
            (max_id, MemoryKind::Flag),
            MemoryValue::Flag(!maximized),
        ),
        !toggle ==> final(memory).temp() == old(memory).temp(),
        final(memory).persisted() == old(memory).persisted(),
{
    if toggle {
        memory.set_temp(max_id, MemoryValue::Flag(!maximized));
    }
}

/// The region the view node being rendered paints into, if a scoped
/// node is rendering. The fullscreen overlay paints there instead of
/// the whole window and per-view ribbons anchor there, so a leaf's
/// chrome stays inside its cell. `None` means whole-window.
pub struct NodeRegionSlot<R> {
    current: Option<R>,
}

impl<R: Copy> NodeRegionSlot<R> {
    /// The region seen while rendering: `None` outside any node.
    pub closed spec fn region(&self) -> Option<R> {
        self.current
    }

    /// No node is rendering.
    pub fn new() -> (s: Self)
        ensures
            s.region() is None,
    {
        NodeRegionSlot { current: None }
    }

    /// The region of the node being rendered, if any.
    pub fn current_node_region(&self) -> (r: Option<R>)
        ensures
            r == self.region(),
    {
        self.current
    }

    /// Publish `region` while `body` runs, then put back what was there
    /// before, so nested nodes see their own region and the parent's
    /// comes back on the way out.
    pub fn with_node_region<O, F: FnOnce(&mut Self) -> O>(&mut self, region: R, body: F) -> (out: O)
        requires
            forall|slot: &mut Self| slot.region() == Some(region) ==> #[trigger] body.requires((slot,)),
        ensures
            final(self).region() == old(self).region(),
            exists|slot: &mut Self| slot.region() == Some(region) && #[trigger] body.ensures((slot,), out),
    {
        let prev = self.current;
        self.current = Some(region);
        let out = body(self);
        self.current = prev;
        out
    }
}

/// A fullscreen owner stamp holds for the pass it was made and the
/// next one, and is ignored after that.
pub proof fn law_owner_stamp_hysteresis(temp: Map<MemoryKey, MemoryValue>, owner: Id, stamped: u64, pass: u64)
    ensures
        spec_fullscreen_owner(
            temp.insert((id_of("mara_maximize_global"@), MemoryKind::PassOwner), MemoryValue::PassOwner(stamped, owner)),
            pass,
        ) == (if pass == stamped || pass == stamped + 1 {
            Some(owner)
        } else {
            None
        }),
{
}

/// A restore request aimed at a maximised widget takes effect the next
/// time it renders: it comes up restored and no longer holds the
/// screen.
pub proof fn law_restore_request_honoured(temp: Map<MemoryKey, MemoryValue>, max_id: Id, pass: u64)
    requires
        spec_lookup(temp, id_of("mara_pending_restore_fullscreen"@), MemoryKind::Key) == Some(
            MemoryValue::Key(max_id),
        ),
    ensures
        !maximize_flag(after_restore(temp, max_id), max_id),
        spec_fullscreen_owner(after_restore(temp, max_id), pass) is None,
        spec_lookup(after_restore(temp, max_id), id_of("mara_pending_restore_fullscreen"@), MemoryKind::Key)
            is None,
{
}

/// A widget that renders maximised is the fullscreen owner for the rest
/// of the pass.
pub proof fn law_maximized_widget_owns_screen(temp: Map<MemoryKey, MemoryValue>, max_id: Id, pass: u64)
    ensures
        spec_fullscreen_owner(
            temp.insert((id_of("mara_maximize_global"@), MemoryKind::PassOwner), MemoryValue::PassOwner(pass, max_id)),
            pass,
        ) == Some(max_id),
{
}


/// A restore request aimed at another widget is not this widget's to
/// honour: the store it reads is left exactly as it was, so the request
/// stays pending and the owner stamp stays in place.
pub proof fn law_restore_for_another_widget_is_left_alone(temp: Map<MemoryKey, MemoryValue>, max_id: Id)
    requires
        spec_lookup(temp, id_of("mara_pending_restore_fullscreen"@), MemoryKind::Key) != Some(
            MemoryValue::Key(max_id),
        ),
    ensures
        after_restore(temp, max_id) == temp,
        spec_lookup(after_restore(temp, max_id), id_of("mara_pending_restore_fullscreen"@), MemoryKind::Key)
            == spec_lookup(temp, id_of("mara_pending_restore_fullscreen"@), MemoryKind::Key),
        spec_fullscreen_owner(after_restore(temp, max_id), 0) == spec_fullscreen_owner(temp, 0),
{
}

} // verus!
