//! Ribbon vocabulary and slot resolution.
//!
//! A ribbon is a rail of slots along a screen edge. Each slot has a
//! stable id, an optional default item and an override policy. Views
//! and workspaces contribute override layers; resolving a slot against
//! the layers (ordered shallowest to deepest) yields what it shows:
//!
//! ```text
//! deepest workspace > active view > permanent default
//! ```
//!
//! A fixed slot always shows its default. An overridable slot shows
//! the deepest override that names it — an item, or nothing when the
//! override hides the slot — and its default when no layer names it.

use crate::vocab::{fnv_step, id_of, lemma_fnv_push, Id, FNV_OFFSET};
use vstd::prelude::*;

verus! {

/// Stable id of one slot, shared by the permanent default and every
/// override that targets it.
#[derive(Clone, Copy, Debug, PartialEq, Eq, Structural)]
pub struct RibbonSlotId {
    pub id: Id,
}

impl RibbonSlotId {
    pub fn new(name: &str) -> (s: RibbonSlotId)
        ensures
            s.id == id_of(name@),
    {
        RibbonSlotId { id: Id::new(name) }
    }
}

/// Stable id of a top-level view.
#[derive(Clone, Copy, Debug, PartialEq, Eq, Structural)]
pub struct ViewId {
    pub id: Id,
}

impl ViewId {
    pub fn new(name: &str) -> (v: ViewId)
        ensures
            v.id == id_of(name@),
    {
        ViewId { id: Id::new(name) }
    }
}

/// Which layer of the shell a ribbon belongs to.
#[derive(Clone, Copy, Debug, PartialEq, Eq, Structural)]
pub enum RibbonScope {
    /// The app's persistent chrome.
    Permanent,
    /// Shown while the given view is active.
    View(ViewId),
    /// Shown while the given workspace level is the active one.
    WorkspaceLevel(Id),
}

/// Screen edge a ribbon hugs.
#[derive(Clone, Copy, Debug, PartialEq, Eq, Structural)]
pub enum RibbonEdge {
    Top,
    Bottom,
    Left,
    Right,
}

impl RibbonEdge {
    /// Left and right rails run vertically.
    pub fn is_vertical(self) -> (r: bool)
        ensures
            r == (self == RibbonEdge::Left || self == RibbonEdge::Right),
    {
        match self {
            RibbonEdge::Left | RibbonEdge::Right => true,
            RibbonEdge::Top | RibbonEdge::Bottom => false,
        }
    }
}

/// Where along its edge a ribbon (or chip) sits.
#[derive(Clone, Copy, Debug, PartialEq, Eq, Structural)]
pub enum RibbonCluster {
    Start,
    Middle,
    End,
}

/// How a ribbon presents its items.
#[derive(Clone, Copy, Debug, PartialEq, Eq, Structural)]
pub enum RibbonRole {
    /// Icon buttons.
    Icon,
    /// Labelled buttons.
    Text,
}

/// How a ribbon's chrome is drawn against its edge.
#[derive(Clone, Copy, Debug, PartialEq, Eq, Structural)]
pub enum RibbonMode {
    /// Rounded on the three sides away from the edge.
    ThreeSided,
    /// Square, flush with the edge.
    Flush,
}

/// What clicking a ribbon item asks for.
#[derive(Clone, Copy, Debug, PartialEq, Eq, Structural)]
pub enum RibbonAction {
    /// Does nothing.
    Noop,
    /// An app command, forwarded to the app.
    Command(Id),
    /// Toggle the host window's maximised state.
    ToggleMaximize,
    /// Close the app.
    CloseApp,
    /// Leave the active workspace level for its parent.
    PopWorkspace,
    /// Open the app menu.
    OpenAppMenu,
}

/// One clickable ribbon entry.
#[derive(Clone, Copy, Debug)]
pub struct RibbonSlotItem {
    pub id: Id,
    pub icon: &'static str,
    pub label: &'static str,
    pub tooltip: &'static str,
    pub action: RibbonAction,
}

impl RibbonSlotItem {
    pub fn new(
        id: Id,
        icon: &'static str,
        label: &'static str,
        tooltip: &'static str,
        action: RibbonAction,
    ) -> (item: RibbonSlotItem)
        ensures
            item == (RibbonSlotItem { id, icon, label, tooltip, action }),
    {
        RibbonSlotItem { id, icon, label, tooltip, action }
    }
}

/// Whether views and workspaces may replace or hide a slot.
#[derive(Clone, Copy, Debug, PartialEq, Eq, Structural)]
pub enum RibbonOverridePolicy {
    /// The slot always shows its default.
    Fixed,
    /// Override layers may replace or hide the slot.
    Overridable,
}

/// One slot of a ribbon: its id, default item and override policy.
#[derive(Clone, Copy, Debug)]
pub struct RibbonSlot {
    pub id: RibbonSlotId,
    pub default_item: Option<RibbonSlotItem>,
    pub policy: RibbonOverridePolicy,
}

impl RibbonSlot {
    pub fn new(id: RibbonSlotId, default_item: Option<RibbonSlotItem>, policy: RibbonOverridePolicy) -> (s:
        RibbonSlot)
        ensures
            s == (RibbonSlot { id, default_item, policy }),
    {
        RibbonSlot { id, default_item, policy }
    }
}

/// A ribbon declaration: where it sits, which scope it belongs to and
/// its slots in order.
pub struct RibbonSlotDef {
    pub id: Id,
    pub chrome_id: Option<&'static str>,
    pub scope: RibbonScope,
    pub edge: RibbonEdge,
    pub role: RibbonRole,
    pub mode: RibbonMode,
    pub cluster: RibbonCluster,
    /// Icon kinds the ribbon accepts as drops; empty for a fixed ribbon.
    pub accepts: &'static [&'static str],
    pub slots: Vec<RibbonSlot>,
}

impl RibbonSlotDef {
    /// A ribbon with icon buttons, three-sided chrome, no drop targets.
    pub fn new(
        id: Id,
        scope: RibbonScope,
        edge: RibbonEdge,
        cluster: RibbonCluster,
        slots: Vec<RibbonSlot>,
    ) -> (d: RibbonSlotDef)
        ensures
            d.id == id,
            d.chrome_id is None,
            d.scope == scope,
            d.edge == edge,
            d.role == RibbonRole::Icon,
            d.mode == RibbonMode::ThreeSided,
            d.cluster == cluster,
            d.accepts@.len() == 0,
            d.slots@ == slots@,
    {
        RibbonSlotDef {
            id,
            chrome_id: None,
            scope,
            edge,
            role: RibbonRole::Icon,
            mode: RibbonMode::ThreeSided,
            cluster,
            accepts: &[],
            slots,
        }
    }

    /// Every field but the slots.
    pub open spec fn same_header(self, other: RibbonSlotDef) -> bool {
        &&& self.id == other.id
        &&& self.chrome_id == other.chrome_id
        &&& self.scope == other.scope
        &&& self.edge == other.edge
        &&& self.role == other.role
        &&& self.mode == other.mode
        &&& self.cluster == other.cluster
        &&& self.accepts == other.accepts
    }

    /// A copy of this declaration.
    pub fn duplicate(&self) -> (d: RibbonSlotDef)
        ensures
            d.same_header(*self),
            d.slots@ == self.slots@,
    {
        RibbonSlotDef {
            id: self.id,
            chrome_id: self.chrome_id,
            scope: self.scope,
            edge: self.edge,
            role: self.role,
            mode: self.mode,
            cluster: self.cluster,
            accepts: self.accepts,
            slots: copy_slots(&self.slots),
        }
    }
}

fn copy_slots(slots: &Vec<RibbonSlot>) -> (r: Vec<RibbonSlot>)
    ensures
        r@ == slots@,
{
    let mut out: Vec<RibbonSlot> = Vec::new();
    let mut i: usize = 0;
    while i < slots.len()
        invariant
            i <= slots@.len(),
            out@ == slots@.take(i as int),
        decreases slots@.len() - i,
    {
        out.push(slots[i]);
        i = i + 1;
        assert(out@ =~= slots@.take(i as int));
    }
    assert(slots@.take(slots@.len() as int) =~= slots@);
    out
}

/// One override: replace the slot's item, or hide it (`item: None`).
#[derive(Clone, Copy, Debug)]
pub struct RibbonSlotOverride {
    pub slot: RibbonSlotId,
    pub item: Option<RibbonSlotItem>,
}

/// The overrides one view or workspace contributes.
pub struct RibbonOverrideLayer {
    pub overrides: Vec<RibbonSlotOverride>,
}

impl RibbonOverrideLayer {
    pub fn new(overrides: Vec<RibbonSlotOverride>) -> (l: RibbonOverrideLayer)
        ensures
            l.overrides@ == overrides@,
    {
        RibbonOverrideLayer { overrides }
    }

    /// A layer that overrides nothing.
    pub fn empty() -> (l: RibbonOverrideLayer)
        ensures
            l.overrides@ == Seq::<RibbonSlotOverride>::empty(),
    {
        RibbonOverrideLayer { overrides: Vec::new() }
    }

    /// A copy of this layer.
    pub fn duplicate(&self) -> (l: RibbonOverrideLayer)
        ensures
            l.overrides@ == self.overrides@,
    {
        let mut out: Vec<RibbonSlotOverride> = Vec::new();
        let mut i: usize = 0;
        while i < self.overrides.len()
            invariant
                i <= self.overrides@.len(),
                out@ == self.overrides@.take(i as int),
            decreases self.overrides@.len() - i,
        {
            out.push(self.overrides[i]);
            i = i + 1;
            assert(out@ =~= self.overrides@.take(i as int));
        }
        assert(self.overrides@.take(self.overrides@.len() as int) =~= self.overrides@);
        RibbonOverrideLayer { overrides: out }
    }
}

/// The last override for `slot` within one layer, if any.
pub open spec fn layer_override(overrides: Seq<RibbonSlotOverride>, slot: RibbonSlotId) -> Option<
    RibbonSlotOverride,
>
    decreases overrides.len(),
{
    if overrides.len() == 0 {
        None
    } else if overrides.last().slot == slot {
        Some(overrides.last())
    } else {
        layer_override(overrides.drop_last(), slot)
    }
}

/// The deepest override for `slot` across `layers` (shallowest first).
pub open spec fn deepest_override(layers: Seq<Seq<RibbonSlotOverride>>, slot: RibbonSlotId) -> Option<
    RibbonSlotOverride,
>
    decreases layers.len(),
{
    if layers.len() == 0 {
        None
    } else {
        match layer_override(layers.last(), slot) {
            Some(o) => Some(o),
            None => deepest_override(layers.drop_last(), slot),
        }
    }
}

/// The override contents of each layer.
pub open spec fn layer_contents(layers: Seq<RibbonOverrideLayer>) -> Seq<Seq<RibbonSlotOverride>> {
    layers.map_values(|l: RibbonOverrideLayer| l.overrides@)
}

/// An optional item as a list of zero or one items.
pub open spec fn item_list(item: Option<RibbonSlotItem>) -> Seq<RibbonSlotItem> {
    match item {
        Some(i) => seq![i],
        None => Seq::empty(),
    }
}

/// What a slot shows under `layers`.
pub open spec fn slot_items(slot: RibbonSlot, layers: Seq<Seq<RibbonSlotOverride>>) -> Seq<
    RibbonSlotItem,
> {
    match slot.policy {
        RibbonOverridePolicy::Fixed => item_list(slot.default_item),
        RibbonOverridePolicy::Overridable => match deepest_override(layers, slot.id) {
            Some(o) => item_list(o.item),
            None => item_list(slot.default_item),
        },
    }
}

/// What a ribbon's slots show under `layers`, slot after slot.
pub open spec fn ribbon_items(slots: Seq<RibbonSlot>, layers: Seq<Seq<RibbonSlotOverride>>) -> Seq<
    RibbonSlotItem,
>
    decreases slots.len(),
{
    if slots.len() == 0 {
        Seq::empty()
    } else {
        ribbon_items(slots.drop_last(), layers) + slot_items(slots.last(), layers)
    }
}

fn find_in_layer(overrides: &Vec<RibbonSlotOverride>, slot: RibbonSlotId) -> (r: Option<
    RibbonSlotOverride,
>)
    ensures
        r == layer_override(overrides@, slot),
{
    let mut i = overrides.len();
    assert(overrides@.take(i as int) =~= overrides@);
    while i > 0
        invariant
            i <= overrides@.len(),
            layer_override(overrides@, slot) == layer_override(overrides@.take(i as int), slot),
        decreases i,
    {
        let o = overrides[i - 1];
        proof {
            assert(overrides@.take(i as int).drop_last() =~= overrides@.take(i - 1));
        }
        if o.slot == slot {
            return Some(o);
        }
        i = i - 1;
    }
    None
}

fn find_deepest(layers: &[RibbonOverrideLayer], slot: RibbonSlotId) -> (r: Option<RibbonSlotOverride>)
    ensures
        r == deepest_override(layer_contents(layers@), slot),
{
    let ghost all = layer_contents(layers@);
    let mut i = layers.len();
    assert(all.take(i as int) =~= all);
    while i > 0
        invariant
            i <= layers@.len(),
            all == layer_contents(layers@),
            deepest_override(all, slot) == deepest_override(all.take(i as int), slot),
        decreases i,
    {
        proof {
            assert(all.take(i as int).drop_last() =~= all.take(i - 1));
            assert(all.take(i as int).last() == layers@[i - 1].overrides@);
        }
        match find_in_layer(&layers[i - 1].overrides, slot) {
            Some(o) => {
                return Some(o);
            },
            None => {},
        }
        i = i - 1;
    }
    None
}

fn list_of(item: Option<RibbonSlotItem>) -> (r: Vec<RibbonSlotItem>)
    ensures
        r@ == item_list(item),
{
    let mut v: Vec<RibbonSlotItem> = Vec::new();
    if let Some(i) = item {
        v.push(i);
    }
    assert(v@ =~= item_list(item));
    v
}

/// Resolve what one slot shows under the override `layers`, ordered
/// shallowest to deepest.
pub fn resolve_slot_items(slot: &RibbonSlot, layers: &[RibbonOverrideLayer]) -> (r: Vec<RibbonSlotItem>)
    ensures
        r@ == slot_items(*slot, layer_contents(layers@)),
{
    match slot.policy {
        RibbonOverridePolicy::Fixed => list_of(slot.default_item),
        RibbonOverridePolicy::Overridable => match find_deepest(layers, slot.id) {
            Some(o) => list_of(o.item),
            None => list_of(slot.default_item),
        },
    }
}

/// Resolve a whole ribbon: the items of its slots, slot after slot.
pub fn resolve_ribbon_items(slots: &Vec<RibbonSlot>, layers: &[RibbonOverrideLayer]) -> (r: Vec<
    RibbonSlotItem,
>)
    ensures
        r@ == ribbon_items(slots@, layer_contents(layers@)),
{
    let ghost lc = layer_contents(layers@);
    let mut out: Vec<RibbonSlotItem> = Vec::new();
    let mut i: usize = 0;
    while i < slots.len()
        invariant
            i <= slots@.len(),
            lc == layer_contents(layers@),
            out@ == ribbon_items(slots@.take(i as int), lc),
        decreases slots@.len() - i,
    {
        let mut items = resolve_slot_items(&slots[i], layers);
        proof {
            assert(slots@.take(i + 1).drop_last() =~= slots@.take(i as int));
        }
        let ghost before = out@;
        out.append(&mut items);
        i = i + 1;
    }
    assert(slots@.take(slots@.len() as int) =~= slots@);
    out
}

/// The slot the app-menu button lives in.
pub fn app_menu_slot_id() -> (s: RibbonSlotId)
    ensures
        s.id == id_of("system.app_menu"@),
{
    RibbonSlotId::new("system.app_menu")
}

/// The slot the window close / workspace restore control lives in.
pub fn system_close_or_restore_slot_id() -> (s: RibbonSlotId)
    ensures
        s.id == id_of("system.close_or_restore"@),
{
    RibbonSlotId::new("system.close_or_restore")
}

/// The main bar's app-menu slot: overridable, opens the app menu.
pub open spec fn spec_app_menu_slot() -> RibbonSlot {
    RibbonSlot {
        id: RibbonSlotId { id: id_of("system.app_menu"@) },
        default_item: Some(
            RibbonSlotItem {
                id: id_of("system.app_menu.item"@),
                icon: "navigation",
                label: "Menu",
                tooltip: "App menu",
                action: RibbonAction::OpenAppMenu,
            },
        ),
        policy: RibbonOverridePolicy::Overridable,
    }
}

/// The main bar's window-control slot: overridable, closes the app.
pub open spec fn spec_system_control_slot() -> RibbonSlot {
    RibbonSlot {
        id: RibbonSlotId { id: id_of("system.close_or_restore"@) },
        default_item: Some(
            RibbonSlotItem {
                id: id_of("system.close_app"@),
                icon: "dismiss",
                label: "Close",
                tooltip: "Close the app",
                action: RibbonAction::CloseApp,
            },
        ),
        policy: RibbonOverridePolicy::Overridable,
    }
}

/// The built-in override an active workspace level contributes: the
/// close slot becomes "back to the parent level".
pub open spec fn spec_restore_workspace_override() -> RibbonSlotOverride {
    RibbonSlotOverride {
        slot: RibbonSlotId { id: id_of("system.close_or_restore"@) },
        item: Some(
            RibbonSlotItem {
                id: id_of("system.restore_workspace"@),
                icon: "arrow-left",
                label: "Back",
                tooltip: "Back to the parent workspace",
                action: RibbonAction::PopWorkspace,
            },
        ),
    }
}

/// The main bar's app-menu slot.
pub fn permanent_app_menu_slot() -> (s: RibbonSlot)
    ensures
        s == spec_app_menu_slot(),
{
    RibbonSlot::new(
        app_menu_slot_id(),
        Some(
            RibbonSlotItem::new(
                Id::new("system.app_menu.item"),
                "navigation",
                "Menu",
                "App menu",
                RibbonAction::OpenAppMenu,
            ),
        ),
        RibbonOverridePolicy::Overridable,
    )
}

/// The main bar's window-control slot.
pub fn permanent_system_control_slot() -> (s: RibbonSlot)
    ensures
        s == spec_system_control_slot(),
{
    RibbonSlot::new(
        system_close_or_restore_slot_id(),
        Some(
            RibbonSlotItem::new(
                Id::new("system.close_app"),
                "dismiss",
                "Close",
                "Close the app",
                RibbonAction::CloseApp,
            ),
        ),
        RibbonOverridePolicy::Overridable,
    )
}

/// The override an active workspace level contributes to the close slot.
pub fn restore_workspace_slot_override() -> (o: RibbonSlotOverride)
    ensures
        o == spec_restore_workspace_override(),
{
    RibbonSlotOverride {
        slot: system_close_or_restore_slot_id(),
        item: Some(
            RibbonSlotItem::new(
                Id::new("system.restore_workspace"),
                "arrow-left",
                "Back",
                "Back to the parent workspace",
                RibbonAction::PopWorkspace,
            ),
        ),
    }
}


/// A ribbon ready to paint: its declaration's header and the items
/// its slots resolved to.
pub struct ResolvedSlotRibbon {
    pub id: Id,
    pub chrome_id: Option<&'static str>,
    pub scope: RibbonScope,
    pub edge: RibbonEdge,
    pub role: RibbonRole,
    pub mode: RibbonMode,
    pub cluster: RibbonCluster,
    pub accepts: &'static [&'static str],
    pub items: Vec<RibbonSlotItem>,
}

/// A copy of `items`.
pub fn copy_items(items: &Vec<RibbonSlotItem>) -> (r: Vec<RibbonSlotItem>)
    ensures
        r@ == items@,
{
    let mut out: Vec<RibbonSlotItem> = Vec::new();
    let mut i: usize = 0;
    while i < items.len()
        invariant
            i <= items@.len(),
            out@ == items@.take(i as int),
        decreases items@.len() - i,
    {
        out.push(items[i]);
        i = i + 1;
        assert(out@ =~= items@.take(i as int));
    }
    assert(items@.take(items@.len() as int) =~= items@);
    out
}


/// Which ribbon rails a surface lays its content out away from.
#[derive(Clone, Copy, Debug, PartialEq, Eq, Structural)]
pub struct RibbonAvoidance {
    pub top: bool,
    pub bottom: bool,
    pub left: bool,
    pub right: bool,
}

impl RibbonAvoidance {
    /// Avoid no rail.
    pub fn none() -> (a: RibbonAvoidance)
        ensures
            a == (RibbonAvoidance { top: false, bottom: false, left: false, right: false }),
    {
        RibbonAvoidance { top: false, bottom: false, left: false, right: false }
    }
}

/// The hash of the app-menu slot's name.
proof fn lemma_app_menu_slot_hash()
    ensures
        id_of("system.app_menu"@).value == 0x8a359620a4e27259u64,
{
    reveal_strlit("system.app_menu");
    let s0 = Seq::<char>::empty();
    let s1 = s0.push('s');
    let s2 = s1.push('y');
    let s3 = s2.push('s');
    let s4 = s3.push('t');
    let s5 = s4.push('e');
    let s6 = s5.push('m');
    let s7 = s6.push('.');
    let s8 = s7.push('a');
    let s9 = s8.push('p');
    let s10 = s9.push('p');
    let s11 = s10.push('_');
    let s12 = s11.push('m');
    let s13 = s12.push('e');
    let s14 = s13.push('n');
    let s15 = s14.push('u');
    assert("system.app_menu"@ =~= s15);
    lemma_fnv_push(FNV_OFFSET, s0, 's');
    lemma_fnv_push(FNV_OFFSET, s1, 'y');
    lemma_fnv_push(FNV_OFFSET, s2, 's');
    lemma_fnv_push(FNV_OFFSET, s3, 't');
    lemma_fnv_push(FNV_OFFSET, s4, 'e');
    lemma_fnv_push(FNV_OFFSET, s5, 'm');
    lemma_fnv_push(FNV_OFFSET, s6, '.');
    lemma_fnv_push(FNV_OFFSET, s7, 'a');
    lemma_fnv_push(FNV_OFFSET, s8, 'p');
    lemma_fnv_push(FNV_OFFSET, s9, 'p');
    lemma_fnv_push(FNV_OFFSET, s10, '_');
    lemma_fnv_push(FNV_OFFSET, s11, 'm');
    lemma_fnv_push(FNV_OFFSET, s12, 'e');
    lemma_fnv_push(FNV_OFFSET, s13, 'n');
    lemma_fnv_push(FNV_OFFSET, s14, 'u');
    assert(fnv_step(fnv_step(fnv_step(fnv_step(fnv_step(fnv_step(fnv_step(fnv_step(fnv_step(fnv_step(fnv_step(fnv_step(fnv_step(fnv_step(fnv_step(0xcbf29ce484222325u64, 0x73u64), 0x79u64), 0x73u64), 0x74u64), 0x65u64), 0x6du64), 0x2eu64), 0x61u64), 0x70u64), 0x70u64), 0x5fu64), 0x6du64), 0x65u64), 0x6eu64), 0x75u64) == 0x8a359620a4e27259u64) by (bit_vector);
}

/// The hash of the window-control slot's name.
proof fn lemma_system_control_slot_hash()
    ensures
        id_of("system.close_or_restore"@).value == 0xb5eebb0accd7e8f3u64,
{
    reveal_strlit("system.close_or_restore");
    let s0 = Seq::<char>::empty();
    let s1 = s0.push('s');
    let s2 = s1.push('y');
    let s3 = s2.push('s');
    let s4 = s3.push('t');
    let s5 = s4.push('e');
    let s6 = s5.push('m');
    let s7 = s6.push('.');
    let s8 = s7.push('c');
    let s9 = s8.push('l');
    let s10 = s9.push('o');
    let s11 = s10.push('s');
    let s12 = s11.push('e');
    let s13 = s12.push('_');
    let s14 = s13.push('o');
    let s15 = s14.push('r');
    let s16 = s15.push('_');
    let s17 = s16.push('r');
    let s18 = s17.push('e');
    let s19 = s18.push('s');
    let s20 = s19.push('t');
    let s21 = s20.push('o');
    let s22 = s21.push('r');
    let s23 = s22.push('e');
    assert("system.close_or_restore"@ =~= s23);
    lemma_fnv_push(FNV_OFFSET, s0, 's');
    lemma_fnv_push(FNV_OFFSET, s1, 'y');
    lemma_fnv_push(FNV_OFFSET, s2, 's');
    lemma_fnv_push(FNV_OFFSET, s3, 't');
    lemma_fnv_push(FNV_OFFSET, s4, 'e');
    lemma_fnv_push(FNV_OFFSET, s5, 'm');
    lemma_fnv_push(FNV_OFFSET, s6, '.');
    lemma_fnv_push(FNV_OFFSET, s7, 'c');
    lemma_fnv_push(FNV_OFFSET, s8, 'l');
    lemma_fnv_push(FNV_OFFSET, s9, 'o');
    lemma_fnv_push(FNV_OFFSET, s10, 's');
    lemma_fnv_push(FNV_OFFSET, s11, 'e');
    lemma_fnv_push(FNV_OFFSET, s12, '_');
    lemma_fnv_push(FNV_OFFSET, s13, 'o');
    lemma_fnv_push(FNV_OFFSET, s14, 'r');
    lemma_fnv_push(FNV_OFFSET, s15, '_');
    lemma_fnv_push(FNV_OFFSET, s16, 'r');
    lemma_fnv_push(FNV_OFFSET, s17, 'e');
    lemma_fnv_push(FNV_OFFSET, s18, 's');
    lemma_fnv_push(FNV_OFFSET, s19, 't');
    lemma_fnv_push(FNV_OFFSET, s20, 'o');
    lemma_fnv_push(FNV_OFFSET, s21, 'r');
    lemma_fnv_push(FNV_OFFSET, s22, 'e');
    assert(fnv_step(fnv_step(fnv_step(fnv_step(fnv_step(fnv_step(fnv_step(fnv_step(fnv_step(fnv_step(fnv_step(fnv_step(fnv_step(fnv_step(fnv_step(fnv_step(fnv_step(fnv_step(fnv_step(fnv_step(fnv_step(fnv_step(fnv_step(0xcbf29ce484222325u64, 0x73u64), 0x79u64), 0x73u64), 0x74u64), 0x65u64), 0x6du64), 0x2eu64), 0x63u64), 0x6cu64), 0x6fu64), 0x73u64), 0x65u64), 0x5fu64), 0x6fu64), 0x72u64), 0x5fu64), 0x72u64), 0x65u64), 0x73u64), 0x74u64), 0x6fu64), 0x72u64), 0x65u64) == 0xb5eebb0accd7e8f3u64) by (bit_vector);
}

/// The two built-in slots of the main bar have different ids.
pub proof fn lemma_builtin_slot_ids_differ()
    ensures
        spec_app_menu_slot().id != spec_system_control_slot().id,
{
    lemma_app_menu_slot_hash();
    lemma_system_control_slot_hash();
}

} // verus!
