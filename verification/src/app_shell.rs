//! Host-agnostic app shell.
//!
//! The app shell coordinates the permanent main bar, the active
//! top-level view, and the active view's workspace stack. It resolves
//! slot contents and dispatches actions; hosts decide how to paint the
//! resolved items.
//!
//! Mara has exactly one persistent top main bar. Active views and
//! workspaces may override or explicitly hide individual slots, but
//! they do not rebuild the main bar.

use crate::ribbon::{
    lemma_builtin_slot_ids_differ,
    app_menu_slot_id, item_list, layer_override, slot_items, RibbonOverridePolicy, copy_items, layer_contents, permanent_app_menu_slot,
    permanent_system_control_slot, resolve_ribbon_items, restore_workspace_slot_override,
    ribbon_items, spec_app_menu_slot, spec_restore_workspace_override, spec_system_control_slot,
    system_close_or_restore_slot_id, RibbonAction, RibbonCluster, RibbonEdge, RibbonMode,
    RibbonOverrideLayer, RibbonRole, RibbonScope, RibbonSlot, RibbonSlotDef, RibbonSlotId,
    RibbonSlotItem, RibbonSlotOverride, ResolvedSlotRibbon, ViewId,
};
use crate::view::{
    dispatch_ribbon_action, ribbon_dispatch_effect, ribbon_dispatch_result, RibbonActionError, RibbonActionResult, ViewEntry, ViewRouter,
    ViewRouterError,
};
use crate::vocab::{id_of, Id};
use vstd::prelude::*;

verus! {

/// `std::slice::from_ref`: by its documentation, the one-element slice
/// holding the referenced value.
pub assume_specification<T>[ core::slice::from_ref::<T> ](s: &T) -> (r: &[T])
    ensures
        r@ == seq![*s],
;

/// One resolved ribbon: the declaration's header and its items.
pub struct ResolvedRibbon {
    pub id: Id,
    pub chrome_id: Option<&'static str>,
    pub scope: RibbonScope,
    pub edge: RibbonEdge,
    pub role: RibbonRole,
    pub mode: RibbonMode,
    pub cluster: RibbonCluster,
    pub accepts: &'static [&'static str],
    pub items: Vec<RibbonSlotItem>,
}

/// Every ribbon the shell shows this frame, in resolution order.
pub struct AppShellResolution {
    pub ribbons: Vec<ResolvedRibbon>,
}

/// Whether the app shell owns native-window controls.
#[derive(Clone, Copy, Debug, PartialEq, Eq, Structural)]
pub enum WindowControlsPolicy {
    Enabled,
    Hidden,
}

/// Whether the app shell owns the persistent app menu button.
#[derive(Clone, Copy, Debug, PartialEq, Eq, Structural)]
pub enum AppMenuPolicy {
    Enabled,
    Hidden,
}

/// API-level app chrome contract: the one persistent main bar and the
/// two built-in slot policies.
pub struct AppShellChrome {
    main_bar: RibbonSlotDef,
    app_menu: AppMenuPolicy,
    window_controls: WindowControlsPolicy,
}

/// Why the shell could not resolve or dispatch.
#[derive(Clone, Copy, Debug, PartialEq, Eq, Structural)]
pub enum AppShellError {
    View(ViewRouterError),
    Action(RibbonActionError),
    MissingPermanentRibbon,
    MultiplePermanentRibbons { count: usize },
    PermanentRibbonNotTop { id: Id, edge: RibbonEdge },
    PermanentRibbonMustBeFixed { id: Id },
    ViewRibbonWrongScope { id: Id },
    WorkspaceRibbonWrongScope { id: Id },
}

/// A main bar the chrome accepts: permanent, on the top edge, fixed.
pub open spec fn valid_main_bar(bar: RibbonSlotDef) -> bool {
    bar.scope == RibbonScope::Permanent && bar.edge == RibbonEdge::Top && bar.accepts@.len() == 0
}

/// Some slot of `slots` has id `slot_id`.
pub open spec fn spec_has_slot(slots: Seq<RibbonSlot>, slot_id: RibbonSlotId) -> bool {
    exists|i: int| 0 <= i < slots.len() && slots[i].id == slot_id
}

/// The main bar's slots with the built-in slots the policies inject:
/// the app menu first (unless the bar already has that slot), the
/// window control last (likewise).
pub open spec fn chrome_slots(slots: Seq<RibbonSlot>, app_menu: bool, window_controls: bool) -> Seq<
    RibbonSlot,
> {
    let with_menu = if app_menu && !spec_has_slot(slots, spec_app_menu_slot().id) {
        seq![spec_app_menu_slot()] + slots
    } else {
        slots
    };
    if window_controls && !spec_has_slot(with_menu, spec_system_control_slot().id) {
        with_menu.push(spec_system_control_slot())
    } else {
        with_menu
    }
}

impl AppShellChrome {
    /// The main bar is always one the chrome accepts.
    #[verifier::type_invariant]
    spec fn well_formed(self) -> bool {
        valid_main_bar(self.main_bar)
    }

    pub closed spec fn spec_main_bar(self) -> RibbonSlotDef {
        self.main_bar
    }

    pub closed spec fn spec_app_menu(self) -> AppMenuPolicy {
        self.app_menu
    }

    pub closed spec fn spec_window_controls(self) -> WindowControlsPolicy {
        self.window_controls
    }

    /// The chrome around `main_bar`, with app menu and window controls
    /// enabled. The bar must be permanent, on the top edge, and fixed.
    pub fn new(main_bar: RibbonSlotDef) -> (c: Self)
        requires
            valid_main_bar(main_bar),
        ensures
            c.spec_main_bar() == main_bar,
            c.spec_app_menu() == AppMenuPolicy::Enabled,
            c.spec_window_controls() == WindowControlsPolicy::Enabled,
    {
        AppShellChrome {
            main_bar,
            app_menu: AppMenuPolicy::Enabled,
            window_controls: WindowControlsPolicy::Enabled,
        }
    }

    pub fn main_bar(&self) -> (b: &RibbonSlotDef)
        ensures
            *b == self.spec_main_bar(),
    {
        &self.main_bar
    }

    /// The permanent ribbons as declared: the main bar alone.
    pub fn permanent_ribbons(&self) -> (r: &[RibbonSlotDef])
        ensures
            r@ == seq![self.spec_main_bar()],
    {
        std::slice::from_ref(&self.main_bar)
    }

    pub fn window_controls_policy(&self) -> (p: WindowControlsPolicy)
        ensures
            p == self.spec_window_controls(),
    {
        self.window_controls
    }

    pub fn app_menu_policy(&self) -> (p: AppMenuPolicy)
        ensures
            p == self.spec_app_menu(),
    {
        self.app_menu
    }

    pub fn with_app_menu(self, policy: AppMenuPolicy) -> (c: Self)
        ensures
            c.spec_main_bar() == self.spec_main_bar(),
            c.spec_app_menu() == policy,
            c.spec_window_controls() == self.spec_window_controls(),
    {
        proof {
            use_type_invariant(&self);
        }
        AppShellChrome { main_bar: self.main_bar, app_menu: policy, window_controls: self.window_controls }
    }

    pub fn without_app_menu(self) -> (c: Self)
        ensures
            c.spec_main_bar() == self.spec_main_bar(),
            c.spec_app_menu() == AppMenuPolicy::Hidden,
            c.spec_window_controls() == self.spec_window_controls(),
    {
        self.with_app_menu(AppMenuPolicy::Hidden)
    }

    pub fn app_menu_enabled(&self) -> (r: bool)
        ensures
            r == (self.spec_app_menu() == AppMenuPolicy::Enabled),
    {
        self.app_menu == AppMenuPolicy::Enabled
    }

    pub fn with_window_controls(self, policy: WindowControlsPolicy) -> (c: Self)
        ensures
            c.spec_main_bar() == self.spec_main_bar(),
            c.spec_app_menu() == self.spec_app_menu(),
            c.spec_window_controls() == policy,
    {
        proof {
            use_type_invariant(&self);
        }
        AppShellChrome { main_bar: self.main_bar, app_menu: self.app_menu, window_controls: policy }
    }

    pub fn without_window_controls(self) -> (c: Self)
        ensures
            c.spec_main_bar() == self.spec_main_bar(),
            c.spec_app_menu() == self.spec_app_menu(),
            c.spec_window_controls() == WindowControlsPolicy::Hidden,
    {
        self.with_window_controls(WindowControlsPolicy::Hidden)
    }

    pub fn window_controls_enabled(&self) -> (r: bool)
        ensures
            r == (self.spec_window_controls() == WindowControlsPolicy::Enabled),
    {
        self.window_controls == WindowControlsPolicy::Enabled
    }

    /// The permanent ribbons to resolve: the main bar with the
    /// built-in app-menu and window-control slots injected as the
    /// policies ask.
    pub fn permanent_ribbon_defs(&self) -> (r: Vec<RibbonSlotDef>)
        ensures
            r@.len() == 1,
            r@[0].same_header(self.spec_main_bar()),
            r@[0].slots@ == chrome_slots(
                self.spec_main_bar().slots@,
                self.spec_app_menu() == AppMenuPolicy::Enabled,
                self.spec_window_controls() == WindowControlsPolicy::Enabled,
            ),
    {
        let mut main = self.main_bar.duplicate();
        if self.app_menu_enabled() && !has_slot(&main.slots, app_menu_slot_id()) {
            main.slots.insert(0, permanent_app_menu_slot());
            assert(main.slots@ =~= seq![spec_app_menu_slot()] + self.main_bar.slots@);
        }
        if self.window_controls_enabled() {
            let slot_id = system_close_or_restore_slot_id();
            if !has_slot(&main.slots, slot_id) {
                main.slots.push(permanent_system_control_slot());
            }
        }
        let mut out = Vec::new();
        out.push(main);
        out
    }
}

/// Whether some slot has id `slot_id`.
pub fn has_slot(slots: &[RibbonSlot], slot_id: RibbonSlotId) -> (r: bool)
    ensures
        r == spec_has_slot(slots@, slot_id),
{
    let mut i: usize = 0;
    while i < slots.len()
        invariant
            i <= slots@.len(),
            forall|j: int| 0 <= j < i ==> slots@[j].id != slot_id,
        decreases slots@.len() - i,
    {
        if slots[i].id == slot_id {
            return true;
        }
        i = i + 1;
    }
    false
}

/// `res` is the resolution of `def` under `layers`.
pub open spec fn resolved_from(res: ResolvedRibbon, def: RibbonSlotDef, layers: Seq<Seq<RibbonSlotOverride>>) -> bool {
    &&& res.id == def.id
    &&& res.chrome_id == def.chrome_id
    &&& res.scope == def.scope
    &&& res.edge == def.edge
    &&& res.role == def.role
    &&& res.mode == def.mode
    &&& res.cluster == def.cluster
    &&& res.accepts == def.accepts
    &&& res.items@ == ribbon_items(def.slots@, layers)
}

/// `res` is the paintable form of `r`.
pub open spec fn slot_ribbon_from(res: ResolvedSlotRibbon, r: ResolvedRibbon) -> bool {
    &&& res.id == r.id
    &&& res.chrome_id == r.chrome_id
    &&& res.scope == r.scope
    &&& res.edge == r.edge
    &&& res.role == r.role
    &&& res.mode == r.mode
    &&& res.cluster == r.cluster
    &&& res.accepts == r.accepts
    &&& res.items@ == r.items@
}

impl AppShellResolution {
    /// The resolved ribbons in the form the ribbon painter takes.
    pub fn as_slot_ribbons(&self) -> (r: Vec<ResolvedSlotRibbon>)
        ensures
            r@.len() == self.ribbons@.len(),
            forall|i: int| 0 <= i < r@.len() ==> slot_ribbon_from(#[trigger] r@[i], self.ribbons@[i]),
    {
        let mut out: Vec<ResolvedSlotRibbon> = Vec::new();
        let mut i: usize = 0;
        while i < self.ribbons.len()
            invariant
                i <= self.ribbons@.len(),
                out@.len() == i,
                forall|j: int| 0 <= j < i ==> slot_ribbon_from(#[trigger] out@[j], self.ribbons@[j]),
            decreases self.ribbons@.len() - i,
        {
            let r = &self.ribbons[i];
            out.push(
                ResolvedSlotRibbon {
                    id: r.id,
                    chrome_id: r.chrome_id,
                    scope: r.scope,
                    edge: r.edge,
                    role: r.role,
                    mode: r.mode,
                    cluster: r.cluster,
                    accepts: r.accepts,
                    items: copy_items(&r.items),
                },
            );
            i = i + 1;
        }
        out
    }
}

/// Positions of the permanent-scoped ribbons, in order.
pub open spec fn permanent_positions(ribbons: Seq<RibbonSlotDef>) -> Seq<int>
    decreases ribbons.len(),
{
    if ribbons.len() == 0 {
        Seq::empty()
    } else {
        let rest = permanent_positions(ribbons.drop_last());
        if ribbons.last().scope == RibbonScope::Permanent {
            rest.push(ribbons.len() - 1)
        } else {
            rest
        }
    }
}

/// What is wrong with the permanent ribbons, if anything: there must be
/// exactly one permanent-scoped ribbon, on the top edge, fixed.
pub open spec fn permanent_error(ribbons: Seq<RibbonSlotDef>) -> Option<AppShellError> {
    let pos = permanent_positions(ribbons);
    if pos.len() == 0 {
        Some(AppShellError::MissingPermanentRibbon)
    } else if pos.len() > 1 {
        Some(AppShellError::MultiplePermanentRibbons { count: pos.len() as usize })
    } else {
        let r = ribbons[pos[0]];
        if r.edge != RibbonEdge::Top {
            Some(AppShellError::PermanentRibbonNotTop { id: r.id, edge: r.edge })
        } else if r.accepts@.len() != 0 {
            Some(AppShellError::PermanentRibbonMustBeFixed { id: r.id })
        } else {
            None
        }
    }
}

proof fn lemma_permanent_positions(ribbons: Seq<RibbonSlotDef>)
    ensures
        forall|k: int|
            0 <= k < permanent_positions(ribbons).len() ==> 0 <= #[trigger] permanent_positions(
                ribbons,
            )[k] < ribbons.len() && ribbons[permanent_positions(ribbons)[k]].scope
                == RibbonScope::Permanent,
        permanent_positions(ribbons).len() <= ribbons.len(),
    decreases ribbons.len(),
{
    if ribbons.len() > 0 {
        let t = ribbons.drop_last();
        lemma_permanent_positions(t);
        let p = permanent_positions(ribbons);
        let pt = permanent_positions(t);
        assert forall|k: int| 0 <= k < p.len() implies 0 <= #[trigger] p[k] < ribbons.len()
            && ribbons[p[k]].scope == RibbonScope::Permanent by {
            if k < pt.len() {
                assert(p[k] == pt[k]);
                assert(ribbons[pt[k]] == t[pt[k]]);
            }
        }
    }
}

/// Check the permanent ribbons: exactly one permanent-scoped ribbon,
/// on the top edge, accepting no drops.
pub fn validate_single_permanent_ribbon(ribbons: &[RibbonSlotDef]) -> (r: Result<(), AppShellError>)
    ensures
        match permanent_error(ribbons@) {
            Some(e) => r == Err::<(), AppShellError>(e),
            None => r is Ok,
        },
{
    let mut positions: Vec<usize> = Vec::new();
    let mut i: usize = 0;
    while i < ribbons.len()
        invariant
            i <= ribbons@.len(),
            positions@.len() == permanent_positions(ribbons@.take(i as int)).len(),
            forall|k: int|
                0 <= k < positions@.len() ==> positions@[k] as int == #[trigger] permanent_positions(
                    ribbons@.take(i as int),
                )[k],
            positions@.len() <= i,
        decreases ribbons@.len() - i,
    {
        proof {
            assert(ribbons@.take(i + 1).drop_last() =~= ribbons@.take(i as int));
            lemma_permanent_positions(ribbons@.take(i as int));
        }
        if ribbons[i].scope == RibbonScope::Permanent {
            positions.push(i);
        }
        i = i + 1;
    }
    proof {
        assert(ribbons@.take(ribbons@.len() as int) =~= ribbons@);
        lemma_permanent_positions(ribbons@);
    }
    let count = positions.len();
    if count == 0 {
        return Err(AppShellError::MissingPermanentRibbon);
    }
    if count > 1 {
        return Err(AppShellError::MultiplePermanentRibbons { count });
    }
    let ribbon = &ribbons[positions[0]];
    if ribbon.edge != RibbonEdge::Top {
        return Err(AppShellError::PermanentRibbonNotTop { id: ribbon.id, edge: ribbon.edge });
    }
    if ribbon.accepts.len() != 0 {
        return Err(AppShellError::PermanentRibbonMustBeFixed { id: ribbon.id });
    }
    Ok(())
}

/// The first ribbon not scoped to `scope`, if any.
pub open spec fn first_out_of_scope(ribbons: Seq<RibbonSlotDef>, scope: RibbonScope) -> Option<int>
    decreases ribbons.len(),
{
    if ribbons.len() == 0 {
        None
    } else {
        match first_out_of_scope(ribbons.drop_last(), scope) {
            Some(i) => Some(i),
            None => if ribbons.last().scope != scope {
                Some(ribbons.len() - 1)
            } else {
                None
            },
        }
    }
}

proof fn lemma_first_out_of_scope(ribbons: Seq<RibbonSlotDef>, scope: RibbonScope)
    ensures
        first_out_of_scope(ribbons, scope) matches Some(i) ==> 0 <= i < ribbons.len()
            && ribbons[i].scope != scope && forall|j: int| 0 <= j < i ==> ribbons[j].scope == scope,
        first_out_of_scope(ribbons, scope) is None ==> forall|j: int|
            0 <= j < ribbons.len() ==> ribbons[j].scope == scope,
    decreases ribbons.len(),
{
    if ribbons.len() > 0 {
        let t = ribbons.drop_last();
        lemma_first_out_of_scope(t, scope);
        assert forall|j: int| 0 <= j < t.len() implies t[j] == ribbons[j] by {}
    }
}

fn find_out_of_scope(ribbons: &[RibbonSlotDef], scope: RibbonScope) -> (r: Option<usize>)
    ensures
        match r {
            Some(i) => i < ribbons@.len() && first_out_of_scope(ribbons@, scope) == Some(i as int),
            None => first_out_of_scope(ribbons@, scope) is None,
        },
{
    proof {
        lemma_first_out_of_scope(ribbons@, scope);
    }
    let mut i: usize = 0;
    while i < ribbons.len()
        invariant
            i <= ribbons@.len(),
            forall|j: int| 0 <= j < i ==> ribbons@[j].scope == scope,
            first_out_of_scope(ribbons@, scope) matches Some(k) ==> 0 <= k < ribbons@.len()
                && ribbons@[k].scope != scope && forall|j: int| 0 <= j < k ==> ribbons@[j].scope == scope,
            first_out_of_scope(ribbons@, scope) is None ==> forall|j: int|
                0 <= j < ribbons@.len() ==> ribbons@[j].scope == scope,
        decreases ribbons@.len() - i,
    {
        if ribbons[i].scope != scope {
            proof {
                if let Some(k) = first_out_of_scope(ribbons@, scope) {
                    if k < i {
                    } else if k > i {
                    }
                }
            }
            return Some(i);
        }
        i = i + 1;
    }
    proof {
        if let Some(k) = first_out_of_scope(ribbons@, scope) {
            assert(ribbons@[k].scope == scope);
        }
    }
    None
}

/// The error for view ribbons not scoped to the active view, if any.
pub open spec fn view_scope_error(active_view: ViewId, ribbons: Seq<RibbonSlotDef>) -> Option<AppShellError> {
    match first_out_of_scope(ribbons, RibbonScope::View(active_view)) {
        Some(i) => Some(AppShellError::ViewRibbonWrongScope { id: ribbons[i].id }),
        None => None,
    }
}

/// The error for workspace ribbons not scoped to the active workspace
/// level, if any.
pub open spec fn workspace_scope_error(active_workspace: Id, ribbons: Seq<RibbonSlotDef>) -> Option<
    AppShellError,
> {
    match first_out_of_scope(ribbons, RibbonScope::WorkspaceLevel(active_workspace)) {
        Some(i) => Some(AppShellError::WorkspaceRibbonWrongScope { id: ribbons[i].id }),
        None => None,
    }
}

/// Every view ribbon must be scoped to the active view.
pub fn validate_view_ribbons(active_view: ViewId, ribbons: &[RibbonSlotDef]) -> (r: Result<
    (),
    AppShellError,
>)
    ensures
        match view_scope_error(active_view, ribbons@) {
            Some(e) => r == Err::<(), AppShellError>(e),
            None => r is Ok,
        },
{
    match find_out_of_scope(ribbons, RibbonScope::View(active_view)) {
        Some(i) => Err(AppShellError::ViewRibbonWrongScope { id: ribbons[i].id }),
        None => Ok(()),
    }
}

/// Every workspace ribbon must be scoped to the active workspace level.
pub fn validate_workspace_ribbons(active_workspace: Id, ribbons: &[RibbonSlotDef]) -> (r: Result<
    (),
    AppShellError,
>)
    ensures
        match workspace_scope_error(active_workspace, ribbons@) {
            Some(e) => r == Err::<(), AppShellError>(e),
            None => r is Ok,
        },
{
    match find_out_of_scope(ribbons, RibbonScope::WorkspaceLevel(active_workspace)) {
        Some(i) => Err(AppShellError::WorkspaceRibbonWrongScope { id: ribbons[i].id }),
        None => Ok(()),
    }
}

/// The innermost workspace level's id of a view entry.
pub open spec fn entry_workspace_id(e: ViewEntry) -> Id {
    e.workspace.levels().last().id
}

/// What resolution refuses, checked in order: the permanent ribbons,
/// an active view, the view's ribbons, the workspace ribbons.
pub open spec fn shell_error(
    permanent: Seq<RibbonSlotDef>,
    active: Option<ViewEntry>,
    workspace_ribbons: Seq<RibbonSlotDef>,
) -> Option<AppShellError> {
    match permanent_error(permanent) {
        Some(e) => Some(e),
        None => match active {
            None => Some(AppShellError::View(ViewRouterError::NoActiveView)),
            Some(entry) => match view_scope_error(entry.id, entry.ribbons@) {
                Some(e) => Some(e),
                None => workspace_scope_error(entry_workspace_id(entry), workspace_ribbons),
            },
        },
    }
}

/// The override layers slots resolve against, shallowest first: the
/// active view's layer, the built-in restore override when a workspace
/// level is entered, then the workspace's own layers.
pub open spec fn shell_layers(
    view_overrides: Seq<RibbonSlotOverride>,
    depth: int,
    workspace_layers: Seq<Seq<RibbonSlotOverride>>,
) -> Seq<Seq<RibbonSlotOverride>> {
    let base = if depth > 0 {
        seq![view_overrides, seq![spec_restore_workspace_override()]]
    } else {
        seq![view_overrides]
    };
    base + workspace_layers
}

/// A ribbon takes part when its scope is permanent, the active view,
/// or the active workspace level.
pub open spec fn in_scope(def: RibbonSlotDef, view: ViewId, workspace: Id) -> bool {
    match def.scope {
        RibbonScope::Permanent => true,
        RibbonScope::View(id) => id == view,
        RibbonScope::WorkspaceLevel(id) => id == workspace,
    }
}

/// The ribbons that take part, in order.
pub open spec fn scoped(defs: Seq<RibbonSlotDef>, view: ViewId, workspace: Id) -> Seq<RibbonSlotDef>
    decreases defs.len(),
{
    if defs.len() == 0 {
        Seq::empty()
    } else {
        let rest = scoped(defs.drop_last(), view, workspace);
        if in_scope(defs.last(), view, workspace) {
            rest.push(defs.last())
        } else {
            rest
        }
    }
}

/// `out` resolves exactly the in-scope ribbons of `defs`, in order.
pub open spec fn resolves(
    out: Seq<ResolvedRibbon>,
    defs: Seq<RibbonSlotDef>,
    view: ViewId,
    workspace: Id,
    layers: Seq<Seq<RibbonSlotOverride>>,
) -> bool {
    let kept = scoped(defs, view, workspace);
    &&& out.len() == kept.len()
    &&& forall|i: int| 0 <= i < out.len() ==> resolved_from(#[trigger] out[i], kept[i], layers)
}

fn append_resolved(
    out: &mut Vec<ResolvedRibbon>,
    defs: &[RibbonSlotDef],
    view: ViewId,
    workspace: Id,
    layers: &[RibbonOverrideLayer],
    Ghost(before): Ghost<Seq<RibbonSlotDef>>,
)
    requires
        resolves(old(out)@, before, view, workspace, layer_contents(layers@)),
    ensures
        resolves(final(out)@, before + defs@, view, workspace, layer_contents(layers@)),
{
    let ghost lc = layer_contents(layers@);
    let mut i: usize = 0;
    while i < defs.len()
        invariant
            i <= defs@.len(),
            lc == layer_contents(layers@),
            resolves(out@, before + defs@.take(i as int), view, workspace, lc),
        decreases defs@.len() - i,
    {
        let def = &defs[i];
        proof {
            assert((before + defs@.take(i + 1)).drop_last() =~= before + defs@.take(i as int));
            assert((before + defs@.take(i + 1)).last() == defs@[i as int]);
        }
        let keep = match def.scope {
            RibbonScope::Permanent => true,
            RibbonScope::View(id) => id == view,
            RibbonScope::WorkspaceLevel(id) => id == workspace,
        };
        if keep {
            let items = resolve_ribbon_items(&def.slots, layers);
            let ghost prev = out@;
            out.push(
                ResolvedRibbon {
                    id: def.id,
                    chrome_id: def.chrome_id,
                    scope: def.scope,
                    edge: def.edge,
                    role: def.role,
                    mode: def.mode,
                    cluster: def.cluster,
                    accepts: def.accepts,
                    items,
                },
            );
            proof {
                let kept = scoped(before + defs@.take(i + 1), view, workspace);
                assert forall|k: int| 0 <= k < out@.len() implies resolved_from(
                    #[trigger] out@[k],
                    kept[k],
                    lc,
                ) by {
                    if k < prev.len() {
                        assert(out@[k] == prev[k]);
                    }
                }
            }
        }
        i = i + 1;
    }
    assert(defs@.take(defs@.len() as int) =~= defs@);
}

/// Resolve permanent + view-local + workspace-local ribbons into
/// concrete slot items.
///
/// The declarations are taken as declared: what a single ribbon
/// declaration must hold on its own (the checks the ribbon vocabulary
/// makes where declarations are built) is not this crate's to decide,
/// so only the shell-level checks below refuse a resolution.
///
/// Workspace ribbons take part only when scoped to the active
/// workspace level. `workspace_layers` are ordered shallowest to
/// deepest and apply after the active view's layer; when the active
/// workspace is entered (L1+), the built-in restore override sits
/// between the two, so a module can still replace even that slot.
pub fn resolve_app_shell_ribbons_with_workspace_chrome(
    router: &ViewRouter,
    permanent_ribbons: &[RibbonSlotDef],
    workspace_ribbons: &[RibbonSlotDef],
    workspace_layers: &[RibbonOverrideLayer],
) -> (r: Result<AppShellResolution, AppShellError>)
    ensures
        match shell_error(permanent_ribbons@, router.active_entry_spec(), workspace_ribbons@) {
            Some(e) => r matches Err(got) && got == e,
            None => r matches Ok(res) && {
                let entry = router.active_entry_spec()->0;
                resolves(
                    res.ribbons@,
                    permanent_ribbons@ + entry.ribbons@ + workspace_ribbons@,
                    entry.id,
                    entry_workspace_id(entry),
                    shell_layers(
                        entry.ribbon_overrides.overrides@,
                        entry.workspace.spec_depth(),
                        layer_contents(workspace_layers@),
                    ),
                )
            },
        },
{
    validate_single_permanent_ribbon(permanent_ribbons)?;
    let entry = match router.active_entry() {
        Ok(e) => e,
        Err(e) => {
            return Err(AppShellError::View(e));
        },
    };
    let active_view_id = entry.id;
    let active_depth = entry.workspace.depth();
    validate_view_ribbons(active_view_id, entry.ribbons.as_slice())?;
    let active_workspace_id = entry.workspace.current().id;
    validate_workspace_ribbons(active_workspace_id, workspace_ribbons)?;

    let mut layers: Vec<RibbonOverrideLayer> = Vec::new();
    layers.push(entry.ribbon_overrides.duplicate());
    if active_depth > 0 {
        let mut restore = Vec::new();
        restore.push(restore_workspace_slot_override());
        layers.push(RibbonOverrideLayer::new(restore));
    }
    let mut k: usize = 0;
    while k < workspace_layers.len()
        invariant
            k <= workspace_layers@.len(),
            layer_contents(layers@) == (if active_depth > 0 {
                seq![
                    entry.ribbon_overrides.overrides@,
                    seq![spec_restore_workspace_override()],
                ]
            } else {
                seq![entry.ribbon_overrides.overrides@]
            }) + layer_contents(workspace_layers@.take(k as int)),
        decreases workspace_layers@.len() - k,
    {
        let ghost prev = layers@;
        let dup = workspace_layers[k].duplicate();
        layers.push(dup);
        proof {
            assert(layer_contents(layers@) =~= layer_contents(prev).push(workspace_layers@[k as int].overrides@));
            assert(layer_contents(workspace_layers@.take(k + 1)) =~= layer_contents(workspace_layers@.take(k as int)).push(workspace_layers@[k as int].overrides@));
        }
        k = k + 1;
        proof {
            assert(layer_contents(layers@) =~= (if active_depth > 0 {
                seq![
                    entry.ribbon_overrides.overrides@,
                    seq![spec_restore_workspace_override()],
                ]
            } else {
                seq![entry.ribbon_overrides.overrides@]
            }) + layer_contents(workspace_layers@.take(k as int)));
        }
    }
    proof {
        assert(workspace_layers@.take(workspace_layers@.len() as int) =~= workspace_layers@);
        assert(layer_contents(layers@) =~= shell_layers(
            entry.ribbon_overrides.overrides@,
            entry.workspace.spec_depth(),
            layer_contents(workspace_layers@),
        ));
    }

    let mut ribbons: Vec<ResolvedRibbon> = Vec::new();
    proof {
        assert(scoped(Seq::<RibbonSlotDef>::empty(), active_view_id, active_workspace_id) =~= Seq::<RibbonSlotDef>::empty());
    }
    append_resolved(
        &mut ribbons,
        permanent_ribbons,
        active_view_id,
        active_workspace_id,
        layers.as_slice(),
        Ghost(Seq::empty()),
    );
    assert(Seq::<RibbonSlotDef>::empty() + permanent_ribbons@ =~= permanent_ribbons@);
    append_resolved(
        &mut ribbons,
        entry.ribbons.as_slice(),
        active_view_id,
        active_workspace_id,
        layers.as_slice(),
        Ghost(permanent_ribbons@),
    );
    append_resolved(
        &mut ribbons,
        workspace_ribbons,
        active_view_id,
        active_workspace_id,
        layers.as_slice(),
        Ghost(permanent_ribbons@ + entry.ribbons@),
    );
    Ok(AppShellResolution { ribbons })
}


/// `r` is the outcome of resolving `permanent` + the active view's
/// ribbons + `workspace_ribbons` under the shell's layers: the first
/// refusal, or exactly the in-scope ribbons resolved in that order.
pub open spec fn resolution_outcome(
    r: Result<AppShellResolution, AppShellError>,
    active: Option<ViewEntry>,
    permanent: Seq<RibbonSlotDef>,
    workspace_ribbons: Seq<RibbonSlotDef>,
    workspace_layers: Seq<Seq<RibbonSlotOverride>>,
) -> bool {
    match shell_error(permanent, active, workspace_ribbons) {
        Some(e) => r matches Err(got) && got == e,
        None => r matches Ok(res) && {
            let entry = active->0;
            resolves(
                res.ribbons@,
                permanent + entry.ribbons@ + workspace_ribbons,
                entry.id,
                entry_workspace_id(entry),
                shell_layers(
                    entry.ribbon_overrides.overrides@,
                    entry.workspace.spec_depth(),
                    workspace_layers,
                ),
            )
        },
    }
}

/// The permanent ribbons the chrome resolves: its main bar with the
/// built-in slots injected.
pub open spec fn chrome_defs(chrome: AppShellChrome, defs: Seq<RibbonSlotDef>) -> bool {
    &&& defs.len() == 1
    &&& defs[0].same_header(chrome.spec_main_bar())
    &&& defs[0].slots@ == chrome_slots(
        chrome.spec_main_bar().slots@,
        chrome.spec_app_menu() == AppMenuPolicy::Enabled,
        chrome.spec_window_controls() == WindowControlsPolicy::Enabled,
    )
}

/// Resolve the mandatory top permanent ribbon + the active view's
/// ribbons into concrete slot items.
///
/// Override priority: deepest workspace > active view > permanent
/// default. While the active view's workspace stack is at L1+, the
/// close slot is overridden to pop the workspace.
pub fn resolve_app_shell_ribbons(router: &ViewRouter, permanent_ribbons: &[RibbonSlotDef]) -> (r:
    Result<AppShellResolution, AppShellError>)
    ensures
        resolution_outcome(
            r,
            router.active_entry_spec(),
            permanent_ribbons@,
            Seq::empty(),
            Seq::empty(),
        ),
{
    validate_single_permanent_ribbon(permanent_ribbons)?;
    let no_ribbons: Vec<RibbonSlotDef> = Vec::new();
    let no_layers: Vec<RibbonOverrideLayer> = Vec::new();
    let r = resolve_app_shell_ribbons_with_workspace_chrome(
        router,
        permanent_ribbons,
        no_ribbons.as_slice(),
        no_layers.as_slice(),
    );
    assert(layer_contents(no_layers@) =~= Seq::<Seq<RibbonSlotOverride>>::empty());
    r
}

/// Resolve the API-enforced shell chrome: a single persistent main bar
/// is always present and first in resolution order.
pub fn resolve_app_shell_chrome(router: &ViewRouter, chrome: &AppShellChrome) -> (r: Result<
    AppShellResolution,
    AppShellError,
>)
    ensures
        exists|defs: Seq<RibbonSlotDef>|
            chrome_defs(*chrome, defs) && resolution_outcome(
                r,
                router.active_entry_spec(),
                defs,
                Seq::empty(),
                Seq::empty(),
            ),
        r matches Err(e) ==> !is_permanent_error(e),
        r matches Ok(res) ==> main_bar_first(res, chrome.spec_main_bar()),
{
    let no_ribbons: Vec<RibbonSlotDef> = Vec::new();
    let no_layers: Vec<RibbonOverrideLayer> = Vec::new();
    let r = resolve_app_shell_chrome_with_workspace(
        router,
        chrome,
        no_ribbons.as_slice(),
        no_layers.as_slice(),
    );
    assert(layer_contents(no_layers@) =~= Seq::<Seq<RibbonSlotOverride>>::empty());
    r
}

/// Resolve the API-enforced shell chrome with the active workspace's
/// own ribbons and override layers.
pub fn resolve_app_shell_chrome_with_workspace(
    router: &ViewRouter,
    chrome: &AppShellChrome,
    workspace_ribbons: &[RibbonSlotDef],
    workspace_layers: &[RibbonOverrideLayer],
) -> (r: Result<AppShellResolution, AppShellError>)
    ensures
        exists|defs: Seq<RibbonSlotDef>|
            chrome_defs(*chrome, defs) && resolution_outcome(
                r,
                router.active_entry_spec(),
                defs,
                workspace_ribbons@,
                layer_contents(workspace_layers@),
            ),
        r matches Err(e) ==> !is_permanent_error(e),
        r matches Ok(res) ==> main_bar_first(res, chrome.spec_main_bar()),
{
    let permanent_ribbons = chrome.permanent_ribbon_defs();
    let r = resolve_app_shell_ribbons_with_workspace_chrome(
        router,
        permanent_ribbons.as_slice(),
        workspace_ribbons,
        workspace_layers,
    );
    assert(chrome_defs(*chrome, permanent_ribbons@));
    proof {
        use_type_invariant(chrome);
        lemma_chrome_defs_pass_validation(*chrome, permanent_ribbons@);
        if r is Ok {
            let res = r->Ok_0;
            let entry = router.active_entry_spec()->0;
            let rest = entry.ribbons@ + workspace_ribbons@;
            assert(permanent_ribbons@ + entry.ribbons@ + workspace_ribbons@ =~= permanent_ribbons@ + rest);
            law_main_bar_resolves_first(
                *chrome,
                permanent_ribbons@,
                rest,
                entry.id,
                entry_workspace_id(entry),
                shell_layers(
                    entry.ribbon_overrides.overrides@,
                    entry.workspace.spec_depth(),
                    layer_contents(workspace_layers@),
                ),
                res.ribbons@,
            );
        }
    }
    r
}

/// The refusals that concern the permanent ribbons.
pub open spec fn is_permanent_error(e: AppShellError) -> bool {
    ||| e is MissingPermanentRibbon
    ||| e is MultiplePermanentRibbons
    ||| e is PermanentRibbonNotTop
    ||| e is PermanentRibbonMustBeFixed
}

/// The resolution starts with `bar`: permanent, on the top edge.
pub open spec fn main_bar_first(res: AppShellResolution, bar: RibbonSlotDef) -> bool {
    &&& res.ribbons@.len() >= 1
    &&& res.ribbons@[0].id == bar.id
    &&& res.ribbons@[0].scope == RibbonScope::Permanent
    &&& res.ribbons@[0].edge == RibbonEdge::Top
}

/// The definitions a well-formed chrome resolves pass the permanent
/// ribbon checks.
proof fn lemma_chrome_defs_pass_validation(chrome: AppShellChrome, defs: Seq<RibbonSlotDef>)
    requires
        valid_main_bar(chrome.spec_main_bar()),
        chrome_defs(chrome, defs),
    ensures
        permanent_error(defs) is None,
{
    assert(defs.drop_last() =~= Seq::<RibbonSlotDef>::empty());
    assert(permanent_positions(defs.drop_last()) =~= Seq::<int>::empty());
    assert(permanent_positions(defs) =~= seq![0int]);
}

/// Like [`resolve_app_shell_ribbons`], with the active workspace's
/// override layers (shallowest to deepest) applied after the view's.
pub fn resolve_app_shell_ribbons_with_workspace_layers(
    router: &ViewRouter,
    permanent_ribbons: &[RibbonSlotDef],
    workspace_layers: &[RibbonOverrideLayer],
) -> (r: Result<AppShellResolution, AppShellError>)
    ensures
        resolution_outcome(
            r,
            router.active_entry_spec(),
            permanent_ribbons@,
            Seq::empty(),
            layer_contents(workspace_layers@),
        ),
{
    let no_ribbons: Vec<RibbonSlotDef> = Vec::new();
    let r = resolve_app_shell_ribbons_with_workspace_chrome(
        router,
        permanent_ribbons,
        no_ribbons.as_slice(),
        workspace_layers,
    );
    assert(permanent_ribbons@ + router.active_entry_spec()->0.ribbons@ + no_ribbons@ =~= permanent_ribbons@
        + router.active_entry_spec()->0.ribbons@ + Seq::<RibbonSlotDef>::empty());
    r
}

/// Dispatch a root-shell ribbon action: exactly the ribbon dispatch,
/// its refusal wrapped as an app-shell error.
pub fn dispatch_app_shell_action(router: &mut ViewRouter, action: RibbonAction) -> (r: Result<
    RibbonActionResult,
    AppShellError,
>)
    ensures
        r == match ribbon_dispatch_result(action, *old(router)) {
            Ok(done) => Ok::<RibbonActionResult, AppShellError>(done),
            Err(e) => Err::<RibbonActionResult, AppShellError>(AppShellError::Action(e)),
        },
        ribbon_dispatch_effect(action, *old(router), *final(router)),
{
    match dispatch_ribbon_action(action, router) {
        Ok(result) => Ok(result),
        Err(e) => Err(AppShellError::Action(e)),
    }
}


proof fn lemma_scoped_append(a: Seq<RibbonSlotDef>, b: Seq<RibbonSlotDef>, view: ViewId, ws: Id)
    ensures
        scoped(a + b, view, ws) == scoped(a, view, ws) + scoped(b, view, ws),
    decreases b.len(),
{
    if b.len() == 0 {
        assert(a + b =~= a);
        assert(scoped(a, view, ws) + scoped(b, view, ws) =~= scoped(a, view, ws));
    } else {
        lemma_scoped_append(a, b.drop_last(), view, ws);
        assert((a + b).drop_last() =~= a + b.drop_last());
        assert((a + b).last() == b.last());
        if in_scope(b.last(), view, ws) {
            assert(scoped(a, view, ws) + scoped(b.drop_last(), view, ws).push(b.last()) =~= (scoped(
                a,
                view,
                ws,
            ) + scoped(b.drop_last(), view, ws)).push(b.last()));
        }
    }
}

/// The chrome's main bar always resolves, and resolves first: whatever
/// the active view and workspace contribute, the first resolved ribbon
/// is the main bar, with the main bar's id, scope and edge.
pub proof fn law_main_bar_resolves_first(
    chrome: AppShellChrome,
    defs: Seq<RibbonSlotDef>,
    rest: Seq<RibbonSlotDef>,
    view: ViewId,
    workspace: Id,
    layers: Seq<Seq<RibbonSlotOverride>>,
    out: Seq<ResolvedRibbon>,
)
    requires
        valid_main_bar(chrome.spec_main_bar()),
        chrome_defs(chrome, defs),
        resolves(out, defs + rest, view, workspace, layers),
    ensures
        out.len() >= 1,
        out[0].id == chrome.spec_main_bar().id,
        out[0].scope == RibbonScope::Permanent,
        out[0].edge == RibbonEdge::Top,
        out[0].items@ == ribbon_items(defs[0].slots@, layers),
{
    lemma_scoped_append(defs, rest, view, workspace);
    assert(defs.drop_last() =~= Seq::<RibbonSlotDef>::empty());
    assert(defs.last() == defs[0]);
    assert(in_scope(defs[0], view, workspace));
    assert(scoped(defs.drop_last(), view, workspace) =~= Seq::<RibbonSlotDef>::empty());
    assert(scoped(defs, view, workspace) =~= seq![defs[0]]);
}

/// A fixed slot shows its default whatever the layers say.
pub proof fn law_fixed_slot_ignores_overrides(slot: RibbonSlot, layers: Seq<Seq<RibbonSlotOverride>>)
    requires
        slot.policy == RibbonOverridePolicy::Fixed,
    ensures
        slot_items(slot, layers) == item_list(slot.default_item),
{
}

/// The deepest layer that names an overridable slot decides what it
/// shows — an item, or nothing when the override hides the slot —
/// whatever shallower layers said.
pub proof fn law_deepest_override_wins(
    slot: RibbonSlot,
    layers: Seq<Seq<RibbonSlotOverride>>,
    deepest: Seq<RibbonSlotOverride>,
    o: RibbonSlotOverride,
)
    requires
        slot.policy == RibbonOverridePolicy::Overridable,
        layer_override(deepest, slot.id) == Some(o),
    ensures
        slot_items(slot, layers.push(deepest)) == item_list(o.item),
{
    assert(layers.push(deepest).last() == deepest);
}

/// A layer that does not name a slot leaves it as the shallower layers
/// decided.
pub proof fn law_silent_layer_keeps_slot(
    slot: RibbonSlot,
    layers: Seq<Seq<RibbonSlotOverride>>,
    deeper: Seq<RibbonSlotOverride>,
)
    requires
        layer_override(deeper, slot.id) is None,
    ensures
        slot_items(slot, layers.push(deeper)) == slot_items(slot, layers),
{
    assert(layers.push(deeper).drop_last() =~= layers);
}

proof fn lemma_deepest_append_silent(
    base: Seq<Seq<RibbonSlotOverride>>,
    more: Seq<Seq<RibbonSlotOverride>>,
    slot: RibbonSlotId,
)
    requires
        crate::ribbon::deepest_override(more, slot) is None,
    ensures
        crate::ribbon::deepest_override(base + more, slot) == crate::ribbon::deepest_override(base, slot),
    decreases more.len(),
{
    if more.len() == 0 {
        assert(base + more =~= base);
    } else {
        assert((base + more).drop_last() =~= base + more.drop_last());
        assert((base + more).last() == more.last());
        lemma_deepest_append_silent(base, more.drop_last(), slot);
    }
}

/// While the active view's workspace stack is entered (L1+), the
/// window-control slot resolves to the "back to the parent workspace"
/// item — unless a workspace layer deliberately overrides that slot.
pub proof fn law_entered_workspace_restores(
    view_overrides: Seq<RibbonSlotOverride>,
    depth: int,
    workspace_layers: Seq<Seq<RibbonSlotOverride>>,
)
    requires
        depth > 0,
        crate::ribbon::deepest_override(workspace_layers, spec_system_control_slot().id) is None,
    ensures
        slot_items(spec_system_control_slot(), shell_layers(view_overrides, depth, workspace_layers))
            == item_list(spec_restore_workspace_override().item),
{
    let base = seq![view_overrides, seq![spec_restore_workspace_override()]];
    lemma_deepest_append_silent(base, workspace_layers, spec_system_control_slot().id);
    let restore_layer = seq![spec_restore_workspace_override()];
    assert(restore_layer.drop_last() =~= Seq::<RibbonSlotOverride>::empty());
    assert(base.last() == restore_layer);
}

/// With both policies enabled and neither built-in slot declared, the
/// main bar becomes: app menu, the declared slots, window control.
/// With both hidden it is left as declared.
pub proof fn law_chrome_injects_builtins(slots: Seq<RibbonSlot>)
    requires
        !spec_has_slot(slots, spec_app_menu_slot().id),
        !spec_has_slot(slots, spec_system_control_slot().id),
    ensures
        chrome_slots(slots, true, true) == (seq![spec_app_menu_slot()] + slots).push(
            spec_system_control_slot(),
        ),
        chrome_slots(slots, false, false) == slots,
{
    lemma_builtin_slot_ids_differ();
    let with_menu = seq![spec_app_menu_slot()] + slots;
    if spec_has_slot(with_menu, spec_system_control_slot().id) {
        let i = choose|i: int| 0 <= i < with_menu.len() && with_menu[i].id == spec_system_control_slot().id;
        if i > 0 {
            assert(with_menu[i] == slots[i - 1]);
        }
    }
}

/// A built-in slot the main bar already declares is never injected a
/// second time.
pub proof fn law_declared_builtins_not_duplicated(slots: Seq<RibbonSlot>, app_menu: bool, window_controls: bool)
    requires
        spec_has_slot(slots, spec_app_menu_slot().id),
        spec_has_slot(slots, spec_system_control_slot().id),
    ensures
        chrome_slots(slots, app_menu, window_controls) == slots,
{
}


/// Two declarations with the same header and the same slots resolve
/// alike.
proof fn lemma_same_def_resolves_alike(out: ResolvedRibbon, a: RibbonSlotDef, b: RibbonSlotDef, layers: Seq<Seq<RibbonSlotOverride>>)
    requires
        a.same_header(b),
        a.slots@ == b.slots@,
    ensures
        resolved_from(out, a, layers) == resolved_from(out, b, layers),
{
}

/// The chrome's permanent definitions are fixed by the chrome: any two
/// lists of definitions it accepts give the same outcome, whatever the
/// active view, workspace ribbons and layers. So resolving the chrome
/// is resolving its [`AppShellChrome::permanent_ribbon_defs`] with the
/// general resolver.
pub proof fn law_chrome_defs_resolve_alike(
    chrome: AppShellChrome,
    a: Seq<RibbonSlotDef>,
    b: Seq<RibbonSlotDef>,
    r: Result<AppShellResolution, AppShellError>,
    active: Option<ViewEntry>,
    workspace_ribbons: Seq<RibbonSlotDef>,
    workspace_layers: Seq<Seq<RibbonSlotOverride>>,
)
    requires
        chrome_defs(chrome, a),
        chrome_defs(chrome, b),
    ensures
        resolution_outcome(r, active, a, workspace_ribbons, workspace_layers) == resolution_outcome(
            r,
            active,
            b,
            workspace_ribbons,
            workspace_layers,
        ),
{
    assert(a.drop_last() =~= Seq::<RibbonSlotDef>::empty());
    assert(b.drop_last() =~= Seq::<RibbonSlotDef>::empty());
    assert(permanent_positions(a.drop_last()) =~= Seq::<int>::empty());
    assert(permanent_positions(b.drop_last()) =~= Seq::<int>::empty());
    assert(permanent_error(a) == permanent_error(b));
    assert(shell_error(a, active, workspace_ribbons) == shell_error(b, active, workspace_ribbons));
    if shell_error(a, active, workspace_ribbons) is None && r is Ok {
        let entry = active->0;
        let rest = entry.ribbons@ + workspace_ribbons;
        let view = entry.id;
        let ws = entry_workspace_id(entry);
        let layers = shell_layers(entry.ribbon_overrides.overrides@, entry.workspace.spec_depth(), workspace_layers);
        let out = r->Ok_0.ribbons@;
        assert(a + entry.ribbons@ + workspace_ribbons =~= a + rest);
        assert(b + entry.ribbons@ + workspace_ribbons =~= b + rest);
        lemma_scoped_append(a, rest, view, ws);
        lemma_scoped_append(b, rest, view, ws);
        assert(scoped(a.drop_last(), view, ws) =~= Seq::<RibbonSlotDef>::empty());
        assert(scoped(b.drop_last(), view, ws) =~= Seq::<RibbonSlotDef>::empty());
        let ka = scoped(a + rest, view, ws);
        let kb = scoped(b + rest, view, ws);
        assert(ka.len() == kb.len());
        assert forall|i: int| 0 <= i < out.len() && out.len() == ka.len() implies resolved_from(
            #[trigger] out[i],
            ka[i],
            layers,
        ) == resolved_from(out[i], kb[i], layers) by {
            if i < scoped(a, view, ws).len() {
                assert(ka[i] == a[0]);
                assert(kb[i] == b[0]);
                lemma_same_def_resolves_alike(out[i], a[0], b[0], layers);
            } else {
                assert(ka[i] == kb[i]);
            }
        }
        assert(resolves(out, a + rest, view, ws, layers) == resolves(out, b + rest, view, ws, layers));
    }
}


/// Two resolved ribbons carry the same header and the same items.
pub open spec fn same_resolved(a: ResolvedRibbon, b: ResolvedRibbon) -> bool {
    &&& a.id == b.id
    &&& a.chrome_id == b.chrome_id
    &&& a.scope == b.scope
    &&& a.edge == b.edge
    &&& a.role == b.role
    &&& a.mode == b.mode
    &&& a.cluster == b.cluster
    &&& a.accepts == b.accepts
    &&& a.items@ == b.items@
}

/// Two resolution outcomes give one answer: the same refusal, or the
/// same ribbons in the same order.
pub open spec fn same_outcome(
    a: Result<AppShellResolution, AppShellError>,
    b: Result<AppShellResolution, AppShellError>,
) -> bool {
    match a {
        Err(x) => b matches Err(y) && x == y,
        Ok(x) => b matches Ok(y) && x.ribbons@.len() == y.ribbons@.len() && forall|i: int|
            0 <= i < x.ribbons@.len() ==> same_resolved(#[trigger] x.ribbons@[i], y.ribbons@[i]),
    }
}

/// An outcome relation has one answer.
proof fn lemma_outcome_unique(
    a: Result<AppShellResolution, AppShellError>,
    b: Result<AppShellResolution, AppShellError>,
    active: Option<ViewEntry>,
    defs: Seq<RibbonSlotDef>,
    workspace_ribbons: Seq<RibbonSlotDef>,
    workspace_layers: Seq<Seq<RibbonSlotOverride>>,
)
    requires
        resolution_outcome(a, active, defs, workspace_ribbons, workspace_layers),
        resolution_outcome(b, active, defs, workspace_ribbons, workspace_layers),
    ensures
        same_outcome(a, b),
{
    if shell_error(defs, active, workspace_ribbons) is None {
        let x = a->Ok_0.ribbons@;
        let y = b->Ok_0.ribbons@;
        assert forall|i: int| 0 <= i < x.len() implies same_resolved(#[trigger] x[i], y[i]) by {}
    }
}

/// Resolving the chrome (with whatever workspace ribbons and layers)
/// gives one answer with resolving the chrome's permanent definitions,
/// as [`AppShellChrome::permanent_ribbon_defs`] builds them, with the
/// general resolver: whatever definitions either side resolved, as long
/// as the chrome accepts them.
pub proof fn law_chrome_resolution_is_general_resolution(
    chrome: AppShellChrome,
    chrome_side: Seq<RibbonSlotDef>,
    general_side: Seq<RibbonSlotDef>,
    from_chrome: Result<AppShellResolution, AppShellError>,
    from_general: Result<AppShellResolution, AppShellError>,
    active: Option<ViewEntry>,
    workspace_ribbons: Seq<RibbonSlotDef>,
    workspace_layers: Seq<Seq<RibbonSlotOverride>>,
)
    requires
        chrome_defs(chrome, chrome_side),
        resolution_outcome(from_chrome, active, chrome_side, workspace_ribbons, workspace_layers),
        chrome_defs(chrome, general_side),
        resolution_outcome(from_general, active, general_side, workspace_ribbons, workspace_layers),
    ensures
        same_outcome(from_chrome, from_general),
{
    law_chrome_defs_resolve_alike(
        chrome,
        chrome_side,
        general_side,
        from_chrome,
        active,
        workspace_ribbons,
        workspace_layers,
    );
    lemma_outcome_unique(from_chrome, from_general, active, general_side, workspace_ribbons, workspace_layers);
}


/// The app-menu button follows its own policy alone: when the bar does
/// not declare that slot, an enabled policy puts it first and a hidden
/// one leaves the declared slots at the front, whatever the
/// window-control policy says.
pub proof fn law_app_menu_follows_its_policy(slots: Seq<RibbonSlot>, window_controls: bool)
    requires
        !spec_has_slot(slots, spec_app_menu_slot().id),
    ensures
        chrome_slots(slots, true, window_controls).len() >= 1,
        chrome_slots(slots, true, window_controls)[0] == spec_app_menu_slot(),
        chrome_slots(slots, false, window_controls).take(slots.len() as int) == slots,
{
    let off = chrome_slots(slots, false, window_controls);
    assert(off.take(slots.len() as int) =~= slots);
}

/// The window control follows its own policy alone: when the bar does
/// not declare that slot, an enabled policy puts it last and a hidden
/// one keeps it out, whatever the app-menu policy says.
pub proof fn law_window_control_follows_its_policy(slots: Seq<RibbonSlot>, app_menu: bool)
    requires
        !spec_has_slot(slots, spec_system_control_slot().id),
    ensures
        chrome_slots(slots, app_menu, true).last() == spec_system_control_slot(),
        !spec_has_slot(chrome_slots(slots, app_menu, false), spec_system_control_slot().id),
{
    lemma_builtin_slot_ids_differ();
    let with_menu = seq![spec_app_menu_slot()] + slots;
    if app_menu && !spec_has_slot(slots, spec_app_menu_slot().id) {
        if spec_has_slot(with_menu, spec_system_control_slot().id) {
            let i = choose|i: int| 0 <= i < with_menu.len() && with_menu[i].id == spec_system_control_slot().id;
            if i > 0 {
                assert(with_menu[i] == slots[i - 1]);
            }
        }
    }
}

} // verus!
