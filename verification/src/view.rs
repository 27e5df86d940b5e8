//! Top-level view routing: which view is active, its declared ribbons
//! and overrides, and its stack of workspace levels (L0 is the view's
//! root; entering a module workspace pushes a level).

use crate::ribbon::{RibbonAction, RibbonOverrideLayer, RibbonSlotDef, ViewId};
use crate::vocab::Id;
use vstd::prelude::*;

verus! {

/// One level of a view's workspace stack.
#[derive(Clone, Copy, Debug, PartialEq, Eq, Structural)]
pub struct WorkspaceLevel {
    pub id: Id,
}

/// A view's workspace levels: the root level and the levels entered
/// above it, innermost last.
pub struct WorkspaceStack {
    root: WorkspaceLevel,
    above: Vec<WorkspaceLevel>,
}

impl WorkspaceStack {
    /// The levels, root first.
    pub closed spec fn levels(self) -> Seq<WorkspaceLevel> {
        seq![self.root] + self.above@
    }

    /// How many levels sit above the root.
    pub open spec fn spec_depth(self) -> int {
        self.levels().len() - 1
    }

    /// A stack holding only its root level.
    pub fn new(root: WorkspaceLevel) -> (s: WorkspaceStack)
        ensures
            s.levels() == seq![root],
    {
        let s = WorkspaceStack { root, above: Vec::new() };
        assert(s.levels() =~= seq![root]);
        s
    }

    /// How many levels sit above the root (0 at the root).
    pub fn depth(&self) -> (d: usize)
        ensures
            d == self.spec_depth(),
            self.levels().len() > 0,
    {
        self.above.len()
    }

    /// The innermost (active) level.
    pub fn current(&self) -> (l: WorkspaceLevel)
        ensures
            self.levels().len() > 0,
            l == self.levels().last(),
    {
        if self.above.len() == 0 {
            self.root
        } else {
            self.above[self.above.len() - 1]
        }
    }

    /// Enter a deeper level.
    pub fn push(&mut self, level: WorkspaceLevel)
        ensures
            final(self).levels() == old(self).levels().push(level),
    {
        self.above.push(level);
        assert(self.levels() =~= old(self).levels().push(level));
    }

    /// Leave the innermost level; refused at the root.
    pub fn pop(&mut self) -> (r: Result<WorkspaceLevel, ViewRouterError>)
        ensures
            old(self).levels().len() > 1 ==> r == Ok::<WorkspaceLevel, ViewRouterError>(
                old(self).levels().last(),
            ) && final(self).levels() == old(self).levels().drop_last(),
            old(self).levels().len() <= 1 ==> r == Err::<WorkspaceLevel, ViewRouterError>(
                ViewRouterError::AtRootWorkspace,
            ) && final(self).levels() == old(self).levels(),
    {
        match self.above.pop() {
            Some(l) => {
                assert(self.levels() =~= old(self).levels().drop_last());
                Ok(l)
            },
            None => Err(ViewRouterError::AtRootWorkspace),
        }
    }
}

/// Why the router could not answer.
#[derive(Clone, Copy, Debug, PartialEq, Eq, Structural)]
pub enum ViewRouterError {
    /// No view is active.
    NoActiveView,
    /// No view with this id is registered.
    UnknownView(ViewId),
    /// The active workspace is already at its root level.
    AtRootWorkspace,
}

/// One registered view: its id, the ribbons and overrides it declares,
/// and its workspace stack.
pub struct ViewEntry {
    pub id: ViewId,
    pub ribbons: Vec<RibbonSlotDef>,
    pub ribbon_overrides: RibbonOverrideLayer,
    pub workspace: WorkspaceStack,
}

/// The registered views and which one is active.
pub struct ViewRouter {
    entries: Vec<ViewEntry>,
    active: Option<usize>,
}

impl ViewRouter {
    /// The registered views, in registration order.
    pub closed spec fn entries(self) -> Seq<ViewEntry> {
        self.entries@
    }

    /// Position of the active view, if any.
    pub closed spec fn active_index(self) -> Option<int> {
        match self.active {
            Some(i) => Some(i as int),
            None => None,
        }
    }

    /// The active view's entry.
    pub open spec fn active_entry_spec(self) -> Option<ViewEntry> {
        match self.active_index() {
            Some(i) => if 0 <= i < self.entries().len() {
                Some(self.entries()[i])
            } else {
                None
            },
            None => None,
        }
    }

    /// A router with no views.
    pub fn new() -> (r: ViewRouter)
        ensures
            r.entries() == Seq::<ViewEntry>::empty(),
            r.active_index() is None,
    {
        ViewRouter { entries: Vec::new(), active: None }
    }

    /// Register a view; the first view registered becomes active.
    pub fn add_view(&mut self, entry: ViewEntry)
        ensures
            final(self).entries() == old(self).entries().push(entry),
            final(self).active_index() == (if old(self).active_index() is None {
                Some(old(self).entries().len() as int)
            } else {
                old(self).active_index()
            }),
    {
        let n = self.entries.len();
        self.entries.push(entry);
        if self.active.is_none() {
            self.active = Some(n);
        }
    }

    /// Make the view with id `id` the active one.
    pub fn activate(&mut self, id: ViewId) -> (r: Result<(), ViewRouterError>)
        ensures
            final(self).entries() == old(self).entries(),
            r is Ok <==> exists|i: int| 0 <= i < old(self).entries().len() && old(self).entries()[i].id == id,
            r is Ok ==> (final(self).active_entry_spec() matches Some(e) && e.id == id),
            r is Err ==> r == Err::<(), ViewRouterError>(ViewRouterError::UnknownView(id))
                && final(self).active_index() == old(self).active_index(),
    {
        let mut i: usize = 0;
        while i < self.entries.len()
            invariant
                i <= self.entries@.len(),
                self.entries == old(self).entries,
                self.active == old(self).active,
                forall|j: int| 0 <= j < i ==> self.entries@[j].id != id,
            decreases self.entries@.len() - i,
        {
            if self.entries[i].id == id {
                assert(old(self).entries()[i as int].id == id);
                self.active = Some(i);
                return Ok(());
            }
            i = i + 1;
        }
        Err(ViewRouterError::UnknownView(id))
    }

    /// The active view's id.
    pub fn active(&self) -> (r: Result<ViewId, ViewRouterError>)
        ensures
            match self.active_entry_spec() {
                Some(e) => r == Ok::<ViewId, ViewRouterError>(e.id),
                None => r == Err::<ViewId, ViewRouterError>(ViewRouterError::NoActiveView),
            },
    {
        match self.active {
            Some(i) => if i < self.entries.len() {
                Ok(self.entries[i].id)
            } else {
                Err(ViewRouterError::NoActiveView)
            },
            None => Err(ViewRouterError::NoActiveView),
        }
    }

    /// The active view's entry.
    pub fn active_entry(&self) -> (r: Result<&ViewEntry, ViewRouterError>)
        ensures
            match self.active_entry_spec() {
                Some(e) => r matches Ok(got) && *got == e,
                None => r == Err::<&ViewEntry, ViewRouterError>(ViewRouterError::NoActiveView),
            },
    {
        match self.active {
            Some(i) => if i < self.entries.len() {
                Ok(&self.entries[i])
            } else {
                Err(ViewRouterError::NoActiveView)
            },
            None => Err(ViewRouterError::NoActiveView),
        }
    }

    /// The active view's workspace stack.
    pub fn active_workspace(&self) -> (r: Result<&WorkspaceStack, ViewRouterError>)
        ensures
            match self.active_entry_spec() {
                Some(e) => r matches Ok(got) && *got == e.workspace,
                None => r == Err::<&WorkspaceStack, ViewRouterError>(ViewRouterError::NoActiveView),
            },
    {
        match self.active_entry() {
            Ok(e) => Ok(&e.workspace),
            Err(e) => Err(e),
        }
    }

    /// Leave the active view's innermost workspace level. Only that
    /// view's workspace stack changes; on an error nothing does.
    pub fn pop_workspace(&mut self) -> (r: Result<WorkspaceLevel, ViewRouterError>)
        ensures
            can_pop(*old(self)) ==> r == Ok::<WorkspaceLevel, ViewRouterError>(
                old(self).active_entry_spec()->0.workspace.levels().last(),
            ) && workspace_popped(*old(self), *final(self)),
            !can_pop(*old(self)) ==> r == Err::<WorkspaceLevel, ViewRouterError>(pop_refusal(*old(self)))
                && router_unchanged(*old(self), *final(self)),
    {
        match self.active {
            None => Err(ViewRouterError::NoActiveView),
            Some(i) => {
                if i >= self.entries.len() {
                    return Err(ViewRouterError::NoActiveView);
                }
                if self.entries[i].workspace.depth() == 0 {
                    return Err(ViewRouterError::AtRootWorkspace);
                }
                let ghost before = self.entries@;
                let mut entries = Vec::new();
                std::mem::swap(&mut entries, &mut self.entries);
                let mut entry = entries.remove(i);
                let r = entry.workspace.pop();
                entries.insert(i, entry);
                self.entries = entries;
                proof {
                    assert forall|j: int| 0 <= j < before.len() && j != i implies self.entries@[j]
                        == before[j] by {
                        if j < i {
                        } else {
                        }
                    }
                }
                r
            },
        }
    }
}

/// The router's active view can leave a workspace level: it exists and
/// sits above its root level.
pub open spec fn can_pop(r: ViewRouter) -> bool {
    r.active_entry_spec() matches Some(e) && e.workspace.levels().len() > 1
}

/// Why leaving a workspace level is refused.
pub open spec fn pop_refusal(r: ViewRouter) -> ViewRouterError {
    if r.active_entry_spec() is None {
        ViewRouterError::NoActiveView
    } else {
        ViewRouterError::AtRootWorkspace
    }
}

/// Nothing about the router changed.
pub open spec fn router_unchanged(old: ViewRouter, new: ViewRouter) -> bool {
    new.entries() == old.entries() && new.active_index() == old.active_index()
}

/// `new` is `old` with the active view's innermost workspace level left:
/// the same views in the same order, the same active view, every other
/// view untouched, and the active view differing only in its stack.
pub open spec fn workspace_popped(old: ViewRouter, new: ViewRouter) -> bool {
    match old.active_index() {
        Some(i) => {
            &&& new.active_index() == old.active_index()
            &&& new.entries().len() == old.entries().len()
            &&& 0 <= i < old.entries().len()
            &&& forall|j: int|
                0 <= j < old.entries().len() && j != i ==> #[trigger] new.entries()[j] == old.entries()[j]
            &&& new.entries()[i].id == old.entries()[i].id
            &&& new.entries()[i].ribbons == old.entries()[i].ribbons
            &&& new.entries()[i].ribbon_overrides == old.entries()[i].ribbon_overrides
            &&& new.entries()[i].workspace.levels() == old.entries()[i].workspace.levels().drop_last()
        },
        None => false,
    }
}

/// What dispatching a ribbon action did.
#[derive(Clone, Copy, Debug, PartialEq, Eq, Structural)]
pub enum RibbonActionResult {
    /// The shell handled the action itself.
    Handled,
    /// The action is the host's or the app's to carry out.
    Forward(RibbonAction),
}

/// Why a ribbon action could not be carried out.
#[derive(Clone, Copy, Debug, PartialEq, Eq, Structural)]
pub enum RibbonActionError {
    View(ViewRouterError),
}

/// What dispatching `action` on `router` answers.
pub open spec fn ribbon_dispatch_result(action: RibbonAction, router: ViewRouter) -> Result<
    RibbonActionResult,
    RibbonActionError,
> {
    match action {
        RibbonAction::Noop => Ok(RibbonActionResult::Handled),
        RibbonAction::PopWorkspace => if can_pop(router) {
            Ok(RibbonActionResult::Handled)
        } else {
            Err(RibbonActionError::View(pop_refusal(router)))
        },
        _ => Ok(RibbonActionResult::Forward(action)),
    }
}

/// How dispatching `action` changes the router: leaving a workspace
/// level pops the active view's stack when it can; nothing else changes
/// anything.
pub open spec fn ribbon_dispatch_effect(action: RibbonAction, old: ViewRouter, new: ViewRouter) -> bool {
    if action == RibbonAction::PopWorkspace && can_pop(old) {
        workspace_popped(old, new)
    } else {
        router_unchanged(old, new)
    }
}

/// Carry out a ribbon action against the router: leaving a workspace
/// level and no-ops are the shell's; everything else is forwarded.
pub fn dispatch_ribbon_action(action: RibbonAction, router: &mut ViewRouter) -> (r: Result<
    RibbonActionResult,
    RibbonActionError,
>)
    ensures
        r == ribbon_dispatch_result(action, *old(router)),
        ribbon_dispatch_effect(action, *old(router), *final(router)),
{
    match action {
        RibbonAction::Noop => Ok(RibbonActionResult::Handled),
        RibbonAction::PopWorkspace => match router.pop_workspace() {
            Ok(_) => Ok(RibbonActionResult::Handled),
            Err(e) => Err(RibbonActionError::View(e)),
        },
        _ => Ok(RibbonActionResult::Forward(action)),
    }
}

} // verus!
