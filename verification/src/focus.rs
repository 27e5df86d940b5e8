//! Backend-neutral focus registry and keyboard traversal.
//!
//! Per frame a host loads the focused id, builds a [`FocusRegistry`],
//! registers each focusable widget in tab order, applies Tab /
//! Shift+Tab traversal, then stores the result back.

use crate::memory::{spec_lookup, MaraMemory, MemoryKey, MemoryKind, MemoryValue};
use crate::vocab::{id_with, Id};
use vstd::prelude::*;

verus! {

/// The store key under which the focused id of `scope` is kept.
pub open spec fn spec_focus_key(scope: Id) -> Id {
    id_with(scope, "mara_focus_owner"@)
}

fn focus_key(scope: Id) -> (k: Id)
    ensures
        k == spec_focus_key(scope),
{
    scope.with("mara_focus_owner")
}

/// What [`load_focus`] reads from a store: the focused id recorded for
/// `scope`, or none when nothing (or something else) is recorded.
pub open spec fn stored_focus(temp: Map<MemoryKey, MemoryValue>, scope: Id) -> Option<Id> {
    match spec_lookup(temp, spec_focus_key(scope), MemoryKind::MaybeKey) {
        Some(MemoryValue::MaybeKey(f)) => f,
        _ => None,
    }
}

/// Read the focused widget id for `scope` (default: none).
pub fn load_focus(memory: &MaraMemory, scope: Id) -> (r: Option<Id>)
    ensures
        r == stored_focus(memory.temp(), scope),
{
    match memory.get_temp(focus_key(scope), MemoryKind::MaybeKey) {
        Some(MemoryValue::MaybeKey(f)) => f,
        _ => None,
    }
}

/// Persist the focused widget id for `scope`.
pub fn store_focus(memory: &mut MaraMemory, scope: Id, focused: Option<Id>)
    ensures
        final(memory).temp() == old(memory).temp().insert(
            (spec_focus_key(scope), MemoryKind::MaybeKey),
            MemoryValue::MaybeKey(focused),
        ),
        final(memory).persisted() == old(memory).persisted(),
{
    memory.set_temp(focus_key(scope), MemoryValue::MaybeKey(focused));
}

/// Index of the first occurrence of `id` in `order`, if any.
pub open spec fn first_index(order: Seq<Id>, id: Id) -> Option<int>
    decreases order.len(),
{
    if order.len() == 0 {
        None
    } else {
        match first_index(order.drop_last(), id) {
            Some(i) => Some(i),
            None => if order.last() == id {
                Some(order.len() - 1)
            } else {
                None
            },
        }
    }
}

/// `first_index` finds exactly the first occurrence.
pub proof fn lemma_first_index(order: Seq<Id>, id: Id)
    ensures
        first_index(order, id) matches Some(i) ==> 0 <= i < order.len() && order[i] == id
            && forall|j: int| 0 <= j < i ==> order[j] != id,
        first_index(order, id) is None ==> forall|j: int| 0 <= j < order.len() ==> order[j] != id,
    decreases order.len(),
{
    if order.len() > 0 {
        let t = order.drop_last();
        lemma_first_index(t, id);
        assert forall|j: int| 0 <= j < t.len() implies t[j] == order[j] by {}
    }
}

/// Where the focus sits in `order`: the first position of the focused
/// id, or none when nothing is focused or the focused id is stale.
pub open spec fn focus_position(order: Seq<Id>, focused: Option<Id>) -> Option<int> {
    match focused {
        Some(f) => first_index(order, f),
        None => None,
    }
}

/// Focus after Tab: the widget after the focused one, wrapping to the
/// first; the first widget when nothing (or a stale id) is focused;
/// none when no widget registered.
pub open spec fn next_focus(order: Seq<Id>, focused: Option<Id>) -> Option<Id> {
    if order.len() == 0 {
        None
    } else {
        match focus_position(order, focused) {
            Some(i) => Some(order[(i + 1) % (order.len() as int)]),
            None => Some(order[0]),
        }
    }
}

/// Focus after Shift+Tab: the widget before the focused one, wrapping
/// to the last; the last widget when nothing (or a stale id) is
/// focused; none when no widget registered.
pub open spec fn prev_focus(order: Seq<Id>, focused: Option<Id>) -> Option<Id> {
    if order.len() == 0 {
        None
    } else {
        match focus_position(order, focused) {
            Some(i) => if i == 0 {
                Some(order[order.len() - 1])
            } else {
                Some(order[i - 1])
            },
            None => Some(order[order.len() - 1]),
        }
    }
}

/// Per-frame focus state: the focusable widgets registered this frame
/// (in tab order) plus which one holds focus.
#[derive(Clone, Debug)]
pub struct FocusRegistry {
    order: Vec<Id>,
    focused: Option<Id>,
}

impl FocusRegistry {
    /// The registered widgets, in tab order.
    pub closed spec fn order(&self) -> Seq<Id> {
        self.order@
    }

    /// The focused id (possibly stale).
    pub closed spec fn focused(&self) -> Option<Id> {
        self.focused
    }

    pub fn new(focused: Option<Id>) -> (r: Self)
        ensures
            r.order() == Seq::<Id>::empty(),
            r.focused() == focused,
    {
        FocusRegistry { order: Vec::new(), focused }
    }

    /// Register a focusable widget in tab order. Call once per
    /// focusable widget per frame, in the order Tab should visit them.
    pub fn register(&mut self, id: Id)
        ensures
            final(self).order() == old(self).order().push(id),
            final(self).focused() == old(self).focused(),
    {
        self.order.push(id);
    }

    pub fn current(&self) -> (r: Option<Id>)
        ensures
            r == self.focused(),
    {
        self.focused
    }

    pub fn is_focused(&self, id: Id) -> (r: bool)
        ensures
            r == (self.focused() == Some(id)),
    {
        match self.focused {
            Some(f) => f == id,
            None => false,
        }
    }

    pub fn request_focus(&mut self, id: Id)
        ensures
            final(self).order() == old(self).order(),
            final(self).focused() == Some(id),
    {
        self.focused = Some(id);
    }

    pub fn clear(&mut self)
        ensures
            final(self).order() == old(self).order(),
            final(self).focused() == None::<Id>,
    {
        self.focused = None;
    }

    /// Index of the focused id in this frame's order, if it is still
    /// present (it may have been removed since last frame).
    fn focused_index(&self) -> (r: Option<usize>)
        ensures
            match r {
                Some(i) => i < self.order().len() && focus_position(self.order(), self.focused()) == Some(i as int),
                None => focus_position(self.order(), self.focused()) is None,
            },
    {
        let focused = match self.focused {
            Some(f) => f,
            None => {
                return None;
            },
        };
        let mut i: usize = 0;
        while i < self.order.len()
            invariant
                i <= self.order@.len(),
                self.focused == Some(focused),
                forall|j: int| 0 <= j < i ==> self.order@[j] != focused,
            decreases self.order@.len() - i,
        {
            if self.order[i] == focused {
                proof {
                    lemma_first_index(self.order@, focused);
                    let r = first_index(self.order@, focused);
                    if let Some(k) = r {
                        if k < i {
                        } else if k > i {
                        }
                    } else {
                    }
                }
                return Some(i);
            }
            i = i + 1;
        }
        proof {
            lemma_first_index(self.order@, focused);
            if let Some(k) = first_index(self.order@, focused) {
                assert(self.order@[k] != focused);
            }
        }
        None
    }

    /// Move focus to the next focusable widget (Tab). Wraps to the
    /// first; if nothing is focused or the stored focus is stale,
    /// focuses the first widget.
    pub fn focus_next(&mut self)
        ensures
            final(self).order() == old(self).order(),
            final(self).focused() == next_focus(old(self).order(), old(self).focused()),
    {
        if self.order.len() == 0 {
            self.focused = None;
            return;
        }
        let next = match self.focused_index() {
            Some(i) => (i + 1) % self.order.len(),
            None => 0,
        };
        self.focused = Some(self.order[next]);
    }

    /// Move focus to the previous focusable widget (Shift+Tab). Wraps
    /// to the last; if nothing is focused or the stored focus is stale,
    /// focuses the last widget.
    pub fn focus_prev(&mut self)
        ensures
            final(self).order() == old(self).order(),
            final(self).focused() == prev_focus(old(self).order(), old(self).focused()),
    {
        if self.order.len() == 0 {
            self.focused = None;
            return;
        }
        let prev = match self.focused_index() {
            Some(0) | None => self.order.len() - 1,
            Some(i) => i - 1,
        };
        self.focused = Some(self.order[prev]);
    }
}

impl Default for FocusRegistry {
    /// No widget registered, nothing focused.
    fn default() -> (r: Self)
        ensures
            r.order() == Seq::<Id>::empty(),
            r.focused() == None::<Id>,
    {
        FocusRegistry::new(None)
    }
}

/// No widget id is registered twice.
pub open spec fn registered_once(order: Seq<Id>) -> bool {
    forall|i: int, j: int| 0 <= i < order.len() && 0 <= j < order.len() && i != j ==> order[i] != order[j]
}

proof fn lemma_first_index_of_distinct(order: Seq<Id>, i: int)
    requires
        registered_once(order),
        0 <= i < order.len(),
    ensures
        first_index(order, order[i]) == Some(i),
{
    lemma_first_index(order, order[i]);
    if let Some(k) = first_index(order, order[i]) {
        assert(k == i);
    }
}

/// Tab then Shift+Tab gives the focus back to the widget that held it,
/// when every widget is registered once and the focused one is among
/// them.
pub proof fn law_tab_then_shift_tab_restores(order: Seq<Id>, focused: Id)
    requires
        registered_once(order),
        order.contains(focused),
    ensures
        prev_focus(order, next_focus(order, Some(focused))) == Some(focused),
{
    let i = choose|i: int| 0 <= i < order.len() && order[i] == focused;
    lemma_first_index_of_distinct(order, i);
    let n = order.len() as int;
    let j = (i + 1) % n;
    lemma_first_index_of_distinct(order, j);
    if i + 1 < n {
        assert(j == i + 1) by (nonlinear_arith)
            requires
                0 <= i,
                i + 1 < n,
                j == (i + 1) % n,
        ;
    } else {
        assert(j == 0) by (nonlinear_arith)
            requires
                i + 1 == n,
                n > 0,
                j == (i + 1) % n,
        ;
    }
}

/// Shift+Tab then Tab gives the focus back to the widget that held it,
/// when every widget is registered once and the focused one is among
/// them.
pub proof fn law_shift_tab_then_tab_restores(order: Seq<Id>, focused: Id)
    requires
        registered_once(order),
        order.contains(focused),
    ensures
        next_focus(order, prev_focus(order, Some(focused))) == Some(focused),
{
    let i = choose|i: int| 0 <= i < order.len() && order[i] == focused;
    lemma_first_index_of_distinct(order, i);
    let n = order.len() as int;
    let j = if i == 0 { n - 1 } else { i - 1 };
    lemma_first_index_of_distinct(order, j);
    if i == 0 {
        assert((j + 1) % n == 0) by (nonlinear_arith)
            requires
                j + 1 == n,
                n > 0,
        ;
    } else {
        assert((j + 1) % n == i) by (nonlinear_arith)
            requires
                j + 1 == i,
                0 < i < n,
        ;
    }
}

proof fn lemma_position_in_range(order: Seq<Id>, focused: Option<Id>)
    ensures
        focus_position(order, focused) matches Some(i) ==> 0 <= i < order.len(),
{
    if let Some(f) = focused {
        lemma_first_index(order, f);
    }
}

/// Traversal over a non-empty registry always lands on a registered
/// widget; over an empty registry it clears the focus.
pub proof fn law_traversal_lands_on_registered(order: Seq<Id>, focused: Option<Id>)
    ensures
        order.len() > 0 ==> (next_focus(order, focused) matches Some(n) && order.contains(n)),
        order.len() > 0 ==> (prev_focus(order, focused) matches Some(p) && order.contains(p)),
        order.len() == 0 ==> next_focus(order, focused) is None && prev_focus(order, focused) is None,
{
    if order.len() > 0 {
        let n = order.len() as int;
        lemma_position_in_range(order, focused);
        let pos = focus_position(order, focused);
        let nx: int = match pos {
            Some(i) => (i + 1) % n,
            None => 0,
        };
        let pv: int = match pos {
            Some(i) => if i == 0 { n - 1 } else { i - 1 },
            None => n - 1,
        };
        if let Some(i) = pos {
            assert(0 <= nx < n) by (nonlinear_arith)
                requires
                    n > 0,
                    nx == (i + 1) % n,
            ;
        }
        assert(next_focus(order, focused) == Some(order[nx]));
        assert(prev_focus(order, focused) == Some(order[pv]));
        assert(order.contains(order[nx]));
        assert(order.contains(order[pv]));
    }
}

/// A stale focus (an id no longer registered) recovers to the first
/// widget on Tab and to the last on Shift+Tab.
pub proof fn law_stale_focus_recovers(order: Seq<Id>, stale: Id)
    requires
        order.len() > 0,
        !order.contains(stale),
    ensures
        next_focus(order, Some(stale)) == Some(order[0]),
        prev_focus(order, Some(stale)) == Some(order[order.len() - 1]),
{
    lemma_first_index(order, stale);
    if let Some(k) = first_index(order, stale) {
        assert(order.contains(stale));
    }
}

/// The focused id stored for a scope is the one read back, until it is
/// stored again.
pub proof fn law_focus_read_after_store(temp: Map<MemoryKey, MemoryValue>, scope: Id, focused: Option<Id>)
    ensures
        stored_focus(
            temp.insert((spec_focus_key(scope), MemoryKind::MaybeKey), MemoryValue::MaybeKey(focused)),
            scope,
        ) == focused,
{
}

} // verus!
