use mara_core::focus::{load_focus, store_focus, FocusRegistry};
use mara_core::memory::MaraMemory;
use mara_core::vocab::Id;

fn ids() -> (Id, Id, Id) {
    (Id::new("a"), Id::new("b"), Id::new("c"))
}

fn registry_of(focused: Option<Id>) -> FocusRegistry {
    let (a, b, c) = ids();
    let mut r = FocusRegistry::new(focused);
    r.register(a);
    r.register(b);
    r.register(c);
    r
}

#[test]
fn focus_persists_through_memory() {
    let mut memory = MaraMemory::new();
    let scope = Id::new("scope");
    let (a, _, _) = ids();
    assert_eq!(load_focus(&memory, scope), None);
    store_focus(&mut memory, scope, Some(a));
    assert_eq!(load_focus(&memory, scope), Some(a));
    store_focus(&mut memory, scope, None);
    assert_eq!(load_focus(&memory, scope), None);
}

#[test]
fn tab_from_none_focuses_first() {
    let mut r = registry_of(None);
    r.focus_next();
    assert_eq!(r.current(), Some(ids().0));
}

#[test]
fn shift_tab_from_none_focuses_last() {
    let mut r = registry_of(None);
    r.focus_prev();
    assert_eq!(r.current(), Some(ids().2));
}

#[test]
fn tab_advances_and_wraps() {
    let (a, b, c) = ids();
    let mut r = registry_of(Some(a));
    r.focus_next();
    assert_eq!(r.current(), Some(b));
    r.focus_next();
    assert_eq!(r.current(), Some(c));
    r.focus_next();
    assert_eq!(r.current(), Some(a));
}

#[test]
fn shift_tab_retreats_and_wraps() {
    let (a, b, c) = ids();
    let mut r = registry_of(Some(a));
    r.focus_prev();
    assert_eq!(r.current(), Some(c));
    r.focus_prev();
    assert_eq!(r.current(), Some(b));
}

#[test]
fn stale_focus_recovers_to_first_on_tab() {
    let mut r = registry_of(Some(Id::new("gone")));
    r.focus_next();
    assert_eq!(r.current(), Some(ids().0));
}

#[test]
fn request_and_clear_and_is_focused() {
    let (a, b, _) = ids();
    let mut r = registry_of(None);
    r.request_focus(b);
    assert!(r.is_focused(b));
    assert!(!r.is_focused(a));
    r.clear();
    assert_eq!(r.current(), None);
}

#[test]
fn traversal_on_empty_registry_is_noop() {
    let mut r = FocusRegistry::new(Some(Id::new("x")));
    r.focus_next();
    assert_eq!(r.current(), None);
    r.focus_prev();
    assert_eq!(r.current(), None);
}

#[test]
fn tab_then_shift_tab_returns_to_the_same_widget() {
    let (_, b, _) = ids();
    let mut r = registry_of(Some(b));
    r.focus_next();
    r.focus_prev();
    assert_eq!(r.current(), Some(b));
    r.focus_prev();
    r.focus_next();
    assert_eq!(r.current(), Some(b));
}

#[test]
fn stale_focus_recovers_to_last_on_shift_tab() {
    let mut r = registry_of(Some(Id::new("gone")));
    r.focus_prev();
    assert_eq!(r.current(), Some(ids().2));
}
