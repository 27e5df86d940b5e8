use mara_core::container::{active_tab_id_key, resolve_active_tab_idx, Pod, Tab};
use mara_core::icons::Icon;
use mara_core::memory::{MaraMemory, MemoryKind, MemoryValue};
use mara_core::vocab::Id;

#[test]
fn tab_new_accepts_named_icon() {
    let tab = Tab::new("tab-with-icon".into(), "Valid", "settings".into());

    assert_eq!(tab.title(), "Valid");
}

#[test]
fn tab_public_id_uses_mara_vocab() {
    let tab = Tab::new("tab-id".into(), "Valid", "settings".into());
    let id: Id = tab.id();

    assert_eq!(id, tab.id());
}

#[test]
fn tab_new_preserves_existing_mara_id_without_rehashing() {
    let id = Id::new("stable-tab-id");
    let tab = Tab::new(id, "Valid", "settings".into());

    assert_eq!(tab.id(), id);
}

fn persisted_index(memory: &MaraMemory, key: Id) -> Option<usize> {
    match memory.get_persisted(key, MemoryKind::Index) {
        Some(MemoryValue::Index(i)) => Some(i),
        _ => None,
    }
}

fn persisted_id(memory: &MaraMemory, key: Id) -> Option<Id> {
    match memory.get_persisted(key, MemoryKind::Key) {
        Some(MemoryValue::Key(id)) => Some(id),
        _ => None,
    }
}

#[test]
fn active_tab_resolution_prefers_stable_tab_id_over_stale_index() {
    let mut memory = MaraMemory::new();
    let key = Id::new("active-tabs");
    let first = Id::new("first");
    let moved = Id::new("moved");
    let last = Id::new("last");
    memory.set_persisted(key, MemoryValue::Index(0));
    memory.set_persisted(active_tab_id_key(key), MemoryValue::Key(moved));

    let idx = resolve_active_tab_idx(&mut memory, key, &[first, moved, last]);

    assert_eq!(idx, 1);
    assert_eq!(persisted_index(&memory, key), Some(1));
}

#[test]
fn active_tab_resolution_clamps_index_and_repairs_active_id() {
    let mut memory = MaraMemory::new();
    let key = Id::new("active-tabs");
    let only = Id::new("only");
    memory.set_persisted(key, MemoryValue::Index(99));

    let idx = resolve_active_tab_idx(&mut memory, key, &[only]);

    assert_eq!(idx, 0);
    assert_eq!(persisted_index(&memory, key), Some(0));
    assert_eq!(persisted_id(&memory, active_tab_id_key(key)), Some(only));
}

#[test]
fn tabs_keep_their_icon_and_pods() {
    let tab = Tab::new("t".into(), "Title", "<svg/>".into()).pods(vec![Pod { id: Id::new("p") }]);
    assert!(matches!(tab.icon(), Icon::Svg("<svg/>")));
    assert_eq!(tab.id(), Id::from("t"));
    assert_eq!(tab.title(), "Title");
}

#[test]
fn an_index_never_stored_stays_unstored() {
    let mut memory = MaraMemory::new();
    let key = Id::new("active-tabs");
    let first = Id::new("first");
    let idx = resolve_active_tab_idx(&mut memory, key, &[first, Id::new("second")]);
    assert_eq!(idx, 0);
    assert_eq!(persisted_index(&memory, key), None);
    assert_eq!(persisted_id(&memory, active_tab_id_key(key)), Some(first));
}
