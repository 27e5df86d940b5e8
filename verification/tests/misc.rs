use mara_core::container::{
    container_flow_key, container_initial_flow_key, container_intrinsic_key, SeparatorOrient,
    SeparatorStyle,
};
use mara_core::debug::{best_id, is_enabled, set_enabled};
use mara_core::memory::MaraMemory;
use mara_core::ribbon::ViewId;
use mara_core::text::{is_blank, same_text};
use mara_core::view::{ViewEntry, ViewRouter, ViewRouterError, WorkspaceLevel, WorkspaceStack};
use mara_core::ribbon::RibbonOverrideLayer;
use mara_core::vocab::Id;

#[test]
fn the_inspector_is_off_until_switched_on() {
    let mut memory = MaraMemory::new();
    assert!(!is_enabled(&memory));
    set_enabled(&mut memory, true);
    assert!(is_enabled(&memory));
    set_enabled(&mut memory, false);
    assert!(!is_enabled(&memory));
    assert_eq!(best_id(), Id::new("mara_debug_inspector_best"));
}

#[test]
fn container_state_keys_are_salted_per_container() {
    let cid = Id::new("c");
    assert_eq!(container_flow_key(cid), cid.with("mara_container_flow"));
    assert_eq!(container_intrinsic_key(cid), cid.with("mara_container_intrinsic"));
    assert_eq!(container_initial_flow_key(cid), cid.with("mara_container_initial_flow"));
    assert_ne!(container_flow_key(cid), container_flow_key(Id::new("d")));
}

#[test]
fn separators_default_to_a_plain_horizontal_line() {
    assert_eq!(SeparatorStyle::default_style(), SeparatorStyle::Line);
    assert_eq!(SeparatorOrient::default_orient(), SeparatorOrient::Horizontal);
}

#[test]
fn blankness_follows_unicode_white_space() {
    assert!(is_blank(""));
    assert!(is_blank(" \t\n\u{00a0}\u{3000}"));
    assert!(!is_blank(" x "));
    assert!(same_text("abc", "abc"));
    assert!(!same_text("abc", "abd"));
    assert!(!same_text("abc", "ab"));
}

fn entry(name: &str) -> ViewEntry {
    ViewEntry {
        id: ViewId::new(name),
        ribbons: Vec::new(),
        ribbon_overrides: RibbonOverrideLayer::empty(),
        workspace: WorkspaceStack::new(WorkspaceLevel { id: Id::new(name) }),
    }
}

#[test]
fn the_first_view_becomes_active_and_activation_switches() {
    let mut router = ViewRouter::new();
    assert_eq!(router.active(), Err(ViewRouterError::NoActiveView));
    router.add_view(entry("scene"));
    router.add_view(entry("graph"));
    assert_eq!(router.active(), Ok(ViewId::new("scene")));
    assert_eq!(router.activate(ViewId::new("graph")), Ok(()));
    assert_eq!(router.active(), Ok(ViewId::new("graph")));
    assert_eq!(
        router.activate(ViewId::new("missing")),
        Err(ViewRouterError::UnknownView(ViewId::new("missing")))
    );
    assert_eq!(router.active(), Ok(ViewId::new("graph")));
}

#[test]
fn workspace_levels_push_and_pop_above_the_root() {
    let root = WorkspaceLevel { id: Id::new("root") };
    let module = WorkspaceLevel { id: Id::new("module") };
    let mut stack = WorkspaceStack::new(root);
    assert_eq!(stack.depth(), 0);
    assert_eq!(stack.current(), root);
    stack.push(module);
    assert_eq!(stack.depth(), 1);
    assert_eq!(stack.current(), module);
    assert_eq!(stack.pop(), Ok(module));
    assert_eq!(stack.pop(), Err(ViewRouterError::AtRootWorkspace));
    assert_eq!(stack.current(), root);

    let mut router = ViewRouter::new();
    let mut e = entry("scene");
    e.workspace.push(module);
    router.add_view(e);
    assert_eq!(router.active_workspace().map(|w| w.depth()), Ok(1));
    assert_eq!(router.pop_workspace(), Ok(module));
    assert_eq!(router.pop_workspace(), Err(ViewRouterError::AtRootWorkspace));
    assert_eq!(router.active_entry().map(|e| e.id), Ok(ViewId::new("scene")));
}
