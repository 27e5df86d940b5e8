use mara_core::app_shell::{
    dispatch_app_shell_action, resolve_app_shell_chrome, resolve_app_shell_chrome_with_workspace,
    resolve_app_shell_ribbons, resolve_app_shell_ribbons_with_workspace_layers,
    validate_single_permanent_ribbon, validate_view_ribbons, validate_workspace_ribbons,
    AppMenuPolicy, AppShellChrome, AppShellError, WindowControlsPolicy,
};
use mara_core::ribbon::{
    resolve_slot_items, RibbonAction, RibbonCluster, RibbonEdge, RibbonOverrideLayer,
    RibbonOverridePolicy, RibbonScope, RibbonSlot, RibbonSlotDef, RibbonSlotId, RibbonSlotItem,
    RibbonSlotOverride, ViewId,
};
use mara_core::view::{
    RibbonActionError, RibbonActionResult, ViewEntry, ViewRouter, ViewRouterError, WorkspaceLevel,
    WorkspaceStack,
};
use mara_core::vocab::Id;

fn item(name: &'static str, action: RibbonAction) -> RibbonSlotItem {
    RibbonSlotItem::new(Id::new(name), "cube", name, name, action)
}

fn slot(name: &str, item: Option<RibbonSlotItem>, policy: RibbonOverridePolicy) -> RibbonSlot {
    RibbonSlot::new(RibbonSlotId::new(name), item, policy)
}

fn main_bar(slots: Vec<RibbonSlot>) -> RibbonSlotDef {
    RibbonSlotDef::new(Id::new("main"), RibbonScope::Permanent, RibbonEdge::Top, RibbonCluster::Start, slots)
}

fn entry(name: &str, ribbons: Vec<RibbonSlotDef>, overrides: Vec<RibbonSlotOverride>) -> ViewEntry {
    ViewEntry {
        id: ViewId::new(name),
        ribbons,
        ribbon_overrides: RibbonOverrideLayer::new(overrides),
        workspace: WorkspaceStack::new(WorkspaceLevel { id: Id::new(name).with("root") }),
    }
}

fn item_ids(items: &[RibbonSlotItem]) -> Vec<Id> {
    items.iter().map(|i| i.id).collect()
}

fn router_with(view: ViewEntry) -> ViewRouter {
    let mut router = ViewRouter::new();
    router.add_view(view);
    router
}

#[test]
fn chrome_injects_app_menu_first_and_close_last() {
    let bar = main_bar(vec![slot("tools", Some(item("tools", RibbonAction::Noop)), RibbonOverridePolicy::Fixed)]);
    let chrome = AppShellChrome::new(bar);
    let router = router_with(entry("scene", Vec::new(), Vec::new()));

    let res = resolve_app_shell_chrome(&router, &chrome).expect("valid chrome resolves");
    assert_eq!(res.ribbons.len(), 1);
    assert_eq!(res.ribbons[0].id, Id::new("main"));
    assert_eq!(
        item_ids(&res.ribbons[0].items),
        vec![Id::new("system.app_menu.item"), Id::new("tools"), Id::new("system.close_app")]
    );
    assert_eq!(res.ribbons[0].items[0].action, RibbonAction::OpenAppMenu);
    assert_eq!(res.ribbons[0].items[2].action, RibbonAction::CloseApp);

    let bare = AppShellChrome::new(main_bar(Vec::new())).without_app_menu().without_window_controls();
    assert_eq!(bare.app_menu_policy(), AppMenuPolicy::Hidden);
    assert_eq!(bare.window_controls_policy(), WindowControlsPolicy::Hidden);
    let res = resolve_app_shell_chrome(&router, &bare).expect("valid chrome resolves");
    assert!(res.ribbons[0].items.is_empty());
}

#[test]
fn declared_builtin_slots_are_not_duplicated() {
    let custom_close = item("custom.close", RibbonAction::CloseApp);
    let bar = main_bar(vec![slot("system.close_or_restore", Some(custom_close), RibbonOverridePolicy::Overridable)]);
    let chrome = AppShellChrome::new(bar).without_app_menu();
    assert!(!chrome.app_menu_enabled());
    assert!(chrome.window_controls_enabled());
    let defs = chrome.permanent_ribbon_defs();
    assert_eq!(defs.len(), 1);
    assert_eq!(defs[0].slots.len(), 1);
    assert_eq!(chrome.permanent_ribbons().len(), 1);
    assert_eq!(chrome.main_bar().id, Id::new("main"));
}

#[test]
fn view_overrides_replace_or_hide_overridable_slots_only() {
    let bar = main_bar(vec![
        slot("fixed", Some(item("fixed", RibbonAction::Noop)), RibbonOverridePolicy::Fixed),
        slot("swap", Some(item("swap.default", RibbonAction::Noop)), RibbonOverridePolicy::Overridable),
        slot("hide", Some(item("hide.default", RibbonAction::Noop)), RibbonOverridePolicy::Overridable),
    ]);
    let overrides = vec![
        RibbonSlotOverride { slot: RibbonSlotId::new("fixed"), item: Some(item("fixed.override", RibbonAction::Noop)) },
        RibbonSlotOverride { slot: RibbonSlotId::new("swap"), item: Some(item("swap.view", RibbonAction::Noop)) },
        RibbonSlotOverride { slot: RibbonSlotId::new("hide"), item: None },
    ];
    let router = router_with(entry("scene", Vec::new(), overrides));

    let res = resolve_app_shell_ribbons(&router, &[bar]).expect("resolves");
    assert_eq!(item_ids(&res.ribbons[0].items), vec![Id::new("fixed"), Id::new("swap.view")]);
}

#[test]
fn deepest_workspace_layer_wins() {
    let bar = main_bar(vec![slot("swap", Some(item("swap.default", RibbonAction::Noop)), RibbonOverridePolicy::Overridable)]);
    let view = entry(
        "scene",
        Vec::new(),
        vec![RibbonSlotOverride { slot: RibbonSlotId::new("swap"), item: Some(item("swap.view", RibbonAction::Noop)) }],
    );
    let router = router_with(view);
    let layers = vec![
        RibbonOverrideLayer::new(vec![RibbonSlotOverride { slot: RibbonSlotId::new("swap"), item: Some(item("swap.l1", RibbonAction::Noop)) }]),
        RibbonOverrideLayer::empty(),
        RibbonOverrideLayer::new(vec![RibbonSlotOverride { slot: RibbonSlotId::new("swap"), item: Some(item("swap.l3", RibbonAction::Noop)) }]),
    ];
    let res = resolve_app_shell_ribbons_with_workspace_layers(&router, &[bar.duplicate()], &layers).expect("resolves");
    assert_eq!(item_ids(&res.ribbons[0].items), vec![Id::new("swap.l3")]);

    let res = resolve_app_shell_ribbons_with_workspace_layers(&router, &[bar], &layers[..2]).expect("resolves");
    assert_eq!(item_ids(&res.ribbons[0].items), vec![Id::new("swap.l1")]);
}

#[test]
fn entering_a_workspace_turns_close_into_back_and_pop_restores_it() {
    let chrome = AppShellChrome::new(main_bar(Vec::new())).without_app_menu();
    let mut view = entry("scene", Vec::new(), Vec::new());
    view.workspace.push(WorkspaceLevel { id: Id::new("module") });
    let mut router = router_with(view);

    let res = resolve_app_shell_chrome(&router, &chrome).expect("resolves");
    assert_eq!(item_ids(&res.ribbons[0].items), vec![Id::new("system.restore_workspace")]);
    assert_eq!(res.ribbons[0].items[0].action, RibbonAction::PopWorkspace);

    assert_eq!(dispatch_app_shell_action(&mut router, RibbonAction::PopWorkspace), Ok(RibbonActionResult::Handled));
    let res = resolve_app_shell_chrome(&router, &chrome).expect("resolves");
    assert_eq!(item_ids(&res.ribbons[0].items), vec![Id::new("system.close_app")]);

    assert_eq!(
        dispatch_app_shell_action(&mut router, RibbonAction::PopWorkspace),
        Err(AppShellError::Action(RibbonActionError::View(ViewRouterError::AtRootWorkspace)))
    );
}

#[test]
fn actions_are_handled_or_forwarded() {
    let mut router = router_with(entry("scene", Vec::new(), Vec::new()));
    assert_eq!(dispatch_app_shell_action(&mut router, RibbonAction::Noop), Ok(RibbonActionResult::Handled));
    let cmd = RibbonAction::Command(Id::new("save"));
    assert_eq!(dispatch_app_shell_action(&mut router, cmd), Ok(RibbonActionResult::Forward(cmd)));
    assert_eq!(
        dispatch_app_shell_action(&mut router, RibbonAction::CloseApp),
        Ok(RibbonActionResult::Forward(RibbonAction::CloseApp))
    );

    let mut empty = ViewRouter::new();
    assert_eq!(
        dispatch_app_shell_action(&mut empty, RibbonAction::PopWorkspace),
        Err(AppShellError::Action(RibbonActionError::View(ViewRouterError::NoActiveView)))
    );
}

#[test]
fn permanent_ribbons_are_validated() {
    assert_eq!(validate_single_permanent_ribbon(&[]), Err(AppShellError::MissingPermanentRibbon));
    assert_eq!(
        validate_single_permanent_ribbon(&[main_bar(Vec::new()), main_bar(Vec::new())]),
        Err(AppShellError::MultiplePermanentRibbons { count: 2 })
    );
    let side = RibbonSlotDef::new(Id::new("side"), RibbonScope::Permanent, RibbonEdge::Left, RibbonCluster::Start, Vec::new());
    assert_eq!(
        validate_single_permanent_ribbon(&[side]),
        Err(AppShellError::PermanentRibbonNotTop { id: Id::new("side"), edge: RibbonEdge::Left })
    );
    let mut droppable = main_bar(Vec::new());
    droppable.accepts = &["icon"];
    assert_eq!(
        validate_single_permanent_ribbon(&[droppable]),
        Err(AppShellError::PermanentRibbonMustBeFixed { id: Id::new("main") })
    );
    assert_eq!(validate_single_permanent_ribbon(&[main_bar(Vec::new())]), Ok(()));

    let router = router_with(entry("scene", Vec::new(), Vec::new()));
    assert_eq!(resolve_app_shell_ribbons(&router, &[]).err(), Some(AppShellError::MissingPermanentRibbon));
    assert_eq!(
        resolve_app_shell_ribbons(&ViewRouter::new(), &[main_bar(Vec::new())]).err(),
        Some(AppShellError::View(ViewRouterError::NoActiveView))
    );
}

#[test]
fn view_and_workspace_ribbons_must_match_the_active_scope() {
    let scene = ViewId::new("scene");
    let ours = RibbonSlotDef::new(Id::new("ours"), RibbonScope::View(scene), RibbonEdge::Left, RibbonCluster::Start, Vec::new());
    let theirs = RibbonSlotDef::new(Id::new("theirs"), RibbonScope::View(ViewId::new("graph")), RibbonEdge::Left, RibbonCluster::Start, Vec::new());
    assert_eq!(validate_view_ribbons(scene, &[ours.duplicate()]), Ok(()));
    assert_eq!(
        validate_view_ribbons(scene, &[ours.duplicate(), theirs.duplicate()]),
        Err(AppShellError::ViewRibbonWrongScope { id: Id::new("theirs") })
    );

    let ws = Id::new("ws");
    let ws_ribbon = RibbonSlotDef::new(Id::new("ws.r"), RibbonScope::WorkspaceLevel(ws), RibbonEdge::Right, RibbonCluster::End, Vec::new());
    assert_eq!(validate_workspace_ribbons(ws, &[ws_ribbon.duplicate()]), Ok(()));
    assert_eq!(
        validate_workspace_ribbons(Id::new("elsewhere"), &[ws_ribbon]),
        Err(AppShellError::WorkspaceRibbonWrongScope { id: Id::new("ws.r") })
    );

    let router = router_with(entry("scene", vec![theirs], Vec::new()));
    let chrome = AppShellChrome::new(main_bar(Vec::new()));
    assert_eq!(
        resolve_app_shell_chrome(&router, &chrome).err(),
        Some(AppShellError::ViewRibbonWrongScope { id: Id::new("theirs") })
    );
}

#[test]
fn view_and_workspace_ribbons_resolve_after_the_main_bar() {
    let scene = ViewId::new("scene");
    let tool = slot("pen", Some(item("pen", RibbonAction::Command(Id::new("pen.cmd")))), RibbonOverridePolicy::Fixed);
    let view_ribbon = RibbonSlotDef::new(Id::new("tools"), RibbonScope::View(scene), RibbonEdge::Left, RibbonCluster::Middle, vec![tool]);
    let router = router_with(entry("scene", vec![view_ribbon], Vec::new()));
    let ws_id = Id::new("scene").with("root");
    let ws_ribbon = RibbonSlotDef::new(Id::new("ws.r"), RibbonScope::WorkspaceLevel(ws_id), RibbonEdge::Right, RibbonCluster::End, Vec::new());
    let chrome = AppShellChrome::new(main_bar(Vec::new()));

    let res = resolve_app_shell_chrome_with_workspace(&router, &chrome, &[ws_ribbon], &[]).expect("resolves");
    let ids: Vec<Id> = res.ribbons.iter().map(|r| r.id).collect();
    assert_eq!(ids, vec![Id::new("main"), Id::new("tools"), Id::new("ws.r")]);
    assert_eq!(item_ids(&res.ribbons[1].items), vec![Id::new("pen")]);

    let painted = res.as_slot_ribbons();
    assert_eq!(painted.len(), 3);
    assert_eq!(painted[1].edge, RibbonEdge::Left);
    assert_eq!(item_ids(&painted[1].items), vec![Id::new("pen")]);
}

#[test]
fn slot_resolution_prefers_the_last_override_of_the_deepest_layer() {
    let s = slot("s", Some(item("default", RibbonAction::Noop)), RibbonOverridePolicy::Overridable);
    let layer = RibbonOverrideLayer::new(vec![
        RibbonSlotOverride { slot: RibbonSlotId::new("s"), item: Some(item("first", RibbonAction::Noop)) },
        RibbonSlotOverride { slot: RibbonSlotId::new("s"), item: Some(item("second", RibbonAction::Noop)) },
    ]);
    assert_eq!(item_ids(&resolve_slot_items(&s, &[layer.duplicate()])), vec![Id::new("second")]);
    assert_eq!(item_ids(&resolve_slot_items(&s, &[])), vec![Id::new("default")]);
    let unrelated = RibbonOverrideLayer::new(vec![RibbonSlotOverride { slot: RibbonSlotId::new("t"), item: None }]);
    assert_eq!(item_ids(&resolve_slot_items(&s, &[layer, unrelated])), vec![Id::new("second")]);
    assert!(RibbonEdge::Left.is_vertical());
    assert!(!RibbonEdge::Bottom.is_vertical());
}

#[test]
fn leaving_a_workspace_changes_only_the_active_stack() {
    let mut scene = entry("scene", Vec::new(), vec![RibbonSlotOverride { slot: RibbonSlotId::new("s"), item: None }]);
    scene.workspace.push(WorkspaceLevel { id: Id::new("module") });
    let mut graph = entry("graph", Vec::new(), Vec::new());
    graph.workspace.push(WorkspaceLevel { id: Id::new("g.module") });
    let mut router = ViewRouter::new();
    router.add_view(scene);
    router.add_view(graph);

    assert_eq!(dispatch_app_shell_action(&mut router, RibbonAction::PopWorkspace), Ok(RibbonActionResult::Handled));
    assert_eq!(router.active_workspace().map(|w| w.depth()), Ok(0));
    assert_eq!(router.active_entry().map(|e| e.ribbon_overrides.overrides.len()), Ok(1));
    assert_eq!(router.activate(ViewId::new("graph")), Ok(()));
    assert_eq!(router.active_workspace().map(|w| w.depth()), Ok(1));
}
