use mara_core::embed::{
    begin_maximizable, finish_maximizable, fullscreen_owner, is_any_fullscreen,
    maximize_state_key, maximize_state_key_for_id, minimize_chip_suppressed, restore_fullscreen,
    set_fullscreen_minimize_chip_visible, NodeRegionSlot, OverlayOpts,
};
use mara_core::extras::graph::{graph_fullscreen_key, is_graph_fullscreen};
use mara_core::memory::MaraMemory;
use mara_core::ribbon::{RibbonAvoidance, RibbonCluster, RibbonEdge};
use mara_core::vocab::Id;

#[test]
fn maximize_state_key_uses_mara_id_vocabulary() {
    let key: Id = maximize_state_key("widget");

    assert_eq!(key, Id::pair("mara_maximize", "widget"));
}

#[derive(Clone, Copy, Debug, PartialEq)]
struct Rect {
    min: (f32, f32),
    max: (f32, f32),
}

impl Rect {
    fn from_min_size(min: (f32, f32), size: (f32, f32)) -> Rect {
        Rect { min, max: (min.0 + size.0, min.1 + size.1) }
    }
}

#[test]
fn node_region_nests_and_restores() {
    let mut slot = NodeRegionSlot::new();
    let outer = Rect::from_min_size((0.0, 0.0), (100.0, 100.0));
    let inner = Rect::from_min_size((10.0, 10.0), (20.0, 20.0));

    assert!(slot.current_node_region().is_none());
    slot.with_node_region(outer, |slot| {
        assert_eq!(slot.current_node_region(), Some(outer));
        slot.with_node_region(inner, |slot| {
            assert_eq!(slot.current_node_region(), Some(inner));
        });
        assert_eq!(slot.current_node_region(), Some(outer));
    });
    assert!(slot.current_node_region().is_none());
}


#[test]
fn a_maximised_widget_owns_the_screen_with_one_pass_of_hysteresis() {
    let mut memory = MaraMemory::new();
    let w = maximize_state_key("widget");

    let frame = begin_maximizable(&mut memory, w, 0);
    assert!(!frame.maximized);
    finish_maximizable(&mut memory, w, frame.maximized, true);

    let frame = begin_maximizable(&mut memory, w, 1);
    assert!(frame.maximized);
    assert!(!frame.some_other_maximized);
    assert_eq!(fullscreen_owner(&memory, 1), Some(w));
    assert_eq!(fullscreen_owner(&memory, 2), Some(w));
    assert_eq!(fullscreen_owner(&memory, 3), None);
    assert!(!is_any_fullscreen(&memory, 3));

    let other = maximize_state_key("other");
    let frame = begin_maximizable(&mut memory, other, 2);
    assert!(!frame.maximized);
    assert!(frame.some_other_maximized);
}

#[test]
fn a_restore_request_is_honoured_on_the_owners_next_render() {
    let mut memory = MaraMemory::new();
    let w = maximize_state_key("widget");
    finish_maximizable(&mut memory, w, false, true);
    let _ = begin_maximizable(&mut memory, w, 5);
    assert!(is_any_fullscreen(&memory, 5));

    assert!(restore_fullscreen(&mut memory, 6));
    let frame = begin_maximizable(&mut memory, w, 6);
    assert!(!frame.maximized);
    assert_eq!(fullscreen_owner(&memory, 6), None);

    let mut empty = MaraMemory::new();
    assert!(!restore_fullscreen(&mut empty, 0));
}

#[test]
fn the_minimize_chip_shows_unless_hidden() {
    let mut memory = MaraMemory::new();
    assert!(!minimize_chip_suppressed(&memory));
    set_fullscreen_minimize_chip_visible(&mut memory, false);
    assert!(minimize_chip_suppressed(&memory));
    set_fullscreen_minimize_chip_visible(&mut memory, true);
    assert!(!minimize_chip_suppressed(&memory));
}

#[test]
fn the_graph_widget_is_recognised_as_fullscreen_owner() {
    let mut memory = MaraMemory::new();
    let graph = graph_fullscreen_key();
    assert_eq!(graph, maximize_state_key_for_id(Id::new("mara_node_graph_widget")));
    assert!(!is_graph_fullscreen(&memory, 0));
    finish_maximizable(&mut memory, graph, false, true);
    let _ = begin_maximizable(&mut memory, graph, 0);
    assert!(is_graph_fullscreen(&memory, 0));
    assert!(!is_graph_fullscreen(&memory, 2));
}

#[test]
fn overlay_options_default_to_the_upper_right() {
    let opts = OverlayOpts::default();
    assert_eq!(opts.minimize_edge, RibbonEdge::Right);
    assert_eq!(opts.minimize_cluster, RibbonCluster::Start);
    assert_eq!(opts.content_avoidance, RibbonAvoidance::none());

    let avoid = RibbonAvoidance { top: true, bottom: false, left: false, right: true };
    let opts = OverlayOpts::minimize_at(RibbonEdge::Top, RibbonCluster::End).avoid_ribbons(avoid);
    assert_eq!(opts.minimize_edge, RibbonEdge::Top);
    assert_eq!(opts.minimize_cluster, RibbonCluster::End);
    assert_eq!(opts.content_avoidance, avoid);
}
