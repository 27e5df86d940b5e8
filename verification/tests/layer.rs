use mara_core::layer::{egui_order_for_layer, layer_id, order_for, z, Layer, Order};
use mara_core::vocab::Id;

#[test]
fn egui_order_mapping_preserves_layer_rank() {
    let layers = [
        Layer::Background,
        Layer::Middle,
        Layer::Foreground,
        Layer::Overlay,
    ];
    for pair in layers.windows(2) {
        assert!(
            egui_order_for_layer(pair[0]) <= egui_order_for_layer(pair[1]),
            "egui order must be monotonic with Layer::rank"
        );
    }
}

#[test]
fn egui_backend_maps_mara_layers_to_host_orders() {
    assert_eq!(egui_order_for_layer(Layer::Background), Order::Background);
    assert_eq!(egui_order_for_layer(Layer::Foreground), Order::Foreground);
    assert_eq!(egui_order_for_layer(Layer::Middle), Order::Middle);
    assert_eq!(egui_order_for_layer(Layer::Overlay), Order::Tooltip);
}

#[test]
fn layer_ranks_run_back_to_front() {
    assert_eq!(Layer::Background.rank(), 0);
    assert_eq!(Layer::Middle.rank(), 1);
    assert_eq!(Layer::Foreground.rank(), 2);
    assert_eq!(Layer::Overlay.rank(), 3);
}

#[test]
fn tier_table_maps_boundaries() {
    assert_eq!(order_for(0), Order::Middle);
    assert_eq!(order_for(40), Order::Middle);
    assert_eq!(order_for(41), Order::Foreground);
    assert_eq!(order_for(70), Order::Foreground);
    assert_eq!(order_for(71), Order::Tooltip);
    assert_eq!(order_for(95), Order::Tooltip);
    assert_eq!(order_for(96), Order::Debug);
    assert_eq!(order_for(u16::MAX), Order::Debug);
    assert_eq!(order_for(z::COMMAND_PALETTE), Order::Tooltip);
    assert_eq!(order_for(z::FULLSCREEN), Order::Foreground);
    assert_eq!(order_for(z::INSPECTOR), Order::Debug);
}

#[test]
fn tiers_never_share_a_sublayer() {
    let salt = Id::new("salt");
    let a = layer_id(salt, z::PANE_CONTENT);
    let b = layer_id(salt, z::CONTAINER_CHROME);
    assert_eq!(a.order, b.order);
    assert_ne!(a.id, b.id);
    assert_eq!(a, layer_id(salt, z::PANE_CONTENT));
}
