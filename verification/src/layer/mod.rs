//! Paint z-ordering: Mara layers and numeric tiers, and the host paint
//! order each one lands in.
//!
//! Tier numbers run `1..=1000`; a higher tier paints on top. Tiers map
//! onto the host's coarse paint orders as follows:
//!
//! | tier      | order        |
//! | --------- | ------------ |
//! | 0–40      | `Middle`     |
//! | 41–70     | `Foreground` |
//! | 71–95     | `Tooltip`    |
//! | 96 and up | `Debug`      |
//!
//! The tier is folded into each layer's id, so two tiers never resolve
//! to the same sublayer.

pub mod z;

use crate::vocab::{id_of, id_with_u64, law_number_salts_keep_ids_apart, law_salting_keeps_parents_apart, Id};
use vstd::prelude::*;

verus! {

/// The host's coarse paint orders, back to front.
#[derive(Clone, Copy, Debug, PartialEq, Eq, PartialOrd, Ord, Hash, Structural)]
pub enum Order {
    Background,
    Middle,
    Foreground,
    Tooltip,
    Debug,
}

/// Position of an order in the back-to-front stack.
pub open spec fn order_rank(o: Order) -> int {
    match o {
        Order::Background => 0,
        Order::Middle => 1,
        Order::Foreground => 2,
        Order::Tooltip => 3,
        Order::Debug => 4,
    }
}

/// Mara's own paint layers, back to front.
#[derive(Clone, Copy, Debug, PartialEq, Eq, Hash, Structural)]
pub enum Layer {
    Background,
    Middle,
    Foreground,
    /// Top transient UI: palettes, popups.
    Overlay,
}

/// Position of a layer in Mara's back-to-front stack.
pub open spec fn layer_rank(l: Layer) -> int {
    match l {
        Layer::Background => 0,
        Layer::Middle => 1,
        Layer::Foreground => 2,
        Layer::Overlay => 3,
    }
}

impl Layer {
    /// The layer's position in the back-to-front stack.
    pub fn rank(self) -> (r: u8)
        ensures
            r == layer_rank(self),
    {
        match self {
            Layer::Background => 0,
            Layer::Middle => 1,
            Layer::Foreground => 2,
            Layer::Overlay => 3,
        }
    }
}

/// The paint order a tier lands in.
pub open spec fn spec_order_for(tier: u16) -> Order {
    if tier <= 40 {
        Order::Middle
    } else if tier <= 70 {
        Order::Foreground
    } else if tier <= 95 {
        Order::Tooltip
    } else {
        Order::Debug
    }
}

/// Map a tier to its paint order. Tier 0 reads as tier 1; tiers above
/// 1000 read as 1000.
pub fn order_for(tier: u16) -> (o: Order)
    ensures
        o == spec_order_for(tier),
{
    if tier <= 40 {
        Order::Middle
    } else if tier <= 70 {
        Order::Foreground
    } else if tier <= 95 {
        Order::Tooltip
    } else {
        Order::Debug
    }
}

/// The host paint order a Mara layer paints in. Overlays are top
/// transient UI, so they paint in the tooltip order and stay above
/// foreground scrims.
pub open spec fn spec_egui_order_for_layer(layer: Layer) -> Order {
    match layer {
        Layer::Background => Order::Background,
        Layer::Middle => Order::Middle,
        Layer::Foreground => Order::Foreground,
        Layer::Overlay => Order::Tooltip,
    }
}

/// The host paint order for a Mara layer.
pub fn egui_order_for_layer(layer: Layer) -> (o: Order)
    ensures
        o == spec_egui_order_for_layer(layer),
{
    match layer {
        Layer::Background => Order::Background,
        Layer::Middle => Order::Middle,
        Layer::Foreground => Order::Foreground,
        Layer::Overlay => Order::Tooltip,
    }
}

/// A sublayer: the paint order plus an id unique to tier and salt.
#[derive(Clone, Copy, Debug, PartialEq, Eq, Hash, Structural)]
pub struct LayerKey {
    pub order: Order,
    pub id: Id,
}

/// The sublayer for `tier`, salted with `salt`.
pub open spec fn spec_layer_id(salt: Id, tier: u16) -> LayerKey {
    LayerKey {
        order: spec_order_for(tier),
        id: id_with_u64(id_with_u64(id_of("mara_z"@), tier as u64), salt.value),
    }
}

/// The sublayer for `tier`, salted with `salt`. The tier is folded into
/// the id, so callers at different tiers never share a sublayer.
pub fn layer_id(salt: Id, tier: u16) -> (k: LayerKey)
    ensures
        k == spec_layer_id(salt, tier),
{
    let base = Id::new("mara_z").with_u64(tier as u64);
    LayerKey { order: order_for(tier), id: base.with_id(salt) }
}

/// A layer that ranks higher never paints in a lower host order.
pub proof fn law_layer_order_is_monotonic(a: Layer, b: Layer)
    requires
        layer_rank(a) <= layer_rank(b),
    ensures
        order_rank(spec_egui_order_for_layer(a)) <= order_rank(spec_egui_order_for_layer(b)),
{
}

/// A higher tier never paints in a lower host order.
pub proof fn law_tier_order_is_monotonic(a: u16, b: u16)
    requires
        a <= b,
    ensures
        order_rank(spec_order_for(a)) <= order_rank(spec_order_for(b)),
{
}


/// Sublayers never collide: at one tier, different salts give
/// different ids, and one salt at different tiers gives different ids.
pub proof fn law_layer_ids_keep_salts_and_tiers_apart(salt_a: Id, tier_a: u16, salt_b: Id, tier_b: u16)
    requires
        (tier_a == tier_b && salt_a != salt_b) || (salt_a == salt_b && tier_a != tier_b),
    ensures
        spec_layer_id(salt_a, tier_a).id != spec_layer_id(salt_b, tier_b).id,
{
    let base = id_of("mara_z"@);
    if tier_a == tier_b {
        law_number_salts_keep_ids_apart(id_with_u64(base, tier_a as u64), salt_a.value, salt_b.value);
    } else {
        law_number_salts_keep_ids_apart(base, tier_a as u64, tier_b as u64);
        law_salting_keeps_parents_apart(
            id_with_u64(base, tier_a as u64),
            id_with_u64(base, tier_b as u64),
            salt_a.value,
        );
    }
}

} // verus!
