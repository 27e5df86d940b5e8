//! The node-graph wrapper's fullscreen identity.

use crate::embed::{fullscreen_owner, maximize_state_key_for_id, spec_fullscreen_owner};
use crate::memory::MaraMemory;
use crate::vocab::{id_of, id_with_u64, Id};
use vstd::prelude::*;

verus! {

/// The maximise key the node-graph wrapper registers.
pub open spec fn spec_graph_fullscreen_key() -> Id {
    id_with_u64(id_of("mara_maximize"@), id_of("mara_node_graph_widget"@).value)
}

/// The maximise-state key the node-graph wrapper registers; compare
/// against the fullscreen owner to tell whether the graph is the one
/// in fullscreen.
pub fn graph_fullscreen_key() -> (k: Id)
    ensures
        k == spec_graph_fullscreen_key(),
{
    maximize_state_key_for_id(Id::new("mara_node_graph_widget"))
}

/// `true` while the node-graph widget holds the fullscreen overlay.
pub fn is_graph_fullscreen(memory: &MaraMemory, pass: u64) -> (r: bool)
    ensures
        r == (spec_fullscreen_owner(memory.temp(), pass) == Some(spec_graph_fullscreen_key())),
{
    match fullscreen_owner(memory, pass) {
        Some(owner) => owner == graph_fullscreen_key(),
        None => false,
    }
}

} // verus!
