//! Opt-in debug inspector flag.
//!
//! The host toggles the inspector globally; widgets tag the rects they
//! care about only while it is on.

use crate::memory::{spec_lookup, MaraMemory, MemoryKey, MemoryKind, MemoryValue};
use crate::vocab::{id_of, Id};
use vstd::prelude::*;

verus! {

fn enabled_id() -> (k: Id)
    ensures
        k == id_of("mara_debug_inspector_enabled"@),
{
    Id::new("mara_debug_inspector_enabled")
}

/// Where the frame's best (innermost hovered) tag is kept.
pub fn best_id() -> (k: Id)
    ensures
        k == id_of("mara_debug_inspector_best"@),
{
    Id::new("mara_debug_inspector_best")
}

/// Whether the inspector is on in a store (off unless switched on).
pub open spec fn spec_inspector_enabled(temp: Map<MemoryKey, MemoryValue>) -> bool {
    spec_lookup(temp, id_of("mara_debug_inspector_enabled"@), MemoryKind::Flag) == Some(
        MemoryValue::Flag(true),
    )
}

/// `true` when the inspector is on.
pub fn is_enabled(memory: &MaraMemory) -> (r: bool)
    ensures
        r == spec_inspector_enabled(memory.temp()),
{
    match memory.get_temp(enabled_id(), MemoryKind::Flag) {
        Some(MemoryValue::Flag(on)) => on,
        _ => false,
    }
}

/// Toggle the inspector overlay globally.
pub fn set_enabled(memory: &mut MaraMemory, on: bool)
    ensures
        final(memory).temp() == old(memory).temp().insert(
            (id_of("mara_debug_inspector_enabled"@), MemoryKind::Flag),
            MemoryValue::Flag(on),
        ),
        final(memory).persisted() == old(memory).persisted(),
        spec_inspector_enabled(final(memory).temp()) == on,
{
    memory.set_temp(enabled_id(), MemoryValue::Flag(on));
}

} // verus!
