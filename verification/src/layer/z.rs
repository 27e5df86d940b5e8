//! Tiers the built-in pane, container and chrome stack paints on.
//! Callers may pass any `u16`; these are the canonical values, exposed
//! so outside code can place itself in the same stack without picking
//! conflicting numbers.

use vstd::prelude::*;

verus! {

/// Pane background fill. Lowest paintable tier.
pub const PANE_BG: u16 = 5;

/// Pane body content: pods, widgets, body text.
pub const PANE_CONTENT: u16 = 15;

/// Container chrome: borders, separators, drag handles.
pub const CONTAINER_CHROME: u16 = 25;

/// Container corner ticks, above the chrome so tab fills never cover them.
pub const CONTAINER_TICKS: u16 = 30;

/// Floating section icon overflowing the title strip.
pub const CONTAINER_FLOATING_ICON: u16 = 35;

/// Pane-level overlays: drag-reorder ghosts, dragged container previews.
pub const PANE_OVERLAY: u16 = 38;

/// Fullscreen / maximised container overlay.
pub const FULLSCREEN: u16 = 50;

/// The fullscreen overlay's own chrome.
pub const FULLSCREEN_UI: u16 = 55;

/// Command palette and global pickers, above fullscreen.
pub const COMMAND_PALETTE: u16 = 75;

/// Tooltips and hover popups.
pub const TOOLTIP: u16 = 85;

/// The debug inspector.
pub const INSPECTOR: u16 = 998;

/// Native window resize/move affordances, above every view.
pub const WINDOW_CHROME: u16 = 1000;

} // verus!
