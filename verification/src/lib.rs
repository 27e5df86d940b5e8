//! Host-neutral core of the Mara editor UI kit: stable ids, the
//! frame-to-frame state store, focus traversal, the command palette's
//! keyboard and matching rules, app-shell ribbon resolution, and the
//! small policies (defaults enforcement, fullscreen ownership, tab
//! resolution) that decide what a host paints.

pub mod app_shell;
pub mod cache;
pub mod command_palette;
pub mod container;
pub mod debug;
pub mod embed;
pub mod enforce;
pub mod extras;
pub mod focus;
pub mod icons;
pub mod input;
pub mod layer;
pub mod memory;
pub mod ribbon;
pub mod text;
pub mod view;
pub mod vocab;
