//! Workspace reconciliation and layout for a tiling window manager's status bar.
//!
//! The window manager reports a sparse, unordered set of workspaces. This crate
//! parses their names, fills the gaps with placeholder entries, orders them by the
//! configured screen ranks, assigns each a pixel interval, and maps pointer clicks
//! back to a workspace-switch command. Beside that it holds the decisions of the
//! bar's other monitors (battery, clock, memory, volume) and of the event pump that
//! follows the window manager.

pub mod decimal;
pub mod ident;
pub mod screens;
pub mod reconcile;
pub mod layout;
pub mod hit;
pub mod snapshot;
pub mod pump;
pub mod laws;
pub mod monitor;
pub mod config;
pub mod clock;
pub mod battery;
pub mod color;
pub mod usage;
pub mod board;
pub mod music;
