//! What the three panes and the overlays show, as plain text and numbers.

pub mod format;
pub mod help;
pub mod chat;
pub mod detail;
pub mod browse;
pub mod pane;
pub mod overlay;
