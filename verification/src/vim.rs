//! What the status bar says about modal editing.
pub mod mode_indicator;
