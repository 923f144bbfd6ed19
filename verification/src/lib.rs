//! Renders a grouped host configuration as styled, scrollable text for a
//! terminal panel.
//!
//! The library turns a read-only configuration store (groups of named entries,
//! each an ordered list of key/value settings) into an ordered sequence of
//! styled text lines. A display mode selects the scope: either the single
//! currently selected entry, or every entry of every group concatenated in
//! order. A scroll offset then picks the suffix of the composed lines that the
//! viewport shows. The surrounding application owns the store, the selection,
//! the mode and the offset, and hands the composed lines to a terminal
//! painter together with the panel frame description.

pub mod compose;
pub mod lines;
pub mod model;
pub mod style;
