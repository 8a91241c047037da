//! Third-party license artifacts: normalising scanner output, merging it with
//! the hand-written appendix, ordering the entries and rendering the notices.
pub mod entry;
pub mod sort;
pub mod merge;
pub mod normalize;
pub mod render;
pub mod laws;
