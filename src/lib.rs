//! Previews of the items that a fuzzy finder's providers list: resolving a
//! result line into what to show, assembling the excerpt with its header,
//! context block, highlights and scrollbar, and caching the result.
pub mod cache;
pub mod context;
pub mod highlight;
pub mod lines;
pub mod preview;
pub mod render;
pub mod scrollbar;
pub mod target;
pub mod text;
