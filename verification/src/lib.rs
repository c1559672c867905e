//! A live-updating document viewer core: it tracks one source text file,
//! renders it into a self-contained HTML document on every change, and keeps
//! the displayed view in step with the file while preserving the viewer's
//! scroll position across reloads.

pub mod control;
pub mod coordinator;
pub mod debounce;
pub mod registry;
pub mod render;
pub mod signal;
