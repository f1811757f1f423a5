//! The UI-state core of an IDE-style browser shell: resizable panel extents,
//! per-handle drag tracking, global keyboard shortcuts, a toast queue and the
//! visibility flags that decide which panels are shown.

pub mod decimal;
pub mod dimension;
pub mod drag;
pub mod layout;
pub mod shell;
pub mod shortcuts;
pub mod toasts;
pub mod types;
