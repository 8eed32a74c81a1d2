//! A reconciler that keeps a directory of symlinks in sync with a
//! time-windowed activation policy: named sources (directories of files) are
//! exposed through per-file links in a shared active directory only while the
//! time of day falls inside one of their configured windows.

pub mod config;
pub mod reconcile;
pub mod source;
pub mod time;
