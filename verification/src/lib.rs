//! Builds desktop-entry launcher files: renders the entry text from a
//! validated request, derives a safe filename from the entry name, resolves
//! the destination directory, and decides the overwrite-confirmation flow.

pub mod chars;
pub mod entry;
pub mod paths;
pub mod plan;
pub mod writer;
