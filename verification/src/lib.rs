//! A `/proc` file kept in memory, and the callback layer that serves it.
//!
//! - [`error`]: kernel error codes.
//! - [`uaccess`]: user buffers, as the bytes copied from or bound for user memory.
//! - [`proc_fs`]: seek modes, the open file, the handler trait and the callbacks of a proc entry.
//! - [`ram_file`]: the file itself: open, read, write and seek over one byte buffer.
//! - [`backing_data`], [`module`]: the module's storage, and its way from load to unload.
//! - [`laws`]: what holds across several operations.
//! - [`file_laws`], [`callback_laws`], [`module_laws`], [`part_laws`]: what each operation does, said
//!   of its inputs and results alone.

pub mod backing_data;
pub mod callback_laws;
pub mod error;
pub mod file_laws;
pub mod laws;
pub mod module;
pub mod module_laws;
pub mod part_laws;
pub mod proc_fs;
pub mod ram_file;
pub mod uaccess;
