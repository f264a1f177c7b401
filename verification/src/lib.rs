//! Position-tracking text-emission engine for a pretty-printer.
//!
//! A [`writer::Writer`] turns a stream of formatting decisions (indent
//! changes, line breaks, text fragments) into a persistent, structurally
//! shared log of emission items while tracking line, column and indentation
//! state. Snapshots of the whole state are O(1) to take and to restore, so a
//! layout search can speculate and backtrack cheaply. Once a layout is
//! chosen, [`print_write_items::print_write_items`] renders the finalized
//! item sequence into text.

pub mod collections;
pub mod laws;
pub mod print_write_items;
pub mod write_item;
pub mod writer;

pub use print_write_items::print_write_items;
pub use print_write_items::PrintWriteItemsOptions;
pub use write_item::StringContainer;
pub use write_item::WriteItem;
pub use writer::Writer;
pub use writer::WriterOptions;
pub use writer::WriterState;
