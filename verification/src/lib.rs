//! Core logic of `cabinet`, a utility that reorganises the files of one
//! directory into subfolders chosen by file attributes: modification date,
//! name pattern, size in kilobytes, or extension, plus a combined filter that
//! applies several of these at once.
//!
//! The library holds the pure logic: predicate filtering over directory
//! snapshots, date and size parsing, destination naming, the folder-reuse
//! decision and the move tally. The surrounding binary does the actual
//! directory listing, prompting and renaming, and hands this crate plain
//! values.

pub mod criteria;
pub mod dates;
pub mod entry;
pub mod errors;
pub mod filter;
pub mod naming;
pub mod provision;
pub mod report;
pub mod resolve;
pub mod sizes;
pub mod text;
pub mod tokens;
