//! A cacheable view of the world for a document compiler: project files,
//! packages, and the current date, behind a small set of queries.
//!
//! The heart is the [`cell::SlotCell`], which loads a file at most once per
//! compilation and processes it only when its fingerprint changes. A
//! [`slot::FileSlot`] holds two of them for one file, and the
//! [`world::SystemWorld`] holds the slots of all files, the main file, and
//! one sampled instant per compilation. [`package`] finds packages on disk
//! and fetches the ones that may be fetched. [`laws`] states what holds
//! across several calls.
//!
//! Reading the disk and fetching from the network are the caller's: they
//! arrive as closures, and each contract says what is handed to them, when
//! they are not called at all, and what is done with what they give back.

pub mod cell;
pub mod clock;
pub mod error;
pub mod export;
pub mod file;
pub mod laws;
pub mod output_template;
pub mod package;
pub mod path;
pub mod query;
pub mod slot;
pub mod table;
pub mod text;
pub mod world;
