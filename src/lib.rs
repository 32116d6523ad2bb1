//! Disposal of duplicate files: choose, for each group of identical files, which
//! ones to keep, and work out what to do with the others.
pub mod text;
pub mod resolve;
pub mod dispose;
pub mod work;

pub use dispose::{Disposal, HDDError, PathOutcome, destination_for, join_destination, plan_path, settle};
pub use resolve::{remove_by_count, remove_by_preference, resolve};
pub use work::{Args, Duplicates, WorkItem};
