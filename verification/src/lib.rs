//! Skeleton computation for confusable-string detection, after the skeleton
//! algorithm of Unicode Technical Standard #39 ("Unicode Security
//! Mechanisms").
//!
//! A string's *skeleton* is a canonical, simplified character sequence such
//! that visually confusable strings (lookalike characters from different
//! scripts, styled mathematical letters, and so on) reduce to the same
//! skeleton. Two strings are *confusable* when their skeletons are equal.
pub mod data;
pub mod skeleton;
pub mod table;

pub use data::builtin_data_wf;
pub use data::builtin_entries;
pub use data::builtin_pool;
pub use data::default_table;
pub use skeleton::confusable;
pub use skeleton::skeleton_of;
pub use skeleton::PrototypeCharsIterator;
pub use skeleton::SkeletonChars;
pub use skeleton::UnicodeSkeleton;
pub use table::ConfusableEntry;
pub use table::ConfusablesTable;
