//! Keeps a per-day scratch directory inside a git repository and a stable
//! "today" symlink pointing at it.
//!
//! The library holds the decisions of that job: naming the day's directory,
//! naming a collision-free backup for a displaced entry, planning how to
//! reconcile the link location with the desired target, and reading the
//! outcome of a `git init` run. The filesystem and subprocess work around
//! those decisions lives outside the library.

pub mod backup;
pub mod date;
pub mod gitrepo;
pub mod reconcile;

pub use backup::rename_to_avoid_collision;
pub use date::today_dir_name;
