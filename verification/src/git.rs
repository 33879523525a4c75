//! The state of the files of a repository as `git status` reports it.
pub mod order;
pub mod repository;
pub mod status;
