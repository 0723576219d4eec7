//! Logic of a desktop tool that finds software projects on disk, reports how
//! much of each is build output, and deletes that output on request.
//!
//! Everything here works on plain values. Walking directories, deleting them,
//! reading the preference file and talking to windows are left to the caller,
//! which hands in what it read and carries out what these functions decide.

pub mod clean;
pub mod config;
pub mod db;
pub mod disk;
pub mod event;
pub mod kind;
pub mod locations;
pub mod menu;
pub mod paths;
pub mod project;
pub mod scan;
pub mod size;
pub mod text;
