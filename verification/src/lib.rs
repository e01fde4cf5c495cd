//! Administration of ZFS pools and datasets: the decisions, argument lists and
//! text formats behind `zpool(8)`, `zfs(8)` and `libzfs_core`, with their
//! behaviour stated as contracts.

pub mod outside;
pub mod parsers;
pub mod nv;
pub mod path;
pub mod text;
pub mod zfs;
pub mod zpool;
