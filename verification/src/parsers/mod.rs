//! Readers of the text that `zpool(8)` and `zfs(8)` print.
pub mod status;

pub use self::status::StdoutParser;
pub mod zfs;

pub use self::zfs::ZfsParser;
