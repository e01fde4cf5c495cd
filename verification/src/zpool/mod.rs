//! Everything needed to work with zpools: requests to create them, their
//! properties, the status that `zpool(8)` reports, and the errors it prints.
use vstd::prelude::*;

use crate::outside::{captures, decode_lossy, groups_view, io_error_is_not_found, regex_captures, utf8_lossy};

pub mod description;
pub mod open3;
pub mod properties;
pub mod topology;
pub mod update;
pub mod vdev;

pub use self::description::{Reason, Zpool, ZpoolBuilder};
pub use self::properties::{
    CacheType, FailMode, Health, PropPair, ZpoolProperties, ZpoolPropertiesWrite,
    ZpoolPropertiesWriteBuilder,
};
pub use self::topology::{CreateZpoolRequest, CreateZpoolRequestBuilder};
pub use self::vdev::{CreateVdevRequest, Disk, DiskBuilder, ErrorStatistics, Vdev, VdevBuilder, VdevType};



verus! {

/// Error kinds. This type is used across the zpool module.
#[derive(Debug)]
pub enum ZpoolError {
    /// `zpool` not found in path. Open3 specific error.
    CmdNotFound,
    /// Any other I/O error while running `zpool`.
    Io(std::io::Error),
    /// Trying to manipulate non-existent pool.
    PoolNotFound,
    /// Given topology failed validation.
    InvalidTopology,
    /// Trying to create new Zpool, but one or more vdevs already used in another pool.
    VdevReuse(String, String),
    /// Failed to parse value. Ideally you never see it, if you see it - it's a bug.
    ParseError,
    /// Device used in CreateZpoolRequest is smaller than 64M
    DeviceTooSmall,
    /// Permission denied to create zpool.
    PermissionDenied,
    /// Trying to pause/stop scrub that either never started or already completed
    NoActiveScrubs,
    /// Trying to take only device offline.
    NoValidReplicas,
    /// A vdev name that is not one of the raid types.
    UnknownRaidType(String),
    /// Don't know (yet) how to categorize this error.
    Other(String),
}

/// Identification of an error without its payload.
#[derive(Clone, Copy, PartialEq, Eq, Debug, Structural)]
pub enum ZpoolErrorKind {
    /// `zpool` not found in path. Open3 specific error.
    CmdNotFound,
    Io,
    /// Trying to manipulate non-existent pool.
    PoolNotFound,
    /// At least one vdev points to incorrect location.
    DeviceNotFound,
    /// Trying to create new Zpool, but one or more vdevs already used in another pool.
    VdevReuse,
    /// Given topology failed validation.
    InvalidTopology,
    /// Failed to parse value.
    ParseError,
    /// Device used in CreateZpoolRequest is smaller than 64M
    DeviceTooSmall,
    /// Permission denied to create zpool.
    PermissionDenied,
    /// Trying to pause/stop scrub that either never started or already completed
    NoActiveScrubs,
    /// Trying to take only device offline.
    NoValidReplicas,
    /// Don't know (yet) how to categorize this error.
    Other,
}

/// Type alias to `Result<T, ZpoolError>`.
pub type ZpoolResult<T> = Result<T, ZpoolError>;

pub open spec fn spec_error_kind(e: ZpoolError) -> ZpoolErrorKind {
    match e {
        ZpoolError::CmdNotFound => ZpoolErrorKind::CmdNotFound,
        ZpoolError::Io(_) => ZpoolErrorKind::Io,
        ZpoolError::PoolNotFound => ZpoolErrorKind::PoolNotFound,
        ZpoolError::InvalidTopology => ZpoolErrorKind::InvalidTopology,
        ZpoolError::VdevReuse(_, _) => ZpoolErrorKind::VdevReuse,
        ZpoolError::ParseError => ZpoolErrorKind::ParseError,
        ZpoolError::DeviceTooSmall => ZpoolErrorKind::DeviceTooSmall,
        ZpoolError::PermissionDenied => ZpoolErrorKind::PermissionDenied,
        ZpoolError::NoActiveScrubs => ZpoolErrorKind::NoActiveScrubs,
        ZpoolError::NoValidReplicas => ZpoolErrorKind::NoValidReplicas,
        ZpoolError::UnknownRaidType(_) => ZpoolErrorKind::Other,
        ZpoolError::Other(_) => ZpoolErrorKind::Other,
    }
}

impl ZpoolError {
    /// The kind of this error.
    pub fn kind(&self) -> (r: ZpoolErrorKind)
        ensures
            r == spec_error_kind(*self),
    {
        match self {
            ZpoolError::CmdNotFound => ZpoolErrorKind::CmdNotFound,
            ZpoolError::Io(_) => ZpoolErrorKind::Io,
            ZpoolError::PoolNotFound => ZpoolErrorKind::PoolNotFound,
            ZpoolError::InvalidTopology => ZpoolErrorKind::InvalidTopology,
            ZpoolError::VdevReuse(_, _) => ZpoolErrorKind::VdevReuse,
            ZpoolError::ParseError => ZpoolErrorKind::ParseError,
            ZpoolError::DeviceTooSmall => ZpoolErrorKind::DeviceTooSmall,
            ZpoolError::PermissionDenied => ZpoolErrorKind::PermissionDenied,
            ZpoolError::NoActiveScrubs => ZpoolErrorKind::NoActiveScrubs,
            ZpoolError::NoValidReplicas => ZpoolErrorKind::NoValidReplicas,
            ZpoolError::UnknownRaidType(_) => ZpoolErrorKind::Other,
            ZpoolError::Other(_) => ZpoolErrorKind::Other,
        }
    }

    /// The error for an I/O failure of running `zpool`: a missing command
    /// becomes `CmdNotFound`, anything else is kept as `Io`.
    pub fn from_io(not_found: bool, err: std::io::Error) -> (r: ZpoolError)
        ensures
            not_found ==> r is CmdNotFound,
            !not_found ==> r == ZpoolError::Io(err),
    {
        if not_found {
            ZpoolError::CmdNotFound
        } else {
            ZpoolError::Io(err)
        }
    }
}

impl From<std::io::Error> for ZpoolError {
    fn from(err: std::io::Error) -> ZpoolError {
        let not_found = io_error_is_not_found(&err);
        ZpoolError::from_io(not_found, err)
    }
}

impl vstd::std_specs::convert::FromSpecImpl<std::io::Error> for ZpoolError {
    open spec fn obeys_from_spec() -> bool {
        false
    }

    /// Not claimed (see `obeys_from_spec`): which variant comes out rests on
    /// the error's kind, which `from` reads through `io_error_is_not_found`.
    open spec fn from_spec(v: std::io::Error) -> ZpoolError {
        ZpoolError::Io(v)
    }
}

impl From<std::num::ParseIntError> for ZpoolError {
    fn from(_err: std::num::ParseIntError) -> ZpoolError {
        ZpoolError::ParseError
    }
}

impl vstd::std_specs::convert::FromSpecImpl<std::num::ParseIntError> for ZpoolError {
    open spec fn obeys_from_spec() -> bool {
        true
    }

    open spec fn from_spec(v: std::num::ParseIntError) -> ZpoolError {
        ZpoolError::ParseError
    }
}

impl From<std::num::ParseFloatError> for ZpoolError {
    fn from(_err: std::num::ParseFloatError) -> ZpoolError {
        ZpoolError::ParseError
    }
}

impl vstd::std_specs::convert::FromSpecImpl<std::num::ParseFloatError> for ZpoolError {
    open spec fn obeys_from_spec() -> bool {
        true
    }

    open spec fn from_spec(v: std::num::ParseFloatError) -> ZpoolError {
        ZpoolError::ParseError
    }
}

/// `zpool create` on Linux when a vdev is listed twice or is in use by md/lvm.
pub const RE_REUSE_VDEV_ZOL: &'static str = r"cannot create \S+: one or more vdevs refer to the same device, or one of\nthe devices is part of an active md or lvm device\n";
/// A vdev that is part of an active pool.
pub const RE_REUSE_VDEV: &'static str = r"following errors:\n(\S+) is part of active pool '(\S+)'";
/// A vdev that is part of a potentially active pool.
pub const RE_REUSE_VDEV2: &'static str = r"invalid vdev specification\nuse '-f' to override the following errors:\n(\S+) is part of potentially active pool '(\S+)'\n?";
/// A device under the minimum size.
pub const RE_TOO_SMALL: &'static str = r"cannot create \S+: one or more devices is less than the minimum size \S+";
/// Not allowed to create a pool.
pub const RE_PERMISSION_DENIED: &'static str = r"cannot create \S+: permission denied\n";
/// Pausing or cancelling a scrub that does not run.
pub const RE_NO_ACTIVE_SCRUBS: &'static str = r"cannot (pause|cancel) scrubbing .+: there is no active scrub\n";
/// A pool that does not exist.
pub const RE_NO_SUCH_POOL: &'static str = r"cannot open '\S+': no such pool\n?";
/// Taking the last replica offline.
pub const RE_NO_VALID_REPLICAS: &'static str = r"cannot offline \S+: no valid replicas\n?";

/// Group `i` of a match, empty when the group is absent.
pub open spec fn group_text(groups: Seq<Option<Seq<char>>>, i: int) -> Seq<char> {
    if 0 <= i < groups.len() && groups[i] is Some {
        groups[i]->0
    } else {
        Seq::empty()
    }
}

/// The error that the stderr text `text` stands for, given what each pattern
/// matched in it, tried in this order: vdev reuse (active pool, then
/// potentially active pool, then Linux md/lvm), device too small, permission
/// denied, no active scrub, no such pool, no valid replicas; else `Other`
/// holding the text.
pub open spec fn stderr_error_describes(
    e: ZpoolError,
    text: Seq<char>,
    reuse: Option<Seq<Option<Seq<char>>>>,
    reuse2: Option<Seq<Option<Seq<char>>>>,
    reuse_zol: bool,
    too_small: bool,
    permission_denied: bool,
    no_active_scrubs: bool,
    no_such_pool: bool,
    no_valid_replicas: bool,
) -> bool {
    if reuse is Some {
        e matches ZpoolError::VdevReuse(v, p) && v@ == group_text(reuse->0, 1) && p@ == group_text(reuse->0, 2)
    } else if reuse2 is Some {
        e matches ZpoolError::VdevReuse(v, p) && v@ == group_text(reuse2->0, 1) && p@ == group_text(reuse2->0, 2)
    } else if reuse_zol {
        e matches ZpoolError::VdevReuse(v, p) && v@.len() == 0 && p@.len() == 0
    } else if too_small {
        e is DeviceTooSmall
    } else if permission_denied {
        e is PermissionDenied
    } else if no_active_scrubs {
        e is NoActiveScrubs
    } else if no_such_pool {
        e is PoolNotFound
    } else if no_valid_replicas {
        e is NoValidReplicas
    } else {
        e matches ZpoolError::Other(t) && t@ == text
    }
}

/// Whether `e` is the error that the stderr bytes `raw` of `zpool(8)` stand
/// for: the bytes read as UTF-8 (lossily) and matched against the known
/// error messages.
pub open spec fn stderr_error(e: ZpoolError, raw: Seq<u8>) -> bool {
    let text = utf8_lossy(raw);
    stderr_error_describes(
        e,
        text,
        regex_captures(RE_REUSE_VDEV@, text),
        regex_captures(RE_REUSE_VDEV2@, text),
        regex_captures(RE_REUSE_VDEV_ZOL@, text) is Some,
        regex_captures(RE_TOO_SMALL@, text) is Some,
        regex_captures(RE_PERMISSION_DENIED@, text) is Some,
        regex_captures(RE_NO_ACTIVE_SCRUBS@, text) is Some,
        regex_captures(RE_NO_SUCH_POOL@, text) is Some,
        regex_captures(RE_NO_VALID_REPLICAS@, text) is Some,
    )
}

/// Group `i` of a match as a string, empty when absent.
fn group_string(groups: &Vec<Option<String>>, i: usize) -> (r: String)
    ensures
        r@ == group_text(groups@.map_values(|g: Option<String>| match g {
            Some(s) => Some(s@),
            None => None,
        }), i as int),
{
    let ghost gv = groups@.map_values(|g: Option<String>| match g {
        Some(s) => Some(s@),
        None => None,
    });
    if i < groups.len() {
        match &groups[i] {
            Some(s) => s.clone(),
            None => String::new(),
        }
    } else {
        String::new()
    }
}

impl ZpoolError {
    /// Turns stderr text of `zpool(8)` into an error, given what each of the
    /// known error patterns matched in it.
    pub fn classify_stderr(
        text: String,
        reuse: Option<Vec<Option<String>>>,
        reuse2: Option<Vec<Option<String>>>,
        reuse_zol: bool,
        too_small: bool,
        permission_denied: bool,
        no_active_scrubs: bool,
        no_such_pool: bool,
        no_valid_replicas: bool,
    ) -> (r: ZpoolError)
        ensures
            stderr_error_describes(
                r,
                text@,
                groups_view(reuse),
                groups_view(reuse2),
                reuse_zol,
                too_small,
                permission_denied,
                no_active_scrubs,
                no_such_pool,
                no_valid_replicas,
            ),
    {
        if let Some(groups) = reuse {
            ZpoolError::VdevReuse(group_string(&groups, 1), group_string(&groups, 2))
        } else if let Some(groups) = reuse2 {
            ZpoolError::VdevReuse(group_string(&groups, 1), group_string(&groups, 2))
        } else if reuse_zol {
            ZpoolError::VdevReuse(String::new(), String::new())
        } else if too_small {
            ZpoolError::DeviceTooSmall
        } else if permission_denied {
            ZpoolError::PermissionDenied
        } else if no_active_scrubs {
            ZpoolError::NoActiveScrubs
        } else if no_such_pool {
            ZpoolError::PoolNotFound
        } else if no_valid_replicas {
            ZpoolError::NoValidReplicas
        } else {
            ZpoolError::Other(text)
        }
    }

    /// Try to convert stderr into internal error type: the bytes are read as
    /// UTF-8 (lossily) and matched against the known error messages of `zpool(8)`.
    pub fn from_stderr(stderr_raw: &[u8]) -> (r: ZpoolError)
        ensures
            stderr_error(r, stderr_raw@),
    {
        let text = decode_lossy(stderr_raw);
        let reuse = captures(RE_REUSE_VDEV, text.as_str());
        let reuse2 = captures(RE_REUSE_VDEV2, text.as_str());
        let reuse_zol = captures(RE_REUSE_VDEV_ZOL, text.as_str()).is_some();
        let too_small = captures(RE_TOO_SMALL, text.as_str()).is_some();
        let permission_denied = captures(RE_PERMISSION_DENIED, text.as_str()).is_some();
        let no_active_scrubs = captures(RE_NO_ACTIVE_SCRUBS, text.as_str()).is_some();
        let no_such_pool = captures(RE_NO_SUCH_POOL, text.as_str()).is_some();
        let no_valid_replicas = captures(RE_NO_VALID_REPLICAS, text.as_str()).is_some();
        ZpoolError::classify_stderr(
            text,
            reuse,
            reuse2,
            reuse_zol,
            too_small,
            permission_denied,
            no_active_scrubs,
            no_such_pool,
            no_valid_replicas,
        )
    }
}

/// How a device is taken offline.
#[derive(Clone, Copy, PartialEq, Eq, Debug, Structural)]
pub enum OfflineMode {
    /// Device will be taken offline until operator manually bring it back online.
    Permanent,
    /// Upon reboot, the specified physical device reverts to its previous state.
    UntilReboot,
}

/// How a device is brought online.
#[derive(Clone, Copy, PartialEq, Eq, Debug, Structural)]
pub enum OnlineMode {
    /// Bring device online as is.
    Simple,
    /// Expand the device to use all available space.
    Expand,
}

/// Whether vdevs in use or of a conflicting replication level are forced in.
#[derive(Clone, Copy, PartialEq, Eq, Debug, Structural)]
pub enum CreateMode {
    /// Forces use of vdevs, even if they appear in use or specify a conflicting replication level.
    Force,
    /// Refuse vdevs that appear in use.
    Gentle,
}

impl Default for CreateMode {
    fn default() -> (r: CreateMode)
        ensures
            r == CreateMode::Gentle,
    {
        CreateMode::Gentle
    }
}

/// Whether a pool is destroyed even when it is busy.
#[derive(Clone, Copy, PartialEq, Eq, Debug, Structural)]
pub enum DestroyMode {
    /// Forcefully unmount all active datasets.
    Force,
    /// Fail when a dataset is busy.
    Gentle,
}

/// Whether a pool is exported even when it is busy.
#[derive(Clone, Copy, PartialEq, Eq, Debug, Structural)]
pub enum ExportMode {
    /// Forcefully unmount all datasets.
    Force,
    /// Fail when a dataset is busy.
    Gentle,
}

} // verus!
