//! Properties of datasets: the values `zfs(8)` reports and `libzfs_core`
//! takes, and the property sets of filesystems, volumes, snapshots and
//! bookmarks.
use vstd::prelude::*;

use super::string_map::StringMap;
use crate::text::{all_eq_str, chars_of};
use crate::zpool::properties::{copy_opt_string, opt_view};

verus! {

/// A native property that `libzfs_core` takes as a number under a key.
pub trait ZfsProp {
    /// The key of the property.
    spec fn spec_nv_key() -> Seq<char>;

    /// The number that stands for the value.
    spec fn spec_nv_value(&self) -> u64;

    /// String representation of ZFS Property
    fn nv_key() -> (r: &'static str)
        ensures
            r@ == Self::spec_nv_key(),
    ;

    /// The number that stands for the value.
    fn as_nv_value(&self) -> (r: u64)
        ensures
            r == self.spec_nv_value(),
    ;
}

/// Controls how ACL entries are inherited when files and directories are created. Default value is
/// `Restricted`.
#[derive(Debug, Clone, Copy, PartialEq, Eq, Structural)]
pub enum AclInheritMode {
    /// For new objects, no ACL entries are inherited.
    Discard,
    /// For new objects, only inheritable ACL entries that have an access type of `deny` are inherited.
    Noallow,
    /// For new objects, the `write_owner` and `write_acl` permissions are removed when an ACL entry is inherited.
    Restricted,
    /// (Deprecated, might not work on all platforms) Same as `Restricted`.
    Secure,
    /// Files are created with permissions determined by the inheritable ACEs.
    Passthrough,
    /// Same as `Passthrough`, except that execute permission is inherited only when asked for.
    PassthroughX,
}

impl AclInheritMode {
    /// The name `zfs(8)` gives the value.
    pub open spec fn spec_name(self) -> Seq<char> {
        match self {
            AclInheritMode::Discard => "discard"@,
            AclInheritMode::Noallow => "noallow"@,
            AclInheritMode::Restricted => "restricted"@,
            AclInheritMode::Secure => "secure"@,
            AclInheritMode::Passthrough => "passthrough"@,
            AclInheritMode::PassthroughX => "passthrough-x"@,
        }
    }

    /// The value that `zfs(8)` names `s`.
    pub open spec fn spec_from_name(s: Seq<char>) -> Option<AclInheritMode> {
        if s == "discard"@ {
            Some(AclInheritMode::Discard)
        } else if s == "noallow"@ {
            Some(AclInheritMode::Noallow)
        } else if s == "restricted"@ {
            Some(AclInheritMode::Restricted)
        } else if s == "secure"@ {
            Some(AclInheritMode::Secure)
        } else if s == "passthrough"@ {
            Some(AclInheritMode::Passthrough)
        } else if s == "passthrough-x"@ {
            Some(AclInheritMode::PassthroughX)
        } else {
            None
        }
    }

    /// The number `libzfs_core` takes for the value.
    pub open spec fn spec_number(self) -> u64 {
        match self {
            AclInheritMode::Discard => 0,
            AclInheritMode::Noallow => 1,
            AclInheritMode::Restricted => 4,
            AclInheritMode::Secure => 2,
            AclInheritMode::Passthrough => 3,
            AclInheritMode::PassthroughX => 5,
        }
    }

    /// The name `zfs(8)` gives the value.
    pub fn as_str(&self) -> (r: &'static str)
        ensures
            r@ == self.spec_name(),
    {
        match self {
            AclInheritMode::Discard => "discard",
            AclInheritMode::Noallow => "noallow",
            AclInheritMode::Restricted => "restricted",
            AclInheritMode::Secure => "secure",
            AclInheritMode::Passthrough => "passthrough",
            AclInheritMode::PassthroughX => "passthrough-x",
        }
    }

    /// The value named by the characters `s`.
    pub fn from_chars(s: &[char]) -> (r: Option<AclInheritMode>)
        ensures
            r == AclInheritMode::spec_from_name(s@),
    {
        if all_eq_str(s, "discard") {
            Some(AclInheritMode::Discard)
        } else if all_eq_str(s, "noallow") {
            Some(AclInheritMode::Noallow)
        } else if all_eq_str(s, "restricted") {
            Some(AclInheritMode::Restricted)
        } else if all_eq_str(s, "secure") {
            Some(AclInheritMode::Secure)
        } else if all_eq_str(s, "passthrough") {
            Some(AclInheritMode::Passthrough)
        } else if all_eq_str(s, "passthrough-x") {
            Some(AclInheritMode::PassthroughX)
        } else {
            None
        }
    }

    /// The value named `s`.
    pub fn from_name(s: &str) -> (r: Option<AclInheritMode>)
        ensures
            r == AclInheritMode::spec_from_name(s@),
    {
        let v = chars_of(s);
        AclInheritMode::from_chars(v.as_slice())
    }

    /// The number `libzfs_core` takes for the value.
    pub fn as_nv_value(&self) -> (r: u64)
        ensures
            r == self.spec_number(),
    {
        match self {
            AclInheritMode::Discard => 0,
            AclInheritMode::Noallow => 1,
            AclInheritMode::Restricted => 4,
            AclInheritMode::Secure => 2,
            AclInheritMode::Passthrough => 3,
            AclInheritMode::PassthroughX => 5,
        }
    }

    /// The number `libzfs_core` takes for an optional value.
    pub fn opt_number(o: Option<AclInheritMode>) -> (r: Option<u64>)
        ensures
            r == match o {
                Some(v) => Some(v.spec_number()),
                None => None,
            },
    {
        match o {
            Some(v) => Some(v.as_nv_value()),
            None => None,
        }
    }
}

impl Default for AclInheritMode {
    fn default() -> (r: AclInheritMode)
        ensures
            r == AclInheritMode::Restricted,
    {
        AclInheritMode::Restricted
    }
}

impl ZfsProp for AclInheritMode {
    open spec fn spec_nv_key() -> Seq<char> {
        "aclinherit"@
    }

    open spec fn spec_nv_value(&self) -> u64 {
        self.spec_number()
    }

    fn nv_key() -> (r: &'static str) {
        "aclinherit"
    }

    fn as_nv_value(&self) -> (r: u64) {
        AclInheritMode::as_nv_value(self)
    }
}

/// Reading the name of a AclInheritMode value gives the value back.
pub proof fn lemma_acl_inherit_mode_name_round_trip(v: AclInheritMode)
    ensures
        AclInheritMode::spec_from_name(v.spec_name()) == Some(v),
{
    reveal_strlit("discard");
    reveal_strlit("noallow");
    reveal_strlit("restricted");
    reveal_strlit("secure");
    reveal_strlit("passthrough");
    reveal_strlit("passthrough-x");
    match v {
        AclInheritMode::Discard => {},
        AclInheritMode::Noallow => {
            assert("noallow"@[0] != "discard"@[0]);
        },
        AclInheritMode::Restricted => {
            assert("restricted"@.len() != "discard"@.len());
            assert("restricted"@.len() != "noallow"@.len());
        },
        AclInheritMode::Secure => {
            assert("secure"@.len() != "discard"@.len());
            assert("secure"@.len() != "noallow"@.len());
            assert("secure"@.len() != "restricted"@.len());
        },
        AclInheritMode::Passthrough => {
            assert("passthrough"@.len() != "discard"@.len());
            assert("passthrough"@.len() != "noallow"@.len());
            assert("passthrough"@.len() != "restricted"@.len());
            assert("passthrough"@.len() != "secure"@.len());
        },
        AclInheritMode::PassthroughX => {
            assert("passthrough-x"@.len() != "discard"@.len());
            assert("passthrough-x"@.len() != "noallow"@.len());
            assert("passthrough-x"@.len() != "restricted"@.len());
            assert("passthrough-x"@.len() != "secure"@.len());
            assert("passthrough-x"@.len() != "passthrough"@.len());
        },
    }
}

/// Modifies ACL behavior when a file is created or its permissions are modified by `chmod`.
///
/// NOTE: Not available on ZOL
#[derive(Debug, Clone, Copy, PartialEq, Eq, Structural)]
pub enum AclMode {
    /// All ACL entries are removed except for the entries needed to define the mode of the file or directory.
    Discard,
    /// User or group ACL permissions are reduced so that they are no greater than the group permissions.
    GroupMask,
    /// ACEs other than `owner@`, `group@`, or `everyone@` are not modified by `chmod`.
    Passthrough,
    /// `chmod` fails on a file with non-trivial ACEs.
    Restricted,
}

impl AclMode {
    /// The name `zfs(8)` gives the value.
    pub open spec fn spec_name(self) -> Seq<char> {
        match self {
            AclMode::Discard => "discard"@,
            AclMode::GroupMask => "groupmask"@,
            AclMode::Passthrough => "passthrough"@,
            AclMode::Restricted => "restricted"@,
        }
    }

    /// The value that `zfs(8)` names `s`.
    pub open spec fn spec_from_name(s: Seq<char>) -> Option<AclMode> {
        if s == "discard"@ {
            Some(AclMode::Discard)
        } else if s == "groupmask"@ {
            Some(AclMode::GroupMask)
        } else if s == "passthrough"@ {
            Some(AclMode::Passthrough)
        } else if s == "restricted"@ {
            Some(AclMode::Restricted)
        } else {
            None
        }
    }

    /// The number `libzfs_core` takes for the value.
    pub open spec fn spec_number(self) -> u64 {
        match self {
            AclMode::Discard => 0,
            AclMode::GroupMask => 2,
            AclMode::Passthrough => 3,
            AclMode::Restricted => 4,
        }
    }

    /// The name `zfs(8)` gives the value.
    pub fn as_str(&self) -> (r: &'static str)
        ensures
            r@ == self.spec_name(),
    {
        match self {
            AclMode::Discard => "discard",
            AclMode::GroupMask => "groupmask",
            AclMode::Passthrough => "passthrough",
            AclMode::Restricted => "restricted",
        }
    }

    /// The value named by the characters `s`.
    pub fn from_chars(s: &[char]) -> (r: Option<AclMode>)
        ensures
            r == AclMode::spec_from_name(s@),
    {
        if all_eq_str(s, "discard") {
            Some(AclMode::Discard)
        } else if all_eq_str(s, "groupmask") {
            Some(AclMode::GroupMask)
        } else if all_eq_str(s, "passthrough") {
            Some(AclMode::Passthrough)
        } else if all_eq_str(s, "restricted") {
            Some(AclMode::Restricted)
        } else {
            None
        }
    }

    /// The value named `s`.
    pub fn from_name(s: &str) -> (r: Option<AclMode>)
        ensures
            r == AclMode::spec_from_name(s@),
    {
        let v = chars_of(s);
        AclMode::from_chars(v.as_slice())
    }

    /// The number `libzfs_core` takes for the value.
    pub fn as_nv_value(&self) -> (r: u64)
        ensures
            r == self.spec_number(),
    {
        match self {
            AclMode::Discard => 0,
            AclMode::GroupMask => 2,
            AclMode::Passthrough => 3,
            AclMode::Restricted => 4,
        }
    }

    /// The number `libzfs_core` takes for an optional value.
    pub fn opt_number(o: Option<AclMode>) -> (r: Option<u64>)
        ensures
            r == match o {
                Some(v) => Some(v.spec_number()),
                None => None,
            },
    {
        match o {
            Some(v) => Some(v.as_nv_value()),
            None => None,
        }
    }
}

impl Default for AclMode {
    fn default() -> (r: AclMode)
        ensures
            r == AclMode::Discard,
    {
        AclMode::Discard
    }
}

impl ZfsProp for AclMode {
    open spec fn spec_nv_key() -> Seq<char> {
        "aclmode"@
    }

    open spec fn spec_nv_value(&self) -> u64 {
        self.spec_number()
    }

    fn nv_key() -> (r: &'static str) {
        "aclmode"
    }

    fn as_nv_value(&self) -> (r: u64) {
        AclMode::as_nv_value(self)
    }
}

/// Reading the name of a AclMode value gives the value back.
pub proof fn lemma_acl_mode_name_round_trip(v: AclMode)
    ensures
        AclMode::spec_from_name(v.spec_name()) == Some(v),
{
    reveal_strlit("discard");
    reveal_strlit("groupmask");
    reveal_strlit("passthrough");
    reveal_strlit("restricted");
    match v {
        AclMode::Discard => {},
        AclMode::GroupMask => {
            assert("groupmask"@.len() != "discard"@.len());
        },
        AclMode::Passthrough => {
            assert("passthrough"@.len() != "discard"@.len());
            assert("passthrough"@.len() != "groupmask"@.len());
        },
        AclMode::Restricted => {
            assert("restricted"@.len() != "discard"@.len());
            assert("restricted"@.len() != "groupmask"@.len());
            assert("restricted"@.len() != "passthrough"@.len());
        },
    }
}

/// Controls the checksum used to verify data integrity. Default value is `on`.
#[derive(Debug, Clone, Copy, PartialEq, Eq, Structural)]
pub enum Checksum {
    /// Use value from the parent
    Inherit,
    /// Auto-select most appropriate algorithm. Currently, it is `fletcher4`.
    On,
    /// Disable integrity check. Not recommended at all.
    Off,
    /// Disables integrity and parity maintenance for user data; used by dump devices.
    NoParity,
    /// `fletcher2`
    Fletcher2,
    /// `fletcher4`
    Fletcher4,
    /// `sha256`
    SHA256,
    /// `sha512`
    SHA512,
    /// `skein`
    Skein,
}

impl Checksum {
    /// The name `zfs(8)` gives the value.
    pub open spec fn spec_name(self) -> Seq<char> {
        match self {
            Checksum::Inherit => "inherit"@,
            Checksum::On => "on"@,
            Checksum::Off => "off"@,
            Checksum::NoParity => "noparity"@,
            Checksum::Fletcher2 => "fletcher2"@,
            Checksum::Fletcher4 => "fletcher4"@,
            Checksum::SHA256 => "sha256"@,
            Checksum::SHA512 => "sha512"@,
            Checksum::Skein => "skein"@,
        }
    }

    /// The value that `zfs(8)` names `s`.
    pub open spec fn spec_from_name(s: Seq<char>) -> Option<Checksum> {
        if s == "inherit"@ {
            Some(Checksum::Inherit)
        } else if s == "on"@ {
            Some(Checksum::On)
        } else if s == "off"@ {
            Some(Checksum::Off)
        } else if s == "noparity"@ {
            Some(Checksum::NoParity)
        } else if s == "fletcher2"@ {
            Some(Checksum::Fletcher2)
        } else if s == "fletcher4"@ {
            Some(Checksum::Fletcher4)
        } else if s == "sha256"@ {
            Some(Checksum::SHA256)
        } else if s == "sha512"@ {
            Some(Checksum::SHA512)
        } else if s == "skein"@ {
            Some(Checksum::Skein)
        } else {
            None
        }
    }

    /// The number `libzfs_core` takes for the value.
    pub open spec fn spec_number(self) -> u64 {
        match self {
            Checksum::Inherit => 0,
            Checksum::On => 1,
            Checksum::Off => 2,
            Checksum::NoParity => 10,
            Checksum::Fletcher2 => 6,
            Checksum::Fletcher4 => 7,
            Checksum::SHA256 => 8,
            Checksum::SHA512 => 11,
            Checksum::Skein => 12,
        }
    }

    /// The name `zfs(8)` gives the value.
    pub fn as_str(&self) -> (r: &'static str)
        ensures
            r@ == self.spec_name(),
    {
        match self {
            Checksum::Inherit => "inherit",
            Checksum::On => "on",
            Checksum::Off => "off",
            Checksum::NoParity => "noparity",
            Checksum::Fletcher2 => "fletcher2",
            Checksum::Fletcher4 => "fletcher4",
            Checksum::SHA256 => "sha256",
            Checksum::SHA512 => "sha512",
            Checksum::Skein => "skein",
        }
    }

    /// The value named by the characters `s`.
    pub fn from_chars(s: &[char]) -> (r: Option<Checksum>)
        ensures
            r == Checksum::spec_from_name(s@),
    {
        if all_eq_str(s, "inherit") {
            Some(Checksum::Inherit)
        } else if all_eq_str(s, "on") {
            Some(Checksum::On)
        } else if all_eq_str(s, "off") {
            Some(Checksum::Off)
        } else if all_eq_str(s, "noparity") {
            Some(Checksum::NoParity)
        } else if all_eq_str(s, "fletcher2") {
            Some(Checksum::Fletcher2)
        } else if all_eq_str(s, "fletcher4") {
            Some(Checksum::Fletcher4)
        } else if all_eq_str(s, "sha256") {
            Some(Checksum::SHA256)
        } else if all_eq_str(s, "sha512") {
            Some(Checksum::SHA512)
        } else if all_eq_str(s, "skein") {
            Some(Checksum::Skein)
        } else {
            None
        }
    }

    /// The value named `s`.
    pub fn from_name(s: &str) -> (r: Option<Checksum>)
        ensures
            r == Checksum::spec_from_name(s@),
    {
        let v = chars_of(s);
        Checksum::from_chars(v.as_slice())
    }

    /// The number `libzfs_core` takes for the value.
    pub fn as_nv_value(&self) -> (r: u64)
        ensures
            r == self.spec_number(),
    {
        match self {
            Checksum::Inherit => 0,
            Checksum::On => 1,
            Checksum::Off => 2,
            Checksum::NoParity => 10,
            Checksum::Fletcher2 => 6,
            Checksum::Fletcher4 => 7,
            Checksum::SHA256 => 8,
            Checksum::SHA512 => 11,
            Checksum::Skein => 12,
        }
    }

    /// The number `libzfs_core` takes for an optional value.
    pub fn opt_number(o: Option<Checksum>) -> (r: Option<u64>)
        ensures
            r == match o {
                Some(v) => Some(v.spec_number()),
                None => None,
            },
    {
        match o {
            Some(v) => Some(v.as_nv_value()),
            None => None,
        }
    }
}

impl Default for Checksum {
    fn default() -> (r: Checksum)
        ensures
            r == Checksum::On,
    {
        Checksum::On
    }
}

impl ZfsProp for Checksum {
    open spec fn spec_nv_key() -> Seq<char> {
        "checksum"@
    }

    open spec fn spec_nv_value(&self) -> u64 {
        self.spec_number()
    }

    fn nv_key() -> (r: &'static str) {
        "checksum"
    }

    fn as_nv_value(&self) -> (r: u64) {
        Checksum::as_nv_value(self)
    }
}

/// Reading the name of a Checksum value gives the value back.
pub proof fn lemma_checksum_name_round_trip(v: Checksum)
    ensures
        Checksum::spec_from_name(v.spec_name()) == Some(v),
{
    reveal_strlit("inherit");
    reveal_strlit("on");
    reveal_strlit("off");
    reveal_strlit("noparity");
    reveal_strlit("fletcher2");
    reveal_strlit("fletcher4");
    reveal_strlit("sha256");
    reveal_strlit("sha512");
    reveal_strlit("skein");
    match v {
        Checksum::Inherit => {},
        Checksum::On => {
            assert("on"@.len() != "inherit"@.len());
        },
        Checksum::Off => {
            assert("off"@.len() != "inherit"@.len());
            assert("off"@.len() != "on"@.len());
        },
        Checksum::NoParity => {
            assert("noparity"@.len() != "inherit"@.len());
            assert("noparity"@.len() != "on"@.len());
            assert("noparity"@.len() != "off"@.len());
        },
        Checksum::Fletcher2 => {
            assert("fletcher2"@.len() != "inherit"@.len());
            assert("fletcher2"@.len() != "on"@.len());
            assert("fletcher2"@.len() != "off"@.len());
            assert("fletcher2"@.len() != "noparity"@.len());
        },
        Checksum::Fletcher4 => {
            assert("fletcher4"@.len() != "inherit"@.len());
            assert("fletcher4"@.len() != "on"@.len());
            assert("fletcher4"@.len() != "off"@.len());
            assert("fletcher4"@.len() != "noparity"@.len());
            assert("fletcher4"@[8] != "fletcher2"@[8]);
        },
        Checksum::SHA256 => {
            assert("sha256"@.len() != "inherit"@.len());
            assert("sha256"@.len() != "on"@.len());
            assert("sha256"@.len() != "off"@.len());
            assert("sha256"@.len() != "noparity"@.len());
            assert("sha256"@.len() != "fletcher2"@.len());
            assert("sha256"@.len() != "fletcher4"@.len());
        },
        Checksum::SHA512 => {
            assert("sha512"@.len() != "inherit"@.len());
            assert("sha512"@.len() != "on"@.len());
            assert("sha512"@.len() != "off"@.len());
            assert("sha512"@.len() != "noparity"@.len());
            assert("sha512"@.len() != "fletcher2"@.len());
            assert("sha512"@.len() != "fletcher4"@.len());
            assert("sha512"@[3] != "sha256"@[3]);
        },
        Checksum::Skein => {
            assert("skein"@.len() != "inherit"@.len());
            assert("skein"@.len() != "on"@.len());
            assert("skein"@.len() != "off"@.len());
            assert("skein"@.len() != "noparity"@.len());
            assert("skein"@.len() != "fletcher2"@.len());
            assert("skein"@.len() != "fletcher4"@.len());
            assert("skein"@.len() != "sha256"@.len());
            assert("skein"@.len() != "sha512"@.len());
        },
    }
}

/// Enables or disables compression for a dataset.
#[derive(Debug, Clone, Copy, PartialEq, Eq, Structural)]
pub enum Compression {
    /// Use value from the parent
    Inherit,
    /// Auto-select most appropriate algorithm. If possible uses LZ4, if not then LZJB.
    On,
    /// Disables compression.
    Off,
    /// `lzjb`
    LZJB,
    /// The lz4 compression algorithm is a high-performance replacement for the lzjb algorithm.
    LZ4,
    /// The zle compression algorithm compresses runs of zeros.
    ZLE,
    /// Fastest gzip level
    Gzip1,
    /// gzip level 2
    Gzip2,
    /// gzip level 3
    Gzip3,
    /// gzip level 4
    Gzip4,
    /// gzip level 5
    Gzip5,
    /// gzip level 6
    Gzip6,
    /// gzip level 7
    Gzip7,
    /// gzip level 8
    Gzip8,
    /// Slowest gzip level
    Gzip9,
}

impl Compression {
    /// The name `zfs(8)` gives the value.
    pub open spec fn spec_name(self) -> Seq<char> {
        match self {
            Compression::Inherit => "inherit"@,
            Compression::On => "on"@,
            Compression::Off => "off"@,
            Compression::LZJB => "lzjb"@,
            Compression::LZ4 => "lz4"@,
            Compression::ZLE => "zle"@,
            Compression::Gzip1 => "gzip-1"@,
            Compression::Gzip2 => "gzip-2"@,
            Compression::Gzip3 => "gzip-3"@,
            Compression::Gzip4 => "gzip-4"@,
            Compression::Gzip5 => "gzip-5"@,
            Compression::Gzip6 => "gzip-6"@,
            Compression::Gzip7 => "gzip-7"@,
            Compression::Gzip8 => "gzip-8"@,
            Compression::Gzip9 => "gzip-9"@,
        }
    }

    /// The value that `zfs(8)` names `s`.
    pub open spec fn spec_from_name(s: Seq<char>) -> Option<Compression> {
        if s == "inherit"@ {
            Some(Compression::Inherit)
        } else if s == "on"@ {
            Some(Compression::On)
        } else if s == "off"@ {
            Some(Compression::Off)
        } else if s == "lzjb"@ {
            Some(Compression::LZJB)
        } else if s == "lz4"@ {
            Some(Compression::LZ4)
        } else if s == "zle"@ {
            Some(Compression::ZLE)
        } else if s == "gzip-1"@ {
            Some(Compression::Gzip1)
        } else if s == "gzip-2"@ {
            Some(Compression::Gzip2)
        } else if s == "gzip-3"@ {
            Some(Compression::Gzip3)
        } else if s == "gzip-4"@ {
            Some(Compression::Gzip4)
        } else if s == "gzip-5"@ {
            Some(Compression::Gzip5)
        } else if s == "gzip-6"@ {
            Some(Compression::Gzip6)
        } else if s == "gzip-7"@ {
            Some(Compression::Gzip7)
        } else if s == "gzip-8"@ {
            Some(Compression::Gzip8)
        } else if s == "gzip-9"@ {
            Some(Compression::Gzip9)
        } else {
            None
        }
    }

    /// The number `libzfs_core` takes for the value.
    pub open spec fn spec_number(self) -> u64 {
        match self {
            Compression::Inherit => 0,
            Compression::On => 1,
            Compression::Off => 2,
            Compression::LZJB => 3,
            Compression::LZ4 => 15,
            Compression::ZLE => 14,
            Compression::Gzip1 => 5,
            Compression::Gzip2 => 6,
            Compression::Gzip3 => 7,
            Compression::Gzip4 => 8,
            Compression::Gzip5 => 9,
            Compression::Gzip6 => 10,
            Compression::Gzip7 => 11,
            Compression::Gzip8 => 12,
            Compression::Gzip9 => 13,
        }
    }

    /// The name `zfs(8)` gives the value.
    pub fn as_str(&self) -> (r: &'static str)
        ensures
            r@ == self.spec_name(),
    {
        match self {
            Compression::Inherit => "inherit",
            Compression::On => "on",
            Compression::Off => "off",
            Compression::LZJB => "lzjb",
            Compression::LZ4 => "lz4",
            Compression::ZLE => "zle",
            Compression::Gzip1 => "gzip-1",
            Compression::Gzip2 => "gzip-2",
            Compression::Gzip3 => "gzip-3",
            Compression::Gzip4 => "gzip-4",
            Compression::Gzip5 => "gzip-5",
            Compression::Gzip6 => "gzip-6",
            Compression::Gzip7 => "gzip-7",
            Compression::Gzip8 => "gzip-8",
            Compression::Gzip9 => "gzip-9",
        }
    }

    /// The value named by the characters `s`.
    pub fn from_chars(s: &[char]) -> (r: Option<Compression>)
        ensures
            r == Compression::spec_from_name(s@),
    {
        if all_eq_str(s, "inherit") {
            Some(Compression::Inherit)
        } else if all_eq_str(s, "on") {
            Some(Compression::On)
        } else if all_eq_str(s, "off") {
            Some(Compression::Off)
        } else if all_eq_str(s, "lzjb") {
            Some(Compression::LZJB)
        } else if all_eq_str(s, "lz4") {
            Some(Compression::LZ4)
        } else if all_eq_str(s, "zle") {
            Some(Compression::ZLE)
        } else if all_eq_str(s, "gzip-1") {
            Some(Compression::Gzip1)
        } else if all_eq_str(s, "gzip-2") {
            Some(Compression::Gzip2)
        } else if all_eq_str(s, "gzip-3") {
            Some(Compression::Gzip3)
        } else if all_eq_str(s, "gzip-4") {
            Some(Compression::Gzip4)
        } else if all_eq_str(s, "gzip-5") {
            Some(Compression::Gzip5)
        } else if all_eq_str(s, "gzip-6") {
            Some(Compression::Gzip6)
        } else if all_eq_str(s, "gzip-7") {
            Some(Compression::Gzip7)
        } else if all_eq_str(s, "gzip-8") {
            Some(Compression::Gzip8)
        } else if all_eq_str(s, "gzip-9") {
            Some(Compression::Gzip9)
        } else {
            None
        }
    }

    /// The value named `s`.
    pub fn from_name(s: &str) -> (r: Option<Compression>)
        ensures
            r == Compression::spec_from_name(s@),
    {
        let v = chars_of(s);
        Compression::from_chars(v.as_slice())
    }

    /// The number `libzfs_core` takes for the value.
    pub fn as_nv_value(&self) -> (r: u64)
        ensures
            r == self.spec_number(),
    {
        match self {
            Compression::Inherit => 0,
            Compression::On => 1,
            Compression::Off => 2,
            Compression::LZJB => 3,
            Compression::LZ4 => 15,
            Compression::ZLE => 14,
            Compression::Gzip1 => 5,
            Compression::Gzip2 => 6,
            Compression::Gzip3 => 7,
            Compression::Gzip4 => 8,
            Compression::Gzip5 => 9,
            Compression::Gzip6 => 10,
            Compression::Gzip7 => 11,
            Compression::Gzip8 => 12,
            Compression::Gzip9 => 13,
        }
    }

    /// The number `libzfs_core` takes for an optional value.
    pub fn opt_number(o: Option<Compression>) -> (r: Option<u64>)
        ensures
            r == match o {
                Some(v) => Some(v.spec_number()),
                None => None,
            },
    {
        match o {
            Some(v) => Some(v.as_nv_value()),
            None => None,
        }
    }
}

impl Default for Compression {
    fn default() -> (r: Compression)
        ensures
            r == Compression::Off,
    {
        Compression::Off
    }
}

impl ZfsProp for Compression {
    open spec fn spec_nv_key() -> Seq<char> {
        "compression"@
    }

    open spec fn spec_nv_value(&self) -> u64 {
        self.spec_number()
    }

    fn nv_key() -> (r: &'static str) {
        "compression"
    }

    fn as_nv_value(&self) -> (r: u64) {
        Compression::as_nv_value(self)
    }
}

/// Reading the name of a Compression value gives the value back.
pub proof fn lemma_compression_name_round_trip(v: Compression)
    ensures
        Compression::spec_from_name(v.spec_name()) == Some(v),
{
    reveal_strlit("inherit");
    reveal_strlit("on");
    reveal_strlit("off");
    reveal_strlit("lzjb");
    reveal_strlit("lz4");
    reveal_strlit("zle");
    reveal_strlit("gzip-1");
    reveal_strlit("gzip-2");
    reveal_strlit("gzip-3");
    reveal_strlit("gzip-4");
    reveal_strlit("gzip-5");
    reveal_strlit("gzip-6");
    reveal_strlit("gzip-7");
    reveal_strlit("gzip-8");
    reveal_strlit("gzip-9");
    match v {
        Compression::Inherit => {},
        Compression::On => {
            assert("on"@.len() != "inherit"@.len());
        },
        Compression::Off => {
            assert("off"@.len() != "inherit"@.len());
            assert("off"@.len() != "on"@.len());
        },
        Compression::LZJB => {
            assert("lzjb"@.len() != "inherit"@.len());
            assert("lzjb"@.len() != "on"@.len());
            assert("lzjb"@.len() != "off"@.len());
        },
        Compression::LZ4 => {
            assert("lz4"@.len() != "inherit"@.len());
            assert("lz4"@.len() != "on"@.len());
            assert("lz4"@[0] != "off"@[0]);
            assert("lz4"@.len() != "lzjb"@.len());
        },
        Compression::ZLE => {
            assert("zle"@.len() != "inherit"@.len());
            assert("zle"@.len() != "on"@.len());
            assert("zle"@[0] != "off"@[0]);
            assert("zle"@.len() != "lzjb"@.len());
            assert("zle"@[2] != "lz4"@[2]);
        },
        Compression::Gzip1 => {
            assert("gzip-1"@.len() != "inherit"@.len());
            assert("gzip-1"@.len() != "on"@.len());
            assert("gzip-1"@.len() != "off"@.len());
            assert("gzip-1"@.len() != "lzjb"@.len());
            assert("gzip-1"@.len() != "lz4"@.len());
            assert("gzip-1"@.len() != "zle"@.len());
        },
        Compression::Gzip2 => {
            assert("gzip-2"@.len() != "inherit"@.len());
            assert("gzip-2"@.len() != "on"@.len());
            assert("gzip-2"@.len() != "off"@.len());
            assert("gzip-2"@.len() != "lzjb"@.len());
            assert("gzip-2"@.len() != "lz4"@.len());
            assert("gzip-2"@.len() != "zle"@.len());
            assert("gzip-2"@[5] != "gzip-1"@[5]);
        },
        Compression::Gzip3 => {
            assert("gzip-3"@.len() != "inherit"@.len());
            assert("gzip-3"@.len() != "on"@.len());
            assert("gzip-3"@.len() != "off"@.len());
            assert("gzip-3"@.len() != "lzjb"@.len());
            assert("gzip-3"@.len() != "lz4"@.len());
            assert("gzip-3"@.len() != "zle"@.len());
            assert("gzip-3"@[5] != "gzip-1"@[5]);
            assert("gzip-3"@[5] != "gzip-2"@[5]);
        },
        Compression::Gzip4 => {
            assert("gzip-4"@.len() != "inherit"@.len());
            assert("gzip-4"@.len() != "on"@.len());
            assert("gzip-4"@.len() != "off"@.len());
            assert("gzip-4"@.len() != "lzjb"@.len());
            assert("gzip-4"@.len() != "lz4"@.len());
            assert("gzip-4"@.len() != "zle"@.len());
            assert("gzip-4"@[5] != "gzip-1"@[5]);
            assert("gzip-4"@[5] != "gzip-2"@[5]);
            assert("gzip-4"@[5] != "gzip-3"@[5]);
        },
        Compression::Gzip5 => {
            assert("gzip-5"@.len() != "inherit"@.len());
            assert("gzip-5"@.len() != "on"@.len());
            assert("gzip-5"@.len() != "off"@.len());
            assert("gzip-5"@.len() != "lzjb"@.len());
            assert("gzip-5"@.len() != "lz4"@.len());
            assert("gzip-5"@.len() != "zle"@.len());
            assert("gzip-5"@[5] != "gzip-1"@[5]);
            assert("gzip-5"@[5] != "gzip-2"@[5]);
            assert("gzip-5"@[5] != "gzip-3"@[5]);
            assert("gzip-5"@[5] != "gzip-4"@[5]);
        },
        Compression::Gzip6 => {
            assert("gzip-6"@.len() != "inherit"@.len());
            assert("gzip-6"@.len() != "on"@.len());
            assert("gzip-6"@.len() != "off"@.len());
            assert("gzip-6"@.len() != "lzjb"@.len());
            assert("gzip-6"@.len() != "lz4"@.len());
            assert("gzip-6"@.len() != "zle"@.len());
            assert("gzip-6"@[5] != "gzip-1"@[5]);
            assert("gzip-6"@[5] != "gzip-2"@[5]);
            assert("gzip-6"@[5] != "gzip-3"@[5]);
            assert("gzip-6"@[5] != "gzip-4"@[5]);
            assert("gzip-6"@[5] != "gzip-5"@[5]);
        },
        Compression::Gzip7 => {
            assert("gzip-7"@.len() != "inherit"@.len());
            assert("gzip-7"@.len() != "on"@.len());
            assert("gzip-7"@.len() != "off"@.len());
            assert("gzip-7"@.len() != "lzjb"@.len());
            assert("gzip-7"@.len() != "lz4"@.len());
            assert("gzip-7"@.len() != "zle"@.len());
            assert("gzip-7"@[5] != "gzip-1"@[5]);
            assert("gzip-7"@[5] != "gzip-2"@[5]);
            assert("gzip-7"@[5] != "gzip-3"@[5]);
            assert("gzip-7"@[5] != "gzip-4"@[5]);
            assert("gzip-7"@[5] != "gzip-5"@[5]);
            assert("gzip-7"@[5] != "gzip-6"@[5]);
        },
        Compression::Gzip8 => {
            assert("gzip-8"@.len() != "inherit"@.len());
            assert("gzip-8"@.len() != "on"@.len());
            assert("gzip-8"@.len() != "off"@.len());
            assert("gzip-8"@.len() != "lzjb"@.len());
            assert("gzip-8"@.len() != "lz4"@.len());
            assert("gzip-8"@.len() != "zle"@.len());
            assert("gzip-8"@[5] != "gzip-1"@[5]);
            assert("gzip-8"@[5] != "gzip-2"@[5]);
            assert("gzip-8"@[5] != "gzip-3"@[5]);
            assert("gzip-8"@[5] != "gzip-4"@[5]);
            assert("gzip-8"@[5] != "gzip-5"@[5]);
            assert("gzip-8"@[5] != "gzip-6"@[5]);
            assert("gzip-8"@[5] != "gzip-7"@[5]);
        },
        Compression::Gzip9 => {
            assert("gzip-9"@.len() != "inherit"@.len());
            assert("gzip-9"@.len() != "on"@.len());
            assert("gzip-9"@.len() != "off"@.len());
            assert("gzip-9"@.len() != "lzjb"@.len());
            assert("gzip-9"@.len() != "lz4"@.len());
            assert("gzip-9"@.len() != "zle"@.len());
            assert("gzip-9"@[5] != "gzip-1"@[5]);
            assert("gzip-9"@[5] != "gzip-2"@[5]);
            assert("gzip-9"@[5] != "gzip-3"@[5]);
            assert("gzip-9"@[5] != "gzip-4"@[5]);
            assert("gzip-9"@[5] != "gzip-5"@[5]);
            assert("gzip-9"@[5] != "gzip-6"@[5]);
            assert("gzip-9"@[5] != "gzip-7"@[5]);
            assert("gzip-9"@[5] != "gzip-8"@[5]);
        },
    }
}

/// Sets the number of copies of user data per file system. These copies are in addition to any
/// pool-level redundancy.
#[derive(Debug, Clone, Copy, PartialEq, Eq, Structural)]
pub enum Copies {
    /// One copy.
    One,
    /// Two copies.
    Two,
    /// Three copies.
    Three,
}

impl Copies {
    /// The name `zfs(8)` gives the value.
    pub open spec fn spec_name(self) -> Seq<char> {
        match self {
            Copies::One => "1"@,
            Copies::Two => "2"@,
            Copies::Three => "3"@,
        }
    }

    /// The value that `zfs(8)` names `s`.
    pub open spec fn spec_from_name(s: Seq<char>) -> Option<Copies> {
        if s == "1"@ {
            Some(Copies::One)
        } else if s == "2"@ {
            Some(Copies::Two)
        } else if s == "3"@ {
            Some(Copies::Three)
        } else {
            None
        }
    }

    /// The number `libzfs_core` takes for the value.
    pub open spec fn spec_number(self) -> u64 {
        match self {
            Copies::One => 1,
            Copies::Two => 2,
            Copies::Three => 3,
        }
    }

    /// The name `zfs(8)` gives the value.
    pub fn as_str(&self) -> (r: &'static str)
        ensures
            r@ == self.spec_name(),
    {
        match self {
            Copies::One => "1",
            Copies::Two => "2",
            Copies::Three => "3",
        }
    }

    /// The value named by the characters `s`.
    pub fn from_chars(s: &[char]) -> (r: Option<Copies>)
        ensures
            r == Copies::spec_from_name(s@),
    {
        if all_eq_str(s, "1") {
            Some(Copies::One)
        } else if all_eq_str(s, "2") {
            Some(Copies::Two)
        } else if all_eq_str(s, "3") {
            Some(Copies::Three)
        } else {
            None
        }
    }

    /// The value named `s`.
    pub fn from_name(s: &str) -> (r: Option<Copies>)
        ensures
            r == Copies::spec_from_name(s@),
    {
        let v = chars_of(s);
        Copies::from_chars(v.as_slice())
    }

    /// The number `libzfs_core` takes for the value.
    pub fn as_nv_value(&self) -> (r: u64)
        ensures
            r == self.spec_number(),
    {
        match self {
            Copies::One => 1,
            Copies::Two => 2,
            Copies::Three => 3,
        }
    }

    /// The number `libzfs_core` takes for an optional value.
    pub fn opt_number(o: Option<Copies>) -> (r: Option<u64>)
        ensures
            r == match o {
                Some(v) => Some(v.spec_number()),
                None => None,
            },
    {
        match o {
            Some(v) => Some(v.as_nv_value()),
            None => None,
        }
    }
}

impl Default for Copies {
    fn default() -> (r: Copies)
        ensures
            r == Copies::One,
    {
        Copies::One
    }
}

impl ZfsProp for Copies {
    open spec fn spec_nv_key() -> Seq<char> {
        "copies"@
    }

    open spec fn spec_nv_value(&self) -> u64 {
        self.spec_number()
    }

    fn nv_key() -> (r: &'static str) {
        "copies"
    }

    fn as_nv_value(&self) -> (r: u64) {
        Copies::as_nv_value(self)
    }
}

/// Reading the name of a Copies value gives the value back.
pub proof fn lemma_copies_name_round_trip(v: Copies)
    ensures
        Copies::spec_from_name(v.spec_name()) == Some(v),
{
    reveal_strlit("1");
    reveal_strlit("2");
    reveal_strlit("3");
    match v {
        Copies::One => {},
        Copies::Two => {
            assert("2"@[0] != "1"@[0]);
        },
        Copies::Three => {
            assert("3"@[0] != "1"@[0]);
            assert("3"@[0] != "2"@[0]);
        },
    }
}

/// What is cached in the primary cache (ARC) or the secondary cache (L2ARC).
#[derive(Debug, Clone, Copy, PartialEq, Eq, Structural)]
pub enum CacheMode {
    /// Both user data and metadata.
    All,
    /// Just the metadata.
    Metadata,
    /// Neither user data nor metadata is cached.
    Disabled,
}

impl CacheMode {
    /// The name `zfs(8)` gives the value.
    pub open spec fn spec_name(self) -> Seq<char> {
        match self {
            CacheMode::All => "all"@,
            CacheMode::Metadata => "metadata"@,
            CacheMode::Disabled => "none"@,
        }
    }

    /// The value that `zfs(8)` names `s`.
    pub open spec fn spec_from_name(s: Seq<char>) -> Option<CacheMode> {
        if s == "all"@ {
            Some(CacheMode::All)
        } else if s == "metadata"@ {
            Some(CacheMode::Metadata)
        } else if s == "none"@ {
            Some(CacheMode::Disabled)
        } else {
            None
        }
    }

    /// The number `libzfs_core` takes for the value.
    pub open spec fn spec_number(self) -> u64 {
        match self {
            CacheMode::All => 2,
            CacheMode::Metadata => 1,
            CacheMode::Disabled => 0,
        }
    }

    /// The name `zfs(8)` gives the value.
    pub fn as_str(&self) -> (r: &'static str)
        ensures
            r@ == self.spec_name(),
    {
        match self {
            CacheMode::All => "all",
            CacheMode::Metadata => "metadata",
            CacheMode::Disabled => "none",
        }
    }

    /// The value named by the characters `s`.
    pub fn from_chars(s: &[char]) -> (r: Option<CacheMode>)
        ensures
            r == CacheMode::spec_from_name(s@),
    {
        if all_eq_str(s, "all") {
            Some(CacheMode::All)
        } else if all_eq_str(s, "metadata") {
            Some(CacheMode::Metadata)
        } else if all_eq_str(s, "none") {
            Some(CacheMode::Disabled)
        } else {
            None
        }
    }

    /// The value named `s`.
    pub fn from_name(s: &str) -> (r: Option<CacheMode>)
        ensures
            r == CacheMode::spec_from_name(s@),
    {
        let v = chars_of(s);
        CacheMode::from_chars(v.as_slice())
    }

    /// The number `libzfs_core` takes for the value.
    pub fn as_nv_value(&self) -> (r: u64)
        ensures
            r == self.spec_number(),
    {
        match self {
            CacheMode::All => 2,
            CacheMode::Metadata => 1,
            CacheMode::Disabled => 0,
        }
    }

    /// The number `libzfs_core` takes for an optional value.
    pub fn opt_number(o: Option<CacheMode>) -> (r: Option<u64>)
        ensures
            r == match o {
                Some(v) => Some(v.spec_number()),
                None => None,
            },
    {
        match o {
            Some(v) => Some(v.as_nv_value()),
            None => None,
        }
    }
}

impl Default for CacheMode {
    fn default() -> (r: CacheMode)
        ensures
            r == CacheMode::All,
    {
        CacheMode::All
    }
}

/// Reading the name of a CacheMode value gives the value back.
pub proof fn lemma_cache_mode_name_round_trip(v: CacheMode)
    ensures
        CacheMode::spec_from_name(v.spec_name()) == Some(v),
{
    reveal_strlit("all");
    reveal_strlit("metadata");
    reveal_strlit("none");
    match v {
        CacheMode::All => {},
        CacheMode::Metadata => {
            assert("metadata"@.len() != "all"@.len());
        },
        CacheMode::Disabled => {
            assert("none"@.len() != "all"@.len());
            assert("none"@.len() != "metadata"@.len());
        },
    }
}

/// Controls whether the .zfs directory is hidden or visible in the root of the file system
#[derive(Debug, Clone, Copy, PartialEq, Eq, Structural)]
pub enum SnapDir {
    /// Hidden.
    Hidden,
    /// Visible.
    Visible,
}

impl SnapDir {
    /// The name `zfs(8)` gives the value.
    pub open spec fn spec_name(self) -> Seq<char> {
        match self {
            SnapDir::Hidden => "hidden"@,
            SnapDir::Visible => "visible"@,
        }
    }

    /// The value that `zfs(8)` names `s`.
    pub open spec fn spec_from_name(s: Seq<char>) -> Option<SnapDir> {
        if s == "hidden"@ {
            Some(SnapDir::Hidden)
        } else if s == "visible"@ {
            Some(SnapDir::Visible)
        } else {
            None
        }
    }

    /// The number `libzfs_core` takes for the value.
    pub open spec fn spec_number(self) -> u64 {
        match self {
            SnapDir::Hidden => 0,
            SnapDir::Visible => 1,
        }
    }

    /// The name `zfs(8)` gives the value.
    pub fn as_str(&self) -> (r: &'static str)
        ensures
            r@ == self.spec_name(),
    {
        match self {
            SnapDir::Hidden => "hidden",
            SnapDir::Visible => "visible",
        }
    }

    /// The value named by the characters `s`.
    pub fn from_chars(s: &[char]) -> (r: Option<SnapDir>)
        ensures
            r == SnapDir::spec_from_name(s@),
    {
        if all_eq_str(s, "hidden") {
            Some(SnapDir::Hidden)
        } else if all_eq_str(s, "visible") {
            Some(SnapDir::Visible)
        } else {
            None
        }
    }

    /// The value named `s`.
    pub fn from_name(s: &str) -> (r: Option<SnapDir>)
        ensures
            r == SnapDir::spec_from_name(s@),
    {
        let v = chars_of(s);
        SnapDir::from_chars(v.as_slice())
    }

    /// The number `libzfs_core` takes for the value.
    pub fn as_nv_value(&self) -> (r: u64)
        ensures
            r == self.spec_number(),
    {
        match self {
            SnapDir::Hidden => 0,
            SnapDir::Visible => 1,
        }
    }

    /// The number `libzfs_core` takes for an optional value.
    pub fn opt_number(o: Option<SnapDir>) -> (r: Option<u64>)
        ensures
            r == match o {
                Some(v) => Some(v.spec_number()),
                None => None,
            },
    {
        match o {
            Some(v) => Some(v.as_nv_value()),
            None => None,
        }
    }
}

impl Default for SnapDir {
    fn default() -> (r: SnapDir)
        ensures
            r == SnapDir::Hidden,
    {
        SnapDir::Hidden
    }
}

impl ZfsProp for SnapDir {
    open spec fn spec_nv_key() -> Seq<char> {
        "snapdir"@
    }

    open spec fn spec_nv_value(&self) -> u64 {
        self.spec_number()
    }

    fn nv_key() -> (r: &'static str) {
        "snapdir"
    }

    fn as_nv_value(&self) -> (r: u64) {
        SnapDir::as_nv_value(self)
    }
}

/// Reading the name of a SnapDir value gives the value back.
pub proof fn lemma_snap_dir_name_round_trip(v: SnapDir)
    ensures
        SnapDir::spec_from_name(v.spec_name()) == Some(v),
{
    reveal_strlit("hidden");
    reveal_strlit("visible");
    match v {
        SnapDir::Hidden => {},
        SnapDir::Visible => {
            assert("visible"@.len() != "hidden"@.len());
        },
    }
}

/// Controls whether a file system can be mounted.
#[derive(Debug, Clone, Copy, PartialEq, Eq, Structural)]
pub enum CanMount {
    /// Allowed to be mounted
    On,
    /// Can't be mounted
    Off,
    /// Can be mounted, but only explicitly
    NoAuto,
}

impl CanMount {
    /// The name `zfs(8)` gives the value.
    pub open spec fn spec_name(self) -> Seq<char> {
        match self {
            CanMount::On => "on"@,
            CanMount::Off => "off"@,
            CanMount::NoAuto => "noauto"@,
        }
    }

    /// The value that `zfs(8)` names `s`.
    pub open spec fn spec_from_name(s: Seq<char>) -> Option<CanMount> {
        if s == "on"@ {
            Some(CanMount::On)
        } else if s == "off"@ {
            Some(CanMount::Off)
        } else if s == "noauto"@ {
            Some(CanMount::NoAuto)
        } else {
            None
        }
    }

    /// The number `libzfs_core` takes for the value.
    pub open spec fn spec_number(self) -> u64 {
        match self {
            CanMount::On => 1,
            CanMount::Off => 0,
            CanMount::NoAuto => 2,
        }
    }

    /// The name `zfs(8)` gives the value.
    pub fn as_str(&self) -> (r: &'static str)
        ensures
            r@ == self.spec_name(),
    {
        match self {
            CanMount::On => "on",
            CanMount::Off => "off",
            CanMount::NoAuto => "noauto",
        }
    }

    /// The value named by the characters `s`.
    pub fn from_chars(s: &[char]) -> (r: Option<CanMount>)
        ensures
            r == CanMount::spec_from_name(s@),
    {
        if all_eq_str(s, "on") {
            Some(CanMount::On)
        } else if all_eq_str(s, "off") {
            Some(CanMount::Off)
        } else if all_eq_str(s, "noauto") {
            Some(CanMount::NoAuto)
        } else {
            None
        }
    }

    /// The value named `s`.
    pub fn from_name(s: &str) -> (r: Option<CanMount>)
        ensures
            r == CanMount::spec_from_name(s@),
    {
        let v = chars_of(s);
        CanMount::from_chars(v.as_slice())
    }

    /// The number `libzfs_core` takes for the value.
    pub fn as_nv_value(&self) -> (r: u64)
        ensures
            r == self.spec_number(),
    {
        match self {
            CanMount::On => 1,
            CanMount::Off => 0,
            CanMount::NoAuto => 2,
        }
    }

    /// The number `libzfs_core` takes for an optional value.
    pub fn opt_number(o: Option<CanMount>) -> (r: Option<u64>)
        ensures
            r == match o {
                Some(v) => Some(v.spec_number()),
                None => None,
            },
    {
        match o {
            Some(v) => Some(v.as_nv_value()),
            None => None,
        }
    }
}

impl Default for CanMount {
    fn default() -> (r: CanMount)
        ensures
            r == CanMount::On,
    {
        CanMount::On
    }
}

impl ZfsProp for CanMount {
    open spec fn spec_nv_key() -> Seq<char> {
        "canmount"@
    }

    open spec fn spec_nv_value(&self) -> u64 {
        self.spec_number()
    }

    fn nv_key() -> (r: &'static str) {
        "canmount"
    }

    fn as_nv_value(&self) -> (r: u64) {
        CanMount::as_nv_value(self)
    }
}

/// Reading the name of a CanMount value gives the value back.
pub proof fn lemma_can_mount_name_round_trip(v: CanMount)
    ensures
        CanMount::spec_from_name(v.spec_name()) == Some(v),
{
    reveal_strlit("on");
    reveal_strlit("off");
    reveal_strlit("noauto");
    match v {
        CanMount::On => {},
        CanMount::Off => {
            assert("off"@.len() != "on"@.len());
        },
        CanMount::NoAuto => {
            assert("noauto"@.len() != "on"@.len());
            assert("noauto"@.len() != "off"@.len());
        },
    }
}

/// Controls the behavior of synchronous requests.
#[derive(Debug, Clone, Copy, PartialEq, Eq, Structural)]
pub enum SyncMode {
    /// Posix specified behavior.
    Standard,
    /// All transactions are written and flushed. Large performance penalty.
    Always,
    /// DANGER. Disables synchronous requests.
    Disabled,
}

impl SyncMode {
    /// The name `zfs(8)` gives the value.
    pub open spec fn spec_name(self) -> Seq<char> {
        match self {
            SyncMode::Standard => "standard"@,
            SyncMode::Always => "always"@,
            SyncMode::Disabled => "disabled"@,
        }
    }

    /// The value that `zfs(8)` names `s`.
    pub open spec fn spec_from_name(s: Seq<char>) -> Option<SyncMode> {
        if s == "standard"@ {
            Some(SyncMode::Standard)
        } else if s == "always"@ {
            Some(SyncMode::Always)
        } else if s == "disabled"@ {
            Some(SyncMode::Disabled)
        } else {
            None
        }
    }

    /// The number `libzfs_core` takes for the value.
    pub open spec fn spec_number(self) -> u64 {
        match self {
            SyncMode::Standard => 0,
            SyncMode::Always => 1,
            SyncMode::Disabled => 2,
        }
    }

    /// The name `zfs(8)` gives the value.
    pub fn as_str(&self) -> (r: &'static str)
        ensures
            r@ == self.spec_name(),
    {
        match self {
            SyncMode::Standard => "standard",
            SyncMode::Always => "always",
            SyncMode::Disabled => "disabled",
        }
    }

    /// The value named by the characters `s`.
    pub fn from_chars(s: &[char]) -> (r: Option<SyncMode>)
        ensures
            r == SyncMode::spec_from_name(s@),
    {
        if all_eq_str(s, "standard") {
            Some(SyncMode::Standard)
        } else if all_eq_str(s, "always") {
            Some(SyncMode::Always)
        } else if all_eq_str(s, "disabled") {
            Some(SyncMode::Disabled)
        } else {
            None
        }
    }

    /// The value named `s`.
    pub fn from_name(s: &str) -> (r: Option<SyncMode>)
        ensures
            r == SyncMode::spec_from_name(s@),
    {
        let v = chars_of(s);
        SyncMode::from_chars(v.as_slice())
    }

    /// The number `libzfs_core` takes for the value.
    pub fn as_nv_value(&self) -> (r: u64)
        ensures
            r == self.spec_number(),
    {
        match self {
            SyncMode::Standard => 0,
            SyncMode::Always => 1,
            SyncMode::Disabled => 2,
        }
    }

    /// The number `libzfs_core` takes for an optional value.
    pub fn opt_number(o: Option<SyncMode>) -> (r: Option<u64>)
        ensures
            r == match o {
                Some(v) => Some(v.spec_number()),
                None => None,
            },
    {
        match o {
            Some(v) => Some(v.as_nv_value()),
            None => None,
        }
    }
}

impl Default for SyncMode {
    fn default() -> (r: SyncMode)
        ensures
            r == SyncMode::Standard,
    {
        SyncMode::Standard
    }
}

/// Reading the name of a SyncMode value gives the value back.
pub proof fn lemma_sync_mode_name_round_trip(v: SyncMode)
    ensures
        SyncMode::spec_from_name(v.spec_name()) == Some(v),
{
    reveal_strlit("standard");
    reveal_strlit("always");
    reveal_strlit("disabled");
    match v {
        SyncMode::Standard => {},
        SyncMode::Always => {
            assert("always"@.len() != "standard"@.len());
        },
        SyncMode::Disabled => {
            assert("disabled"@[0] != "standard"@[0]);
            assert("disabled"@.len() != "always"@.len());
        },
    }
}

/// This property specifies how volumes should be exposed to the OS.
#[derive(Debug, Clone, Copy, PartialEq, Eq, Structural)]
pub enum VolumeMode {
    /// Controlled by system-wide sysctl/tunable.
    Default,
    /// Volumes are exposed as `geom(4)` devices.
    GEOM,
    /// Volumes are exposed as cdev in devfs.
    Dev,
    /// Volumes are not exposed outside of zfs.
    Disabled,
}

impl VolumeMode {
    /// The name `zfs(8)` gives the value.
    pub open spec fn spec_name(self) -> Seq<char> {
        match self {
            VolumeMode::Default => "default"@,
            VolumeMode::GEOM => "geom"@,
            VolumeMode::Dev => "dev"@,
            VolumeMode::Disabled => "none"@,
        }
    }

    /// The value that `zfs(8)` names `s`.
    pub open spec fn spec_from_name(s: Seq<char>) -> Option<VolumeMode> {
        if s == "default"@ {
            Some(VolumeMode::Default)
        } else if s == "geom"@ {
            Some(VolumeMode::GEOM)
        } else if s == "dev"@ {
            Some(VolumeMode::Dev)
        } else if s == "none"@ {
            Some(VolumeMode::Disabled)
        } else {
            None
        }
    }

    /// The number `libzfs_core` takes for the value.
    pub open spec fn spec_number(self) -> u64 {
        match self {
            VolumeMode::Default => 0,
            VolumeMode::GEOM => 1,
            VolumeMode::Dev => 2,
            VolumeMode::Disabled => 3,
        }
    }

    /// The name `zfs(8)` gives the value.
    pub fn as_str(&self) -> (r: &'static str)
        ensures
            r@ == self.spec_name(),
    {
        match self {
            VolumeMode::Default => "default",
            VolumeMode::GEOM => "geom",
            VolumeMode::Dev => "dev",
            VolumeMode::Disabled => "none",
        }
    }

    /// The value named by the characters `s`.
    pub fn from_chars(s: &[char]) -> (r: Option<VolumeMode>)
        ensures
            r == VolumeMode::spec_from_name(s@),
    {
        if all_eq_str(s, "default") {
            Some(VolumeMode::Default)
        } else if all_eq_str(s, "geom") {
            Some(VolumeMode::GEOM)
        } else if all_eq_str(s, "dev") {
            Some(VolumeMode::Dev)
        } else if all_eq_str(s, "none") {
            Some(VolumeMode::Disabled)
        } else {
            None
        }
    }

    /// The value named `s`.
    pub fn from_name(s: &str) -> (r: Option<VolumeMode>)
        ensures
            r == VolumeMode::spec_from_name(s@),
    {
        let v = chars_of(s);
        VolumeMode::from_chars(v.as_slice())
    }

    /// The number `libzfs_core` takes for the value.
    pub fn as_nv_value(&self) -> (r: u64)
        ensures
            r == self.spec_number(),
    {
        match self {
            VolumeMode::Default => 0,
            VolumeMode::GEOM => 1,
            VolumeMode::Dev => 2,
            VolumeMode::Disabled => 3,
        }
    }

    /// The number `libzfs_core` takes for an optional value.
    pub fn opt_number(o: Option<VolumeMode>) -> (r: Option<u64>)
        ensures
            r == match o {
                Some(v) => Some(v.spec_number()),
                None => None,
            },
    {
        match o {
            Some(v) => Some(v.as_nv_value()),
            None => None,
        }
    }
}

impl Default for VolumeMode {
    fn default() -> (r: VolumeMode)
        ensures
            r == VolumeMode::Default,
    {
        VolumeMode::Default
    }
}

impl ZfsProp for VolumeMode {
    open spec fn spec_nv_key() -> Seq<char> {
        "volmod"@
    }

    open spec fn spec_nv_value(&self) -> u64 {
        self.spec_number()
    }

    fn nv_key() -> (r: &'static str) {
        "volmod"
    }

    fn as_nv_value(&self) -> (r: u64) {
        VolumeMode::as_nv_value(self)
    }
}

/// Reading the name of a VolumeMode value gives the value back.
pub proof fn lemma_volume_mode_name_round_trip(v: VolumeMode)
    ensures
        VolumeMode::spec_from_name(v.spec_name()) == Some(v),
{
    reveal_strlit("default");
    reveal_strlit("geom");
    reveal_strlit("dev");
    reveal_strlit("none");
    match v {
        VolumeMode::Default => {},
        VolumeMode::GEOM => {
            assert("geom"@.len() != "default"@.len());
        },
        VolumeMode::Dev => {
            assert("dev"@.len() != "default"@.len());
            assert("dev"@.len() != "geom"@.len());
        },
        VolumeMode::Disabled => {
            assert("none"@.len() != "default"@.len());
            assert("none"@[0] != "geom"@[0]);
            assert("none"@.len() != "dev"@.len());
        },
    }
}

/// Whether the file name matching algorithm used by the file system is case-sensitive.
#[derive(Debug, Clone, Copy, PartialEq, Eq, Structural)]
pub enum CaseSensitivity {
    /// Case-sensitive.
    Sensitive,
    /// Case-insensitive.
    Insensitive,
    /// Both, as the request asks.
    Mixed,
}

impl CaseSensitivity {
    /// The name `zfs(8)` gives the value.
    pub open spec fn spec_name(self) -> Seq<char> {
        match self {
            CaseSensitivity::Sensitive => "sensitive"@,
            CaseSensitivity::Insensitive => "insensitive"@,
            CaseSensitivity::Mixed => "mixed"@,
        }
    }

    /// The value that `zfs(8)` names `s`.
    pub open spec fn spec_from_name(s: Seq<char>) -> Option<CaseSensitivity> {
        if s == "sensitive"@ {
            Some(CaseSensitivity::Sensitive)
        } else if s == "insensitive"@ {
            Some(CaseSensitivity::Insensitive)
        } else if s == "mixed"@ {
            Some(CaseSensitivity::Mixed)
        } else {
            None
        }
    }

    /// The number `libzfs_core` takes for the value.
    pub open spec fn spec_number(self) -> u64 {
        match self {
            CaseSensitivity::Sensitive => 0,
            CaseSensitivity::Insensitive => 1,
            CaseSensitivity::Mixed => 2,
        }
    }

    /// The name `zfs(8)` gives the value.
    pub fn as_str(&self) -> (r: &'static str)
        ensures
            r@ == self.spec_name(),
    {
        match self {
            CaseSensitivity::Sensitive => "sensitive",
            CaseSensitivity::Insensitive => "insensitive",
            CaseSensitivity::Mixed => "mixed",
        }
    }

    /// The value named by the characters `s`.
    pub fn from_chars(s: &[char]) -> (r: Option<CaseSensitivity>)
        ensures
            r == CaseSensitivity::spec_from_name(s@),
    {
        if all_eq_str(s, "sensitive") {
            Some(CaseSensitivity::Sensitive)
        } else if all_eq_str(s, "insensitive") {
            Some(CaseSensitivity::Insensitive)
        } else if all_eq_str(s, "mixed") {
            Some(CaseSensitivity::Mixed)
        } else {
            None
        }
    }

    /// The value named `s`.
    pub fn from_name(s: &str) -> (r: Option<CaseSensitivity>)
        ensures
            r == CaseSensitivity::spec_from_name(s@),
    {
        let v = chars_of(s);
        CaseSensitivity::from_chars(v.as_slice())
    }

    /// The number `libzfs_core` takes for the value.
    pub fn as_nv_value(&self) -> (r: u64)
        ensures
            r == self.spec_number(),
    {
        match self {
            CaseSensitivity::Sensitive => 0,
            CaseSensitivity::Insensitive => 1,
            CaseSensitivity::Mixed => 2,
        }
    }

    /// The number `libzfs_core` takes for an optional value.
    pub fn opt_number(o: Option<CaseSensitivity>) -> (r: Option<u64>)
        ensures
            r == match o {
                Some(v) => Some(v.spec_number()),
                None => None,
            },
    {
        match o {
            Some(v) => Some(v.as_nv_value()),
            None => None,
        }
    }
}

impl Default for CaseSensitivity {
    fn default() -> (r: CaseSensitivity)
        ensures
            r == CaseSensitivity::Sensitive,
    {
        CaseSensitivity::Sensitive
    }
}

/// Reading the name of a CaseSensitivity value gives the value back.
pub proof fn lemma_case_sensitivity_name_round_trip(v: CaseSensitivity)
    ensures
        CaseSensitivity::spec_from_name(v.spec_name()) == Some(v),
{
    reveal_strlit("sensitive");
    reveal_strlit("insensitive");
    reveal_strlit("mixed");
    match v {
        CaseSensitivity::Sensitive => {},
        CaseSensitivity::Insensitive => {
            assert("insensitive"@.len() != "sensitive"@.len());
        },
        CaseSensitivity::Mixed => {
            assert("mixed"@.len() != "sensitive"@.len());
            assert("mixed"@.len() != "insensitive"@.len());
        },
    }
}

/// Whether deduplication is used for a dataset, and with which checksum.
#[derive(Debug, Clone, Copy, PartialEq, Eq, Structural)]
pub enum Dedup {
    /// No deduplication.
    Off,
    /// Deduplication with the default checksum.
    On,
    /// Deduplication with the default checksum, verifying matches.
    Verify,
    /// `sha256`
    SHA256,
    /// `sha256`, verifying matches.
    SHA256Verify,
    /// `sha512`
    SHA512,
    /// `sha512`, verifying matches.
    SHA512Verify,
    /// `skein`
    Skein,
    /// `skein`, verifying matches.
    SkeinVerify,
    /// `edonr`, verifying matches.
    EdonrVerify,
}

impl Dedup {
    /// The name `zfs(8)` gives the value.
    pub open spec fn spec_name(self) -> Seq<char> {
        match self {
            Dedup::Off => "off"@,
            Dedup::On => "on"@,
            Dedup::Verify => "verify"@,
            Dedup::SHA256 => "sha256"@,
            Dedup::SHA256Verify => "sha256,verify"@,
            Dedup::SHA512 => "sha512"@,
            Dedup::SHA512Verify => "sha512,verify"@,
            Dedup::Skein => "skein"@,
            Dedup::SkeinVerify => "skein,verify"@,
            Dedup::EdonrVerify => "edonr,verify"@,
        }
    }

    /// The value that `zfs(8)` names `s`.
    pub open spec fn spec_from_name(s: Seq<char>) -> Option<Dedup> {
        if s == "off"@ {
            Some(Dedup::Off)
        } else if s == "on"@ {
            Some(Dedup::On)
        } else if s == "verify"@ {
            Some(Dedup::Verify)
        } else if s == "sha256"@ {
            Some(Dedup::SHA256)
        } else if s == "sha256,verify"@ {
            Some(Dedup::SHA256Verify)
        } else if s == "sha512"@ {
            Some(Dedup::SHA512)
        } else if s == "sha512,verify"@ {
            Some(Dedup::SHA512Verify)
        } else if s == "skein"@ {
            Some(Dedup::Skein)
        } else if s == "skein,verify"@ {
            Some(Dedup::SkeinVerify)
        } else if s == "edonr,verify"@ {
            Some(Dedup::EdonrVerify)
        } else {
            None
        }
    }

    /// The number `libzfs_core` takes for the value.
    pub open spec fn spec_number(self) -> u64 {
        match self {
            Dedup::Off => 0,
            Dedup::On => 1,
            Dedup::Verify => 2,
            Dedup::SHA256 => 3,
            Dedup::SHA256Verify => 4,
            Dedup::SHA512 => 5,
            Dedup::SHA512Verify => 6,
            Dedup::Skein => 7,
            Dedup::SkeinVerify => 8,
            Dedup::EdonrVerify => 9,
        }
    }

    /// The name `zfs(8)` gives the value.
    pub fn as_str(&self) -> (r: &'static str)
        ensures
            r@ == self.spec_name(),
    {
        match self {
            Dedup::Off => "off",
            Dedup::On => "on",
            Dedup::Verify => "verify",
            Dedup::SHA256 => "sha256",
            Dedup::SHA256Verify => "sha256,verify",
            Dedup::SHA512 => "sha512",
            Dedup::SHA512Verify => "sha512,verify",
            Dedup::Skein => "skein",
            Dedup::SkeinVerify => "skein,verify",
            Dedup::EdonrVerify => "edonr,verify",
        }
    }

    /// The value named by the characters `s`.
    pub fn from_chars(s: &[char]) -> (r: Option<Dedup>)
        ensures
            r == Dedup::spec_from_name(s@),
    {
        if all_eq_str(s, "off") {
            Some(Dedup::Off)
        } else if all_eq_str(s, "on") {
            Some(Dedup::On)
        } else if all_eq_str(s, "verify") {
            Some(Dedup::Verify)
        } else if all_eq_str(s, "sha256") {
            Some(Dedup::SHA256)
        } else if all_eq_str(s, "sha256,verify") {
            Some(Dedup::SHA256Verify)
        } else if all_eq_str(s, "sha512") {
            Some(Dedup::SHA512)
        } else if all_eq_str(s, "sha512,verify") {
            Some(Dedup::SHA512Verify)
        } else if all_eq_str(s, "skein") {
            Some(Dedup::Skein)
        } else if all_eq_str(s, "skein,verify") {
            Some(Dedup::SkeinVerify)
        } else if all_eq_str(s, "edonr,verify") {
            Some(Dedup::EdonrVerify)
        } else {
            None
        }
    }

    /// The value named `s`.
    pub fn from_name(s: &str) -> (r: Option<Dedup>)
        ensures
            r == Dedup::spec_from_name(s@),
    {
        let v = chars_of(s);
        Dedup::from_chars(v.as_slice())
    }

    /// The number `libzfs_core` takes for the value.
    pub fn as_nv_value(&self) -> (r: u64)
        ensures
            r == self.spec_number(),
    {
        match self {
            Dedup::Off => 0,
            Dedup::On => 1,
            Dedup::Verify => 2,
            Dedup::SHA256 => 3,
            Dedup::SHA256Verify => 4,
            Dedup::SHA512 => 5,
            Dedup::SHA512Verify => 6,
            Dedup::Skein => 7,
            Dedup::SkeinVerify => 8,
            Dedup::EdonrVerify => 9,
        }
    }

    /// The number `libzfs_core` takes for an optional value.
    pub fn opt_number(o: Option<Dedup>) -> (r: Option<u64>)
        ensures
            r == match o {
                Some(v) => Some(v.spec_number()),
                None => None,
            },
    {
        match o {
            Some(v) => Some(v.as_nv_value()),
            None => None,
        }
    }
}

impl Default for Dedup {
    fn default() -> (r: Dedup)
        ensures
            r == Dedup::Off,
    {
        Dedup::Off
    }
}

/// Reading the name of a Dedup value gives the value back.
pub proof fn lemma_dedup_name_round_trip(v: Dedup)
    ensures
        Dedup::spec_from_name(v.spec_name()) == Some(v),
{
    reveal_strlit("off");
    reveal_strlit("on");
    reveal_strlit("verify");
    reveal_strlit("sha256");
    reveal_strlit("sha256,verify");
    reveal_strlit("sha512");
    reveal_strlit("sha512,verify");
    reveal_strlit("skein");
    reveal_strlit("skein,verify");
    reveal_strlit("edonr,verify");
    match v {
        Dedup::Off => {},
        Dedup::On => {
            assert("on"@.len() != "off"@.len());
        },
        Dedup::Verify => {
            assert("verify"@.len() != "off"@.len());
            assert("verify"@.len() != "on"@.len());
        },
        Dedup::SHA256 => {
            assert("sha256"@.len() != "off"@.len());
            assert("sha256"@.len() != "on"@.len());
            assert("sha256"@[0] != "verify"@[0]);
        },
        Dedup::SHA256Verify => {
            assert("sha256,verify"@.len() != "off"@.len());
            assert("sha256,verify"@.len() != "on"@.len());
            assert("sha256,verify"@.len() != "verify"@.len());
            assert("sha256,verify"@.len() != "sha256"@.len());
        },
        Dedup::SHA512 => {
            assert("sha512"@.len() != "off"@.len());
            assert("sha512"@.len() != "on"@.len());
            assert("sha512"@[0] != "verify"@[0]);
            assert("sha512"@[3] != "sha256"@[3]);
            assert("sha512"@.len() != "sha256,verify"@.len());
        },
        Dedup::SHA512Verify => {
            assert("sha512,verify"@.len() != "off"@.len());
            assert("sha512,verify"@.len() != "on"@.len());
            assert("sha512,verify"@.len() != "verify"@.len());
            assert("sha512,verify"@.len() != "sha256"@.len());
            assert("sha512,verify"@[3] != "sha256,verify"@[3]);
            assert("sha512,verify"@.len() != "sha512"@.len());
        },
        Dedup::Skein => {
            assert("skein"@.len() != "off"@.len());
            assert("skein"@.len() != "on"@.len());
            assert("skein"@.len() != "verify"@.len());
            assert("skein"@.len() != "sha256"@.len());
            assert("skein"@.len() != "sha256,verify"@.len());
            assert("skein"@.len() != "sha512"@.len());
            assert("skein"@.len() != "sha512,verify"@.len());
        },
        Dedup::SkeinVerify => {
            assert("skein,verify"@.len() != "off"@.len());
            assert("skein,verify"@.len() != "on"@.len());
            assert("skein,verify"@.len() != "verify"@.len());
            assert("skein,verify"@.len() != "sha256"@.len());
            assert("skein,verify"@.len() != "sha256,verify"@.len());
            assert("skein,verify"@.len() != "sha512"@.len());
            assert("skein,verify"@.len() != "sha512,verify"@.len());
            assert("skein,verify"@.len() != "skein"@.len());
        },
        Dedup::EdonrVerify => {
            assert("edonr,verify"@.len() != "off"@.len());
            assert("edonr,verify"@.len() != "on"@.len());
            assert("edonr,verify"@.len() != "verify"@.len());
            assert("edonr,verify"@.len() != "sha256"@.len());
            assert("edonr,verify"@.len() != "sha256,verify"@.len());
            assert("edonr,verify"@.len() != "sha512"@.len());
            assert("edonr,verify"@.len() != "sha512,verify"@.len());
            assert("edonr,verify"@.len() != "skein"@.len());
            assert("edonr,verify"@[0] != "skein,verify"@[0]);
        },
    }
}

/// The size of dnodes in the file system.
#[derive(Debug, Clone, Copy, PartialEq, Eq, Structural)]
pub enum DnodeSize {
    /// 512 bytes.
    Legacy,
    /// Chosen by the system.
    Auto,
    /// 1 KiB.
    K1,
    /// 2 KiB.
    K2,
    /// 4 KiB.
    K4,
    /// 8 KiB.
    K8,
    /// 16 KiB.
    K16,
}

impl DnodeSize {
    /// The name `zfs(8)` gives the value.
    pub open spec fn spec_name(self) -> Seq<char> {
        match self {
            DnodeSize::Legacy => "legacy"@,
            DnodeSize::Auto => "auto"@,
            DnodeSize::K1 => "1k"@,
            DnodeSize::K2 => "2k"@,
            DnodeSize::K4 => "4k"@,
            DnodeSize::K8 => "8k"@,
            DnodeSize::K16 => "16k"@,
        }
    }

    /// The value that `zfs(8)` names `s`.
    pub open spec fn spec_from_name(s: Seq<char>) -> Option<DnodeSize> {
        if s == "legacy"@ {
            Some(DnodeSize::Legacy)
        } else if s == "auto"@ {
            Some(DnodeSize::Auto)
        } else if s == "1k"@ {
            Some(DnodeSize::K1)
        } else if s == "2k"@ {
            Some(DnodeSize::K2)
        } else if s == "4k"@ {
            Some(DnodeSize::K4)
        } else if s == "8k"@ {
            Some(DnodeSize::K8)
        } else if s == "16k"@ {
            Some(DnodeSize::K16)
        } else {
            None
        }
    }

    /// The number `libzfs_core` takes for the value.
    pub open spec fn spec_number(self) -> u64 {
        match self {
            DnodeSize::Legacy => 0,
            DnodeSize::Auto => 1,
            DnodeSize::K1 => 2,
            DnodeSize::K2 => 3,
            DnodeSize::K4 => 4,
            DnodeSize::K8 => 5,
            DnodeSize::K16 => 6,
        }
    }

    /// The name `zfs(8)` gives the value.
    pub fn as_str(&self) -> (r: &'static str)
        ensures
            r@ == self.spec_name(),
    {
        match self {
            DnodeSize::Legacy => "legacy",
            DnodeSize::Auto => "auto",
            DnodeSize::K1 => "1k",
            DnodeSize::K2 => "2k",
            DnodeSize::K4 => "4k",
            DnodeSize::K8 => "8k",
            DnodeSize::K16 => "16k",
        }
    }

    /// The value named by the characters `s`.
    pub fn from_chars(s: &[char]) -> (r: Option<DnodeSize>)
        ensures
            r == DnodeSize::spec_from_name(s@),
    {
        if all_eq_str(s, "legacy") {
            Some(DnodeSize::Legacy)
        } else if all_eq_str(s, "auto") {
            Some(DnodeSize::Auto)
        } else if all_eq_str(s, "1k") {
            Some(DnodeSize::K1)
        } else if all_eq_str(s, "2k") {
            Some(DnodeSize::K2)
        } else if all_eq_str(s, "4k") {
            Some(DnodeSize::K4)
        } else if all_eq_str(s, "8k") {
            Some(DnodeSize::K8)
        } else if all_eq_str(s, "16k") {
            Some(DnodeSize::K16)
        } else {
            None
        }
    }

    /// The value named `s`.
    pub fn from_name(s: &str) -> (r: Option<DnodeSize>)
        ensures
            r == DnodeSize::spec_from_name(s@),
    {
        let v = chars_of(s);
        DnodeSize::from_chars(v.as_slice())
    }

    /// The number `libzfs_core` takes for the value.
    pub fn as_nv_value(&self) -> (r: u64)
        ensures
            r == self.spec_number(),
    {
        match self {
            DnodeSize::Legacy => 0,
            DnodeSize::Auto => 1,
            DnodeSize::K1 => 2,
            DnodeSize::K2 => 3,
            DnodeSize::K4 => 4,
            DnodeSize::K8 => 5,
            DnodeSize::K16 => 6,
        }
    }

    /// The number `libzfs_core` takes for an optional value.
    pub fn opt_number(o: Option<DnodeSize>) -> (r: Option<u64>)
        ensures
            r == match o {
                Some(v) => Some(v.spec_number()),
                None => None,
            },
    {
        match o {
            Some(v) => Some(v.as_nv_value()),
            None => None,
        }
    }
}

impl Default for DnodeSize {
    fn default() -> (r: DnodeSize)
        ensures
            r == DnodeSize::Legacy,
    {
        DnodeSize::Legacy
    }
}

/// Reading the name of a DnodeSize value gives the value back.
pub proof fn lemma_dnode_size_name_round_trip(v: DnodeSize)
    ensures
        DnodeSize::spec_from_name(v.spec_name()) == Some(v),
{
    reveal_strlit("legacy");
    reveal_strlit("auto");
    reveal_strlit("1k");
    reveal_strlit("2k");
    reveal_strlit("4k");
    reveal_strlit("8k");
    reveal_strlit("16k");
    match v {
        DnodeSize::Legacy => {},
        DnodeSize::Auto => {
            assert("auto"@.len() != "legacy"@.len());
        },
        DnodeSize::K1 => {
            assert("1k"@.len() != "legacy"@.len());
            assert("1k"@.len() != "auto"@.len());
        },
        DnodeSize::K2 => {
            assert("2k"@.len() != "legacy"@.len());
            assert("2k"@.len() != "auto"@.len());
            assert("2k"@[0] != "1k"@[0]);
        },
        DnodeSize::K4 => {
            assert("4k"@.len() != "legacy"@.len());
            assert("4k"@.len() != "auto"@.len());
            assert("4k"@[0] != "1k"@[0]);
            assert("4k"@[0] != "2k"@[0]);
        },
        DnodeSize::K8 => {
            assert("8k"@.len() != "legacy"@.len());
            assert("8k"@.len() != "auto"@.len());
            assert("8k"@[0] != "1k"@[0]);
            assert("8k"@[0] != "2k"@[0]);
            assert("8k"@[0] != "4k"@[0]);
        },
        DnodeSize::K16 => {
            assert("16k"@.len() != "legacy"@.len());
            assert("16k"@.len() != "auto"@.len());
            assert("16k"@.len() != "1k"@.len());
            assert("16k"@.len() != "2k"@.len());
            assert("16k"@.len() != "4k"@.len());
            assert("16k"@.len() != "8k"@.len());
        },
    }
}

/// How synchronous requests use the intent log.
#[derive(Debug, Clone, Copy, PartialEq, Eq, Structural)]
pub enum LogBias {
    /// Log devices are used to lower latency.
    Latency,
    /// Log devices are bypassed to raise throughput.
    Throughput,
}

impl LogBias {
    /// The name `zfs(8)` gives the value.
    pub open spec fn spec_name(self) -> Seq<char> {
        match self {
            LogBias::Latency => "latency"@,
            LogBias::Throughput => "throughput"@,
        }
    }

    /// The value that `zfs(8)` names `s`.
    pub open spec fn spec_from_name(s: Seq<char>) -> Option<LogBias> {
        if s == "latency"@ {
            Some(LogBias::Latency)
        } else if s == "throughput"@ {
            Some(LogBias::Throughput)
        } else {
            None
        }
    }

    /// The number `libzfs_core` takes for the value.
    pub open spec fn spec_number(self) -> u64 {
        match self {
            LogBias::Latency => 0,
            LogBias::Throughput => 1,
        }
    }

    /// The name `zfs(8)` gives the value.
    pub fn as_str(&self) -> (r: &'static str)
        ensures
            r@ == self.spec_name(),
    {
        match self {
            LogBias::Latency => "latency",
            LogBias::Throughput => "throughput",
        }
    }

    /// The value named by the characters `s`.
    pub fn from_chars(s: &[char]) -> (r: Option<LogBias>)
        ensures
            r == LogBias::spec_from_name(s@),
    {
        if all_eq_str(s, "latency") {
            Some(LogBias::Latency)
        } else if all_eq_str(s, "throughput") {
            Some(LogBias::Throughput)
        } else {
            None
        }
    }

    /// The value named `s`.
    pub fn from_name(s: &str) -> (r: Option<LogBias>)
        ensures
            r == LogBias::spec_from_name(s@),
    {
        let v = chars_of(s);
        LogBias::from_chars(v.as_slice())
    }

    /// The number `libzfs_core` takes for the value.
    pub fn as_nv_value(&self) -> (r: u64)
        ensures
            r == self.spec_number(),
    {
        match self {
            LogBias::Latency => 0,
            LogBias::Throughput => 1,
        }
    }

    /// The number `libzfs_core` takes for an optional value.
    pub fn opt_number(o: Option<LogBias>) -> (r: Option<u64>)
        ensures
            r == match o {
                Some(v) => Some(v.spec_number()),
                None => None,
            },
    {
        match o {
            Some(v) => Some(v.as_nv_value()),
            None => None,
        }
    }
}

impl Default for LogBias {
    fn default() -> (r: LogBias)
        ensures
            r == LogBias::Latency,
    {
        LogBias::Latency
    }
}

/// Reading the name of a LogBias value gives the value back.
pub proof fn lemma_log_bias_name_round_trip(v: LogBias)
    ensures
        LogBias::spec_from_name(v.spec_name()) == Some(v),
{
    reveal_strlit("latency");
    reveal_strlit("throughput");
    match v {
        LogBias::Latency => {},
        LogBias::Throughput => {
            assert("throughput"@.len() != "latency"@.len());
        },
    }
}

/// Whether file names are normalized before they are compared, and with which Unicode form.
#[derive(Debug, Clone, Copy, PartialEq, Eq, Structural)]
pub enum Normalization {
    /// No normalization.
    Disabled,
    /// Form C.
    FormC,
    /// Form D.
    FormD,
    /// Form KC.
    FormKC,
    /// Form KD.
    FormKD,
}

impl Normalization {
    /// The name `zfs(8)` gives the value.
    pub open spec fn spec_name(self) -> Seq<char> {
        match self {
            Normalization::Disabled => "none"@,
            Normalization::FormC => "formC"@,
            Normalization::FormD => "formD"@,
            Normalization::FormKC => "formKC"@,
            Normalization::FormKD => "formKD"@,
        }
    }

    /// The value that `zfs(8)` names `s`.
    pub open spec fn spec_from_name(s: Seq<char>) -> Option<Normalization> {
        if s == "none"@ {
            Some(Normalization::Disabled)
        } else if s == "formC"@ {
            Some(Normalization::FormC)
        } else if s == "formD"@ {
            Some(Normalization::FormD)
        } else if s == "formKC"@ {
            Some(Normalization::FormKC)
        } else if s == "formKD"@ {
            Some(Normalization::FormKD)
        } else {
            None
        }
    }

    /// The number `libzfs_core` takes for the value.
    pub open spec fn spec_number(self) -> u64 {
        match self {
            Normalization::Disabled => 0,
            Normalization::FormC => 1,
            Normalization::FormD => 2,
            Normalization::FormKC => 3,
            Normalization::FormKD => 4,
        }
    }

    /// The name `zfs(8)` gives the value.
    pub fn as_str(&self) -> (r: &'static str)
        ensures
            r@ == self.spec_name(),
    {
        match self {
            Normalization::Disabled => "none",
            Normalization::FormC => "formC",
            Normalization::FormD => "formD",
            Normalization::FormKC => "formKC",
            Normalization::FormKD => "formKD",
        }
    }

    /// The value named by the characters `s`.
    pub fn from_chars(s: &[char]) -> (r: Option<Normalization>)
        ensures
            r == Normalization::spec_from_name(s@),
    {
        if all_eq_str(s, "none") {
            Some(Normalization::Disabled)
        } else if all_eq_str(s, "formC") {
            Some(Normalization::FormC)
        } else if all_eq_str(s, "formD") {
            Some(Normalization::FormD)
        } else if all_eq_str(s, "formKC") {
            Some(Normalization::FormKC)
        } else if all_eq_str(s, "formKD") {
            Some(Normalization::FormKD)
        } else {
            None
        }
    }

    /// The value named `s`.
    pub fn from_name(s: &str) -> (r: Option<Normalization>)
        ensures
            r == Normalization::spec_from_name(s@),
    {
        let v = chars_of(s);
        Normalization::from_chars(v.as_slice())
    }

    /// The number `libzfs_core` takes for the value.
    pub fn as_nv_value(&self) -> (r: u64)
        ensures
            r == self.spec_number(),
    {
        match self {
            Normalization::Disabled => 0,
            Normalization::FormC => 1,
            Normalization::FormD => 2,
            Normalization::FormKC => 3,
            Normalization::FormKD => 4,
        }
    }

    /// The number `libzfs_core` takes for an optional value.
    pub fn opt_number(o: Option<Normalization>) -> (r: Option<u64>)
        ensures
            r == match o {
                Some(v) => Some(v.spec_number()),
                None => None,
            },
    {
        match o {
            Some(v) => Some(v.as_nv_value()),
            None => None,
        }
    }
}

impl Default for Normalization {
    fn default() -> (r: Normalization)
        ensures
            r == Normalization::Disabled,
    {
        Normalization::Disabled
    }
}

/// Reading the name of a Normalization value gives the value back.
pub proof fn lemma_normalization_name_round_trip(v: Normalization)
    ensures
        Normalization::spec_from_name(v.spec_name()) == Some(v),
{
    reveal_strlit("none");
    reveal_strlit("formC");
    reveal_strlit("formD");
    reveal_strlit("formKC");
    reveal_strlit("formKD");
    match v {
        Normalization::Disabled => {},
        Normalization::FormC => {
            assert("formC"@.len() != "none"@.len());
        },
        Normalization::FormD => {
            assert("formD"@.len() != "none"@.len());
            assert("formD"@[4] != "formC"@[4]);
        },
        Normalization::FormKC => {
            assert("formKC"@.len() != "none"@.len());
            assert("formKC"@.len() != "formC"@.len());
            assert("formKC"@.len() != "formD"@.len());
        },
        Normalization::FormKD => {
            assert("formKD"@.len() != "none"@.len());
            assert("formKD"@.len() != "formC"@.len());
            assert("formKD"@.len() != "formD"@.len());
            assert("formKD"@[5] != "formKC"@[5]);
        },
    }
}

/// Which metadata is stored redundantly.
#[derive(Debug, Clone, Copy, PartialEq, Eq, Structural)]
pub enum RedundantMetadata {
    /// All metadata.
    All,
    /// Most metadata.
    Most,
}

impl RedundantMetadata {
    /// The name `zfs(8)` gives the value.
    pub open spec fn spec_name(self) -> Seq<char> {
        match self {
            RedundantMetadata::All => "all"@,
            RedundantMetadata::Most => "most"@,
        }
    }

    /// The value that `zfs(8)` names `s`.
    pub open spec fn spec_from_name(s: Seq<char>) -> Option<RedundantMetadata> {
        if s == "all"@ {
            Some(RedundantMetadata::All)
        } else if s == "most"@ {
            Some(RedundantMetadata::Most)
        } else {
            None
        }
    }

    /// The number `libzfs_core` takes for the value.
    pub open spec fn spec_number(self) -> u64 {
        match self {
            RedundantMetadata::All => 0,
            RedundantMetadata::Most => 1,
        }
    }

    /// The name `zfs(8)` gives the value.
    pub fn as_str(&self) -> (r: &'static str)
        ensures
            r@ == self.spec_name(),
    {
        match self {
            RedundantMetadata::All => "all",
            RedundantMetadata::Most => "most",
        }
    }

    /// The value named by the characters `s`.
    pub fn from_chars(s: &[char]) -> (r: Option<RedundantMetadata>)
        ensures
            r == RedundantMetadata::spec_from_name(s@),
    {
        if all_eq_str(s, "all") {
            Some(RedundantMetadata::All)
        } else if all_eq_str(s, "most") {
            Some(RedundantMetadata::Most)
        } else {
            None
        }
    }

    /// The value named `s`.
    pub fn from_name(s: &str) -> (r: Option<RedundantMetadata>)
        ensures
            r == RedundantMetadata::spec_from_name(s@),
    {
        let v = chars_of(s);
        RedundantMetadata::from_chars(v.as_slice())
    }

    /// The number `libzfs_core` takes for the value.
    pub fn as_nv_value(&self) -> (r: u64)
        ensures
            r == self.spec_number(),
    {
        match self {
            RedundantMetadata::All => 0,
            RedundantMetadata::Most => 1,
        }
    }

    /// The number `libzfs_core` takes for an optional value.
    pub fn opt_number(o: Option<RedundantMetadata>) -> (r: Option<u64>)
        ensures
            r == match o {
                Some(v) => Some(v.spec_number()),
                None => None,
            },
    {
        match o {
            Some(v) => Some(v.as_nv_value()),
            None => None,
        }
    }
}

impl Default for RedundantMetadata {
    fn default() -> (r: RedundantMetadata)
        ensures
            r == RedundantMetadata::All,
    {
        RedundantMetadata::All
    }
}

/// Reading the name of a RedundantMetadata value gives the value back.
pub proof fn lemma_redundant_metadata_name_round_trip(v: RedundantMetadata)
    ensures
        RedundantMetadata::spec_from_name(v.spec_name()) == Some(v),
{
    reveal_strlit("all");
    reveal_strlit("most");
    match v {
        RedundantMetadata::All => {},
        RedundantMetadata::Most => {
            assert("most"@.len() != "all"@.len());
        },
    }
}


/// What `zfs get` reports of a filesystem, one field per native property.
#[derive(Debug, Clone)]
pub struct FilesystemProperties {
    /// Name of the dataset.
    pub name: String,
    /// Controls how ACL entries inherited when files and directories created.
    pub acl_inherit: AclInheritMode,
    /// Controls how an ACL entry modified during a `chmod` operation.
    pub acl_mode: Option<AclMode>,
    /// Controls whether the access time for files updated when they are read.
    pub atime: bool,
    /// Disk space available to the dataset and all its children.
    pub available: i64,
    /// Controls whether a file system can be mounted.
    pub can_mount: CanMount,
    /// Whether file name matching is case-sensitive.
    pub case_sensitivity: CaseSensitivity,
    /// Controls the checksum used to verify data integrity.
    pub checksum: Checksum,
    /// Enables or disables compression for a dataset.
    pub compression: Compression,
    /// The compression ratio achieved, as text that reads as a number (without its `x`).
    pub compression_ratio: String,
    /// The number of copies of user data.
    pub copies: Copies,
    /// The birth time transaction group (TXG) of the object.
    pub create_txg: Option<u64>,
    /// The time the dataset was created, in seconds since the epoch.
    pub creation: i64,
    /// Whether deduplication is used, and how.
    pub dedup: Dedup,
    /// Controls whether device files in a file system can be opened.
    pub devices: bool,
    /// The size of dnodes.
    pub dnode_size: DnodeSize,
    /// Controls whether programs in a file system allowed to be executed (`exec`).
    pub executable: bool,
    /// The number of filesystems under this one, if counted.
    pub filesystem_count: Option<u64>,
    /// The limit on the number of filesystems under this one, if any.
    pub filesystem_limit: Option<u64>,
    /// GUID of the dataset
    pub guid: Option<u64>,
    /// Controls whether the dataset is managed from a jail.
    pub jailed: Option<bool>,
    /// How synchronous requests use the intent log.
    pub log_bias: LogBias,
    /// The amount of space logically referenced, before compression.
    pub logical_referenced: u64,
    /// The amount of space logically used, before compression.
    pub logical_used: u64,
    /// The multilevel security label, if any.
    pub mls_label: Option<String>,
    /// Whether the file system is currently mounted.
    pub mounted: bool,
    /// Controls the mount point used for this file system.
    pub mount_point: Option<String>,
    /// Whether the file system is mounted with non-blocking mandatory locks.
    pub nbmand: bool,
    /// Whether and how file names are normalized.
    pub normalization: Normalization,
    /// The snapshot a clone was created from.
    pub origin: Option<String>,
    /// Controls what is cached in the primary cache (ARC).
    pub primary_cache: CacheMode,
    /// Limits the amount of disk space a dataset and its descendants can consume.
    pub quota: u64,
    /// Controls whether a dataset can be modified.
    pub readonly: bool,
    /// Suggested block size for files in the file system, in bytes.
    pub record_size: u64,
    /// Which metadata is stored redundantly.
    pub redundant_metadata: RedundantMetadata,
    /// The compression ratio of the referenced space, as text that reads as a number.
    pub ref_compression_ratio: String,
    /// The amount of data accessible by the dataset.
    pub referenced: u64,
    /// Limits the space the dataset itself can consume.
    pub ref_quota: u64,
    /// Space guaranteed to the dataset itself.
    pub ref_reservation: u64,
    /// Space guaranteed to the dataset and its descendants.
    pub reservation: u64,
    /// Controls what is cached in the secondary cache (L2ARC).
    pub secondary_cache: CacheMode,
    /// Controls whether the `setuid` bit is honored in a file system.
    pub setuid: bool,
    /// Controls whether the .zfs directory is hidden or visible.
    pub snap_dir: SnapDir,
    /// The number of snapshots under this dataset, if counted.
    pub snapshot_count: Option<u64>,
    /// The limit on the number of snapshots, if any.
    pub snapshot_limit: Option<u64>,
    /// Controls the behavior of synchronous requests.
    pub sync: SyncMode,
    /// Space consumed by the dataset and all its descendants.
    pub used: u64,
    /// Space used by children of the dataset.
    pub used_by_children: u64,
    /// Space used by the dataset itself.
    pub used_by_dataset: u64,
    /// Space used by a refreservation.
    pub used_by_ref_reservation: u64,
    /// Space consumed by snapshots of the dataset.
    pub used_by_snapshots: u64,
    /// Whether file names that are not UTF-8 are rejected.
    pub utf8_only: Option<bool>,
    /// The on-disk version of the file system.
    pub version: u64,
    /// Controls how volumes are exposed to the OS.
    pub volume_mode: Option<VolumeMode>,
    /// Whether regular files are scanned for viruses.
    pub vscan: bool,
    /// Space written since the previous snapshot.
    pub written: u64,
    /// Indicates whether extended attributes are enabled or disabled.
    pub xattr: bool,
    /// User defined properties and properties this library failed to recognize.
    pub unknown_properties: StringMap,
}

/// What the properties of a filesystem hold.
pub struct FilesystemPropertiesView {
    pub name: Seq<char>,
    pub acl_inherit: AclInheritMode,
    pub acl_mode: Option<AclMode>,
    pub atime: bool,
    pub available: i64,
    pub can_mount: CanMount,
    pub case_sensitivity: CaseSensitivity,
    pub checksum: Checksum,
    pub compression: Compression,
    pub compression_ratio: Seq<char>,
    pub copies: Copies,
    pub create_txg: Option<u64>,
    pub creation: i64,
    pub dedup: Dedup,
    pub devices: bool,
    pub dnode_size: DnodeSize,
    pub executable: bool,
    pub filesystem_count: Option<u64>,
    pub filesystem_limit: Option<u64>,
    pub guid: Option<u64>,
    pub jailed: Option<bool>,
    pub log_bias: LogBias,
    pub logical_referenced: u64,
    pub logical_used: u64,
    pub mls_label: Option<Seq<char>>,
    pub mounted: bool,
    pub mount_point: Option<Seq<char>>,
    pub nbmand: bool,
    pub normalization: Normalization,
    pub origin: Option<Seq<char>>,
    pub primary_cache: CacheMode,
    pub quota: u64,
    pub readonly: bool,
    pub record_size: u64,
    pub redundant_metadata: RedundantMetadata,
    pub ref_compression_ratio: Seq<char>,
    pub referenced: u64,
    pub ref_quota: u64,
    pub ref_reservation: u64,
    pub reservation: u64,
    pub secondary_cache: CacheMode,
    pub setuid: bool,
    pub snap_dir: SnapDir,
    pub snapshot_count: Option<u64>,
    pub snapshot_limit: Option<u64>,
    pub sync: SyncMode,
    pub used: u64,
    pub used_by_children: u64,
    pub used_by_dataset: u64,
    pub used_by_ref_reservation: u64,
    pub used_by_snapshots: u64,
    pub utf8_only: Option<bool>,
    pub version: u64,
    pub volume_mode: Option<VolumeMode>,
    pub vscan: bool,
    pub written: u64,
    pub xattr: bool,
    pub unknown_properties: Map<Seq<char>, Seq<char>>,
}

impl View for FilesystemProperties {
    type V = FilesystemPropertiesView;

    open spec fn view(&self) -> FilesystemPropertiesView {
        FilesystemPropertiesView {
            name: self.name@,
            acl_inherit: self.acl_inherit,
            acl_mode: self.acl_mode,
            atime: self.atime,
            available: self.available,
            can_mount: self.can_mount,
            case_sensitivity: self.case_sensitivity,
            checksum: self.checksum,
            compression: self.compression,
            compression_ratio: self.compression_ratio@,
            copies: self.copies,
            create_txg: self.create_txg,
            creation: self.creation,
            dedup: self.dedup,
            devices: self.devices,
            dnode_size: self.dnode_size,
            executable: self.executable,
            filesystem_count: self.filesystem_count,
            filesystem_limit: self.filesystem_limit,
            guid: self.guid,
            jailed: self.jailed,
            log_bias: self.log_bias,
            logical_referenced: self.logical_referenced,
            logical_used: self.logical_used,
            mls_label: opt_view(self.mls_label),
            mounted: self.mounted,
            mount_point: opt_view(self.mount_point),
            nbmand: self.nbmand,
            normalization: self.normalization,
            origin: opt_view(self.origin),
            primary_cache: self.primary_cache,
            quota: self.quota,
            readonly: self.readonly,
            record_size: self.record_size,
            redundant_metadata: self.redundant_metadata,
            ref_compression_ratio: self.ref_compression_ratio@,
            referenced: self.referenced,
            ref_quota: self.ref_quota,
            ref_reservation: self.ref_reservation,
            reservation: self.reservation,
            secondary_cache: self.secondary_cache,
            setuid: self.setuid,
            snap_dir: self.snap_dir,
            snapshot_count: self.snapshot_count,
            snapshot_limit: self.snapshot_limit,
            sync: self.sync,
            used: self.used,
            used_by_children: self.used_by_children,
            used_by_dataset: self.used_by_dataset,
            used_by_ref_reservation: self.used_by_ref_reservation,
            used_by_snapshots: self.used_by_snapshots,
            utf8_only: self.utf8_only,
            version: self.version,
            volume_mode: self.volume_mode,
            vscan: self.vscan,
            written: self.written,
            xattr: self.xattr,
            unknown_properties: self.unknown_properties.spec_map(),
        }
    }
}

/// What `zfs get` reports of a volume, one field per native property.
#[derive(Debug, Clone)]
pub struct VolumeProperties {
    /// Name of the dataset.
    pub name: String,
    /// Disk space available to the dataset.
    pub available: i64,
    /// Controls the checksum used to verify data integrity.
    pub checksum: Checksum,
    /// Enables or disables compression for a dataset.
    pub compression: Compression,
    /// The compression ratio achieved, as text that reads as a number (without its `x`).
    pub compression_ratio: String,
    /// The number of copies of user data.
    pub copies: Copies,
    /// The birth time transaction group (TXG) of the object.
    pub create_txg: Option<u64>,
    /// The time the dataset was created, in seconds since the epoch.
    pub creation: i64,
    /// Whether deduplication is used, and how.
    pub dedup: Dedup,
    /// GUID of the dataset
    pub guid: Option<u64>,
    /// How synchronous requests use the intent log.
    pub log_bias: LogBias,
    /// The amount of space logically referenced, before compression.
    pub logical_referenced: u64,
    /// The amount of space logically used, before compression.
    pub logical_used: u64,
    /// The multilevel security label, if any.
    pub mls_label: Option<String>,
    /// Controls what is cached in the primary cache (ARC).
    pub primary_cache: CacheMode,
    /// Controls whether a dataset can be modified.
    pub readonly: bool,
    /// Which metadata is stored redundantly.
    pub redundant_metadata: RedundantMetadata,
    /// The compression ratio of the referenced space, as text that reads as a number.
    pub ref_compression_ratio: String,
    /// The amount of data accessible by the dataset.
    pub referenced: u64,
    /// Space guaranteed to the dataset itself.
    pub ref_reservation: u64,
    /// Space guaranteed to the dataset and its descendants.
    pub reservation: u64,
    /// Controls what is cached in the secondary cache (L2ARC).
    pub secondary_cache: CacheMode,
    /// The number of snapshots under this dataset, if counted.
    pub snapshot_count: Option<u64>,
    /// The limit on the number of snapshots, if any.
    pub snapshot_limit: Option<u64>,
    /// Controls the behavior of synchronous requests.
    pub sync: SyncMode,
    /// Space consumed by the dataset and all its descendants.
    pub used: u64,
    /// Space used by children of the dataset.
    pub used_by_children: u64,
    /// Space used by the dataset itself.
    pub used_by_dataset: u64,
    /// Space used by a refreservation.
    pub used_by_ref_reservation: u64,
    /// Space consumed by snapshots of the dataset.
    pub used_by_snapshots: u64,
    /// The block size of the volume, in bytes.
    pub volume_block_size: u64,
    /// Controls how the volume is exposed to the OS.
    pub volume_mode: Option<VolumeMode>,
    /// The logical size of the volume.
    pub volume_size: u64,
    /// Space written since the previous snapshot.
    pub written: u64,
    /// User defined properties and properties this library failed to recognize.
    pub unknown_properties: StringMap,
}

/// What the properties of a volume hold.
pub struct VolumePropertiesView {
    pub name: Seq<char>,
    pub available: i64,
    pub checksum: Checksum,
    pub compression: Compression,
    pub compression_ratio: Seq<char>,
    pub copies: Copies,
    pub create_txg: Option<u64>,
    pub creation: i64,
    pub dedup: Dedup,
    pub guid: Option<u64>,
    pub log_bias: LogBias,
    pub logical_referenced: u64,
    pub logical_used: u64,
    pub mls_label: Option<Seq<char>>,
    pub primary_cache: CacheMode,
    pub readonly: bool,
    pub redundant_metadata: RedundantMetadata,
    pub ref_compression_ratio: Seq<char>,
    pub referenced: u64,
    pub ref_reservation: u64,
    pub reservation: u64,
    pub secondary_cache: CacheMode,
    pub snapshot_count: Option<u64>,
    pub snapshot_limit: Option<u64>,
    pub sync: SyncMode,
    pub used: u64,
    pub used_by_children: u64,
    pub used_by_dataset: u64,
    pub used_by_ref_reservation: u64,
    pub used_by_snapshots: u64,
    pub volume_block_size: u64,
    pub volume_mode: Option<VolumeMode>,
    pub volume_size: u64,
    pub written: u64,
    pub unknown_properties: Map<Seq<char>, Seq<char>>,
}

impl View for VolumeProperties {
    type V = VolumePropertiesView;

    open spec fn view(&self) -> VolumePropertiesView {
        VolumePropertiesView {
            name: self.name@,
            available: self.available,
            checksum: self.checksum,
            compression: self.compression,
            compression_ratio: self.compression_ratio@,
            copies: self.copies,
            create_txg: self.create_txg,
            creation: self.creation,
            dedup: self.dedup,
            guid: self.guid,
            log_bias: self.log_bias,
            logical_referenced: self.logical_referenced,
            logical_used: self.logical_used,
            mls_label: opt_view(self.mls_label),
            primary_cache: self.primary_cache,
            readonly: self.readonly,
            redundant_metadata: self.redundant_metadata,
            ref_compression_ratio: self.ref_compression_ratio@,
            referenced: self.referenced,
            ref_reservation: self.ref_reservation,
            reservation: self.reservation,
            secondary_cache: self.secondary_cache,
            snapshot_count: self.snapshot_count,
            snapshot_limit: self.snapshot_limit,
            sync: self.sync,
            used: self.used,
            used_by_children: self.used_by_children,
            used_by_dataset: self.used_by_dataset,
            used_by_ref_reservation: self.used_by_ref_reservation,
            used_by_snapshots: self.used_by_snapshots,
            volume_block_size: self.volume_block_size,
            volume_mode: self.volume_mode,
            volume_size: self.volume_size,
            written: self.written,
            unknown_properties: self.unknown_properties.spec_map(),
        }
    }
}

/// What `zfs get` reports of a snapshot, one field per native property.
#[derive(Debug, Clone)]
pub struct SnapshotProperties {
    /// Name of the dataset.
    pub name: String,
    /// Whether file name matching is case-sensitive.
    pub case_sensitivity: CaseSensitivity,
    /// The datasets that are clones of this snapshot, if any.
    pub clones: Option<Vec<String>>,
    /// The compression ratio achieved, as text that reads as a number (without its `x`).
    pub compression_ratio: String,
    /// The birth time transaction group (TXG) of the object.
    pub create_txg: Option<u64>,
    /// The time the snapshot was created, in seconds since the epoch.
    pub creation: i64,
    /// Snapshot marked for deferred destroy.
    pub defer_destroy: bool,
    /// Controls whether device files can be opened.
    pub devices: bool,
    /// Controls whether programs can be executed (`exec`).
    pub executable: bool,
    /// GUID of the dataset
    pub guid: Option<u64>,
    /// The amount of space logically referenced, before compression.
    pub logically_referenced: u64,
    /// The multilevel security label, if any.
    pub mls_label: Option<String>,
    /// Whether non-blocking mandatory locks are used.
    pub nbmand: bool,
    /// Whether and how file names are normalized.
    pub normalization: Normalization,
    /// Controls what is cached in the primary cache (ARC).
    pub primary_cache: CacheMode,
    /// The compression ratio of the referenced space, as text that reads as a number.
    pub ref_compression_ratio: String,
    /// The amount of data accessible by the snapshot.
    pub referenced: u64,
    /// Controls what is cached in the secondary cache (L2ARC).
    pub secondary_cache: CacheMode,
    /// Controls whether the `setuid` bit is honored.
    pub setuid: bool,
    /// Space consumed by the snapshot.
    pub used: u64,
    /// Number of holds on this snapshot.
    pub user_refs: u64,
    /// Whether file names that are not UTF-8 are rejected.
    pub utf8_only: Option<bool>,
    /// The on-disk version of the file system.
    pub version: u64,
    /// Controls how volumes are exposed to the OS.
    pub volume_mode: Option<VolumeMode>,
    /// Space written since the previous snapshot.
    pub written: u64,
    /// Indicates whether extended attributes are enabled or disabled.
    pub xattr: bool,
    /// User defined properties and properties this library failed to recognize.
    pub unknown_properties: StringMap,
}

/// What the properties of a snapshot hold.
pub struct SnapshotPropertiesView {
    pub name: Seq<char>,
    pub case_sensitivity: CaseSensitivity,
    pub clones: Option<Seq<Seq<char>>>,
    pub compression_ratio: Seq<char>,
    pub create_txg: Option<u64>,
    pub creation: i64,
    pub defer_destroy: bool,
    pub devices: bool,
    pub executable: bool,
    pub guid: Option<u64>,
    pub logically_referenced: u64,
    pub mls_label: Option<Seq<char>>,
    pub nbmand: bool,
    pub normalization: Normalization,
    pub primary_cache: CacheMode,
    pub ref_compression_ratio: Seq<char>,
    pub referenced: u64,
    pub secondary_cache: CacheMode,
    pub setuid: bool,
    pub used: u64,
    pub user_refs: u64,
    pub utf8_only: Option<bool>,
    pub version: u64,
    pub volume_mode: Option<VolumeMode>,
    pub written: u64,
    pub xattr: bool,
    pub unknown_properties: Map<Seq<char>, Seq<char>>,
}

impl View for SnapshotProperties {
    type V = SnapshotPropertiesView;

    open spec fn view(&self) -> SnapshotPropertiesView {
        SnapshotPropertiesView {
            name: self.name@,
            case_sensitivity: self.case_sensitivity,
            clones: opt_strings_view(self.clones),
            compression_ratio: self.compression_ratio@,
            create_txg: self.create_txg,
            creation: self.creation,
            defer_destroy: self.defer_destroy,
            devices: self.devices,
            executable: self.executable,
            guid: self.guid,
            logically_referenced: self.logically_referenced,
            mls_label: opt_view(self.mls_label),
            nbmand: self.nbmand,
            normalization: self.normalization,
            primary_cache: self.primary_cache,
            ref_compression_ratio: self.ref_compression_ratio@,
            referenced: self.referenced,
            secondary_cache: self.secondary_cache,
            setuid: self.setuid,
            used: self.used,
            user_refs: self.user_refs,
            utf8_only: self.utf8_only,
            version: self.version,
            volume_mode: self.volume_mode,
            written: self.written,
            xattr: self.xattr,
            unknown_properties: self.unknown_properties.spec_map(),
        }
    }
}

/// What `zfs get` reports of a bookmark, one field per native property.
#[derive(Debug, Clone)]
pub struct BookmarkProperties {
    /// Name of the dataset.
    pub name: String,
    /// The birth time transaction group (TXG) of the object.
    pub create_txg: Option<u64>,
    /// The time the bookmark was created, in seconds since the epoch.
    pub creation: i64,
    /// GUID of the dataset
    pub guid: Option<u64>,
    /// User defined properties and properties this library failed to recognize.
    pub unknown_properties: StringMap,
}

/// What the properties of a bookmark hold.
pub struct BookmarkPropertiesView {
    pub name: Seq<char>,
    pub create_txg: Option<u64>,
    pub creation: i64,
    pub guid: Option<u64>,
    pub unknown_properties: Map<Seq<char>, Seq<char>>,
}

impl View for BookmarkProperties {
    type V = BookmarkPropertiesView;

    open spec fn view(&self) -> BookmarkPropertiesView {
        BookmarkPropertiesView {
            name: self.name@,
            create_txg: self.create_txg,
            creation: self.creation,
            guid: self.guid,
            unknown_properties: self.unknown_properties.spec_map(),
        }
    }
}


/// The properties of a dataset, by its kind; the properties of a dataset of
/// any other kind are kept as text.
#[derive(Debug, Clone)]
pub enum Properties {
    Filesystem(FilesystemProperties),
    Volume(VolumeProperties),
    Snapshot(SnapshotProperties),
    Bookmark(BookmarkProperties),
    Unknown(StringMap),
}

/// What the properties of a dataset hold.
pub enum PropertiesView {
    Filesystem(FilesystemPropertiesView),
    Volume(VolumePropertiesView),
    Snapshot(SnapshotPropertiesView),
    Bookmark(BookmarkPropertiesView),
    Unknown(Map<Seq<char>, Seq<char>>),
}

impl View for Properties {
    type V = PropertiesView;

    open spec fn view(&self) -> PropertiesView {
        match self {
            Properties::Filesystem(p) => PropertiesView::Filesystem(p@),
            Properties::Volume(p) => PropertiesView::Volume(p@),
            Properties::Snapshot(p) => PropertiesView::Snapshot(p@),
            Properties::Bookmark(p) => PropertiesView::Bookmark(p@),
            Properties::Unknown(m) => PropertiesView::Unknown(m.spec_map()),
        }
    }
}

/// The view of an optional list of strings.
pub open spec fn opt_strings_view(o: Option<Vec<String>>) -> Option<Seq<Seq<char>>> {
    match o {
        Some(v) => Some(crate::zpool::vdev::strings_view(v@)),
        None => None,
    }
}

/// No two `AclInheritMode` values are given the same number: `libzfs_core` can tell
/// every value from the number it is sent.
pub proof fn lemma_acl_inherit_mode_numbers_are_distinct(a: AclInheritMode, b: AclInheritMode)
    ensures
        a.spec_number() == b.spec_number() ==> a == b,
{
}

/// No two `AclMode` values are given the same number: `libzfs_core` can tell
/// every value from the number it is sent.
pub proof fn lemma_acl_mode_numbers_are_distinct(a: AclMode, b: AclMode)
    ensures
        a.spec_number() == b.spec_number() ==> a == b,
{
}

/// No two `Checksum` values are given the same number: `libzfs_core` can tell
/// every value from the number it is sent.
pub proof fn lemma_checksum_numbers_are_distinct(a: Checksum, b: Checksum)
    ensures
        a.spec_number() == b.spec_number() ==> a == b,
{
}

/// No two `Compression` values are given the same number: `libzfs_core` can tell
/// every value from the number it is sent.
pub proof fn lemma_compression_numbers_are_distinct(a: Compression, b: Compression)
    ensures
        a.spec_number() == b.spec_number() ==> a == b,
{
}

/// No two `Copies` values are given the same number: `libzfs_core` can tell
/// every value from the number it is sent.
pub proof fn lemma_copies_numbers_are_distinct(a: Copies, b: Copies)
    ensures
        a.spec_number() == b.spec_number() ==> a == b,
{
}

/// No two `CacheMode` values are given the same number: `libzfs_core` can tell
/// every value from the number it is sent.
pub proof fn lemma_cache_mode_numbers_are_distinct(a: CacheMode, b: CacheMode)
    ensures
        a.spec_number() == b.spec_number() ==> a == b,
{
}

/// No two `SnapDir` values are given the same number: `libzfs_core` can tell
/// every value from the number it is sent.
pub proof fn lemma_snap_dir_numbers_are_distinct(a: SnapDir, b: SnapDir)
    ensures
        a.spec_number() == b.spec_number() ==> a == b,
{
}

/// No two `CanMount` values are given the same number: `libzfs_core` can tell
/// every value from the number it is sent.
pub proof fn lemma_can_mount_numbers_are_distinct(a: CanMount, b: CanMount)
    ensures
        a.spec_number() == b.spec_number() ==> a == b,
{
}

/// No two `SyncMode` values are given the same number: `libzfs_core` can tell
/// every value from the number it is sent.
pub proof fn lemma_sync_mode_numbers_are_distinct(a: SyncMode, b: SyncMode)
    ensures
        a.spec_number() == b.spec_number() ==> a == b,
{
}

/// No two `VolumeMode` values are given the same number: `libzfs_core` can tell
/// every value from the number it is sent.
pub proof fn lemma_volume_mode_numbers_are_distinct(a: VolumeMode, b: VolumeMode)
    ensures
        a.spec_number() == b.spec_number() ==> a == b,
{
}

/// No two `CaseSensitivity` values are given the same number: `libzfs_core` can tell
/// every value from the number it is sent.
pub proof fn lemma_case_sensitivity_numbers_are_distinct(a: CaseSensitivity, b: CaseSensitivity)
    ensures
        a.spec_number() == b.spec_number() ==> a == b,
{
}

/// No two `Dedup` values are given the same number: `libzfs_core` can tell
/// every value from the number it is sent.
pub proof fn lemma_dedup_numbers_are_distinct(a: Dedup, b: Dedup)
    ensures
        a.spec_number() == b.spec_number() ==> a == b,
{
}

/// No two `DnodeSize` values are given the same number: `libzfs_core` can tell
/// every value from the number it is sent.
pub proof fn lemma_dnode_size_numbers_are_distinct(a: DnodeSize, b: DnodeSize)
    ensures
        a.spec_number() == b.spec_number() ==> a == b,
{
}

/// No two `LogBias` values are given the same number: `libzfs_core` can tell
/// every value from the number it is sent.
pub proof fn lemma_log_bias_numbers_are_distinct(a: LogBias, b: LogBias)
    ensures
        a.spec_number() == b.spec_number() ==> a == b,
{
}

/// No two `Normalization` values are given the same number: `libzfs_core` can tell
/// every value from the number it is sent.
pub proof fn lemma_normalization_numbers_are_distinct(a: Normalization, b: Normalization)
    ensures
        a.spec_number() == b.spec_number() ==> a == b,
{
}

/// No two `RedundantMetadata` values are given the same number: `libzfs_core` can tell
/// every value from the number it is sent.
pub proof fn lemma_redundant_metadata_numbers_are_distinct(a: RedundantMetadata, b: RedundantMetadata)
    ensures
        a.spec_number() == b.spec_number() ==> a == b,
{
}

/// The numbers of the compression values are exactly those of the ZFS
/// compression table, 0 to 15, without 4 (a slot ZFS keeps empty): with the
/// numbers distinct, each of those numbers names one value.
pub proof fn lemma_compression_numbers_fill_the_table(c: Compression)
    ensures
        c.spec_number() <= 15,
        c.spec_number() != 4,
{
}

/// What an optional field of a builder gives: the value when it was set,
/// else none.
pub open spec fn given<T>(o: Option<Option<T>>) -> Option<T> {
    match o {
        Some(v) => v,
        None => None,
    }
}

/// The text an optional text field of a builder gives.
pub open spec fn given_text(o: Option<Option<String>>) -> Option<Seq<char>> {
    match o {
        Some(v) => opt_view(v),
        None => None,
    }
}

/// The list an optional list field of a builder gives.
pub open spec fn given_strings(o: Option<Option<Vec<String>>>) -> Option<Seq<Seq<char>>> {
    match o {
        Some(v) => opt_strings_view(v),
        None => None,
    }
}

/// A copy of an optional list of strings.
fn copy_opt_strings(o: &Option<Vec<String>>) -> (r: Option<Vec<String>>)
    ensures
        opt_strings_view(r) == opt_strings_view(*o),
{
    match o {
        Some(v) => Some(crate::zpool::vdev::copy_strings(v)),
        None => None,
    }
}

/// Builder of `FilesystemProperties`: every field must be given, except those that may be
/// absent, which default to none.
#[derive(Debug, Clone)]
pub struct FilesystemPropertiesBuilder {
    pub name: Option<String>,
    pub acl_inherit: Option<AclInheritMode>,
    pub acl_mode: Option<Option<AclMode>>,
    pub atime: Option<bool>,
    pub available: Option<i64>,
    pub can_mount: Option<CanMount>,
    pub case_sensitivity: Option<CaseSensitivity>,
    pub checksum: Option<Checksum>,
    pub compression: Option<Compression>,
    pub compression_ratio: Option<String>,
    pub copies: Option<Copies>,
    pub create_txg: Option<Option<u64>>,
    pub creation: Option<i64>,
    pub dedup: Option<Dedup>,
    pub devices: Option<bool>,
    pub dnode_size: Option<DnodeSize>,
    pub executable: Option<bool>,
    pub filesystem_count: Option<Option<u64>>,
    pub filesystem_limit: Option<Option<u64>>,
    pub guid: Option<Option<u64>>,
    pub jailed: Option<Option<bool>>,
    pub log_bias: Option<LogBias>,
    pub logical_referenced: Option<u64>,
    pub logical_used: Option<u64>,
    pub mls_label: Option<Option<String>>,
    pub mounted: Option<bool>,
    pub mount_point: Option<Option<String>>,
    pub nbmand: Option<bool>,
    pub normalization: Option<Normalization>,
    pub origin: Option<Option<String>>,
    pub primary_cache: Option<CacheMode>,
    pub quota: Option<u64>,
    pub readonly: Option<bool>,
    pub record_size: Option<u64>,
    pub redundant_metadata: Option<RedundantMetadata>,
    pub ref_compression_ratio: Option<String>,
    pub referenced: Option<u64>,
    pub ref_quota: Option<u64>,
    pub ref_reservation: Option<u64>,
    pub reservation: Option<u64>,
    pub secondary_cache: Option<CacheMode>,
    pub setuid: Option<bool>,
    pub snap_dir: Option<SnapDir>,
    pub snapshot_count: Option<Option<u64>>,
    pub snapshot_limit: Option<Option<u64>>,
    pub sync: Option<SyncMode>,
    pub used: Option<u64>,
    pub used_by_children: Option<u64>,
    pub used_by_dataset: Option<u64>,
    pub used_by_ref_reservation: Option<u64>,
    pub used_by_snapshots: Option<u64>,
    pub utf8_only: Option<Option<bool>>,
    pub version: Option<u64>,
    pub volume_mode: Option<Option<VolumeMode>>,
    pub vscan: Option<bool>,
    pub written: Option<u64>,
    pub xattr: Option<bool>,
    pub unknown_properties: Option<StringMap>,
}

impl FilesystemPropertiesBuilder {
    /// A builder with no field given.
    pub open spec fn empty() -> FilesystemPropertiesBuilder {
        FilesystemPropertiesBuilder {
            name: None,
            acl_inherit: None,
            acl_mode: None,
            atime: None,
            available: None,
            can_mount: None,
            case_sensitivity: None,
            checksum: None,
            compression: None,
            compression_ratio: None,
            copies: None,
            create_txg: None,
            creation: None,
            dedup: None,
            devices: None,
            dnode_size: None,
            executable: None,
            filesystem_count: None,
            filesystem_limit: None,
            guid: None,
            jailed: None,
            log_bias: None,
            logical_referenced: None,
            logical_used: None,
            mls_label: None,
            mounted: None,
            mount_point: None,
            nbmand: None,
            normalization: None,
            origin: None,
            primary_cache: None,
            quota: None,
            readonly: None,
            record_size: None,
            redundant_metadata: None,
            ref_compression_ratio: None,
            referenced: None,
            ref_quota: None,
            ref_reservation: None,
            reservation: None,
            secondary_cache: None,
            setuid: None,
            snap_dir: None,
            snapshot_count: None,
            snapshot_limit: None,
            sync: None,
            used: None,
            used_by_children: None,
            used_by_dataset: None,
            used_by_ref_reservation: None,
            used_by_snapshots: None,
            utf8_only: None,
            version: None,
            volume_mode: None,
            vscan: None,
            written: None,
            xattr: None,
            unknown_properties: None,
        }
    }

    /// Whether every field that has no default is given.
    pub open spec fn complete(self) -> bool {
        self.name is Some
        && self.acl_inherit is Some
        && self.atime is Some
        && self.available is Some
        && self.can_mount is Some
        && self.case_sensitivity is Some
        && self.checksum is Some
        && self.compression is Some
        && self.compression_ratio is Some
        && self.copies is Some
        && self.create_txg is Some
        && self.creation is Some
        && self.dedup is Some
        && self.devices is Some
        && self.dnode_size is Some
        && self.executable is Some
        && self.log_bias is Some
        && self.logical_referenced is Some
        && self.logical_used is Some
        && self.mounted is Some
        && self.mount_point is Some
        && self.nbmand is Some
        && self.normalization is Some
        && self.primary_cache is Some
        && self.quota is Some
        && self.readonly is Some
        && self.record_size is Some
        && self.redundant_metadata is Some
        && self.ref_compression_ratio is Some
        && self.referenced is Some
        && self.ref_quota is Some
        && self.ref_reservation is Some
        && self.reservation is Some
        && self.secondary_cache is Some
        && self.setuid is Some
        && self.snap_dir is Some
        && self.sync is Some
        && self.used is Some
        && self.used_by_children is Some
        && self.used_by_dataset is Some
        && self.used_by_ref_reservation is Some
        && self.used_by_snapshots is Some
        && self.version is Some
        && self.volume_mode is Some
        && self.vscan is Some
        && self.written is Some
        && self.xattr is Some
        && self.unknown_properties is Some
    }

    /// What `build` makes of a complete builder.
    pub open spec fn built(self) -> FilesystemPropertiesView {
        FilesystemPropertiesView {
            name: self.name->0@,
            acl_inherit: self.acl_inherit->0,
            acl_mode: given(self.acl_mode),
            atime: self.atime->0,
            available: self.available->0,
            can_mount: self.can_mount->0,
            case_sensitivity: self.case_sensitivity->0,
            checksum: self.checksum->0,
            compression: self.compression->0,
            compression_ratio: self.compression_ratio->0@,
            copies: self.copies->0,
            create_txg: given(self.create_txg),
            creation: self.creation->0,
            dedup: self.dedup->0,
            devices: self.devices->0,
            dnode_size: self.dnode_size->0,
            executable: self.executable->0,
            filesystem_count: given(self.filesystem_count),
            filesystem_limit: given(self.filesystem_limit),
            guid: given(self.guid),
            jailed: given(self.jailed),
            log_bias: self.log_bias->0,
            logical_referenced: self.logical_referenced->0,
            logical_used: self.logical_used->0,
            mls_label: given_text(self.mls_label),
            mounted: self.mounted->0,
            mount_point: given_text(self.mount_point),
            nbmand: self.nbmand->0,
            normalization: self.normalization->0,
            origin: given_text(self.origin),
            primary_cache: self.primary_cache->0,
            quota: self.quota->0,
            readonly: self.readonly->0,
            record_size: self.record_size->0,
            redundant_metadata: self.redundant_metadata->0,
            ref_compression_ratio: self.ref_compression_ratio->0@,
            referenced: self.referenced->0,
            ref_quota: self.ref_quota->0,
            ref_reservation: self.ref_reservation->0,
            reservation: self.reservation->0,
            secondary_cache: self.secondary_cache->0,
            setuid: self.setuid->0,
            snap_dir: self.snap_dir->0,
            snapshot_count: given(self.snapshot_count),
            snapshot_limit: given(self.snapshot_limit),
            sync: self.sync->0,
            used: self.used->0,
            used_by_children: self.used_by_children->0,
            used_by_dataset: self.used_by_dataset->0,
            used_by_ref_reservation: self.used_by_ref_reservation->0,
            used_by_snapshots: self.used_by_snapshots->0,
            utf8_only: given(self.utf8_only),
            version: self.version->0,
            volume_mode: given(self.volume_mode),
            vscan: self.vscan->0,
            written: self.written->0,
            xattr: self.xattr->0,
            unknown_properties: self.unknown_properties->0.spec_map(),
        }
    }

    /// Gives the field `name`.
    pub fn name(&mut self, value: &str) -> (r: &mut FilesystemPropertiesBuilder)
        ensures
            r.name matches Some(v) && v@ == value@,
            *r == (FilesystemPropertiesBuilder { name: r.name, ..*old(self) }),
            *final(self) == *final(r),
    {
        self.name = Some(value.to_owned());
        self
    }

    /// Gives the field `acl_inherit`.
    pub fn acl_inherit(&mut self, value: AclInheritMode) -> (r: &mut FilesystemPropertiesBuilder)
        ensures
            *r == (FilesystemPropertiesBuilder { acl_inherit: Some(value), ..*old(self) }),
            *final(self) == *final(r),
    {
        self.acl_inherit = Some(value);
        self
    }

    /// Gives the field `acl_mode`.
    pub fn acl_mode(&mut self, value: Option<AclMode>) -> (r: &mut FilesystemPropertiesBuilder)
        ensures
            *r == (FilesystemPropertiesBuilder { acl_mode: Some(value), ..*old(self) }),
            *final(self) == *final(r),
    {
        self.acl_mode = Some(value);
        self
    }

    /// Gives the field `atime`.
    pub fn atime(&mut self, value: bool) -> (r: &mut FilesystemPropertiesBuilder)
        ensures
            *r == (FilesystemPropertiesBuilder { atime: Some(value), ..*old(self) }),
            *final(self) == *final(r),
    {
        self.atime = Some(value);
        self
    }

    /// Gives the field `available`.
    pub fn available(&mut self, value: i64) -> (r: &mut FilesystemPropertiesBuilder)
        ensures
            *r == (FilesystemPropertiesBuilder { available: Some(value), ..*old(self) }),
            *final(self) == *final(r),
    {
        self.available = Some(value);
        self
    }

    /// Gives the field `can_mount`.
    pub fn can_mount(&mut self, value: CanMount) -> (r: &mut FilesystemPropertiesBuilder)
        ensures
            *r == (FilesystemPropertiesBuilder { can_mount: Some(value), ..*old(self) }),
            *final(self) == *final(r),
    {
        self.can_mount = Some(value);
        self
    }

    /// Gives the field `case_sensitivity`.
    pub fn case_sensitivity(&mut self, value: CaseSensitivity) -> (r: &mut FilesystemPropertiesBuilder)
        ensures
            *r == (FilesystemPropertiesBuilder { case_sensitivity: Some(value), ..*old(self) }),
            *final(self) == *final(r),
    {
        self.case_sensitivity = Some(value);
        self
    }

    /// Gives the field `checksum`.
    pub fn checksum(&mut self, value: Checksum) -> (r: &mut FilesystemPropertiesBuilder)
        ensures
            *r == (FilesystemPropertiesBuilder { checksum: Some(value), ..*old(self) }),
            *final(self) == *final(r),
    {
        self.checksum = Some(value);
        self
    }

    /// Gives the field `compression`.
    pub fn compression(&mut self, value: Compression) -> (r: &mut FilesystemPropertiesBuilder)
        ensures
            *r == (FilesystemPropertiesBuilder { compression: Some(value), ..*old(self) }),
            *final(self) == *final(r),
    {
        self.compression = Some(value);
        self
    }

    /// Gives the field `compression_ratio`.
    pub fn compression_ratio(&mut self, value: &str) -> (r: &mut FilesystemPropertiesBuilder)
        ensures
            r.compression_ratio matches Some(v) && v@ == value@,
            *r == (FilesystemPropertiesBuilder { compression_ratio: r.compression_ratio, ..*old(self) }),
            *final(self) == *final(r),
    {
        self.compression_ratio = Some(value.to_owned());
        self
    }

    /// Gives the field `copies`.
    pub fn copies(&mut self, value: Copies) -> (r: &mut FilesystemPropertiesBuilder)
        ensures
            *r == (FilesystemPropertiesBuilder { copies: Some(value), ..*old(self) }),
            *final(self) == *final(r),
    {
        self.copies = Some(value);
        self
    }

    /// Gives the field `create_txg`.
    pub fn create_txg(&mut self, value: Option<u64>) -> (r: &mut FilesystemPropertiesBuilder)
        ensures
            *r == (FilesystemPropertiesBuilder { create_txg: Some(value), ..*old(self) }),
            *final(self) == *final(r),
    {
        self.create_txg = Some(value);
        self
    }

    /// Gives the field `creation`.
    pub fn creation(&mut self, value: i64) -> (r: &mut FilesystemPropertiesBuilder)
        ensures
            *r == (FilesystemPropertiesBuilder { creation: Some(value), ..*old(self) }),
            *final(self) == *final(r),
    {
        self.creation = Some(value);
        self
    }

    /// Gives the field `dedup`.
    pub fn dedup(&mut self, value: Dedup) -> (r: &mut FilesystemPropertiesBuilder)
        ensures
            *r == (FilesystemPropertiesBuilder { dedup: Some(value), ..*old(self) }),
            *final(self) == *final(r),
    {
        self.dedup = Some(value);
        self
    }

    /// Gives the field `devices`.
    pub fn devices(&mut self, value: bool) -> (r: &mut FilesystemPropertiesBuilder)
        ensures
            *r == (FilesystemPropertiesBuilder { devices: Some(value), ..*old(self) }),
            *final(self) == *final(r),
    {
        self.devices = Some(value);
        self
    }

    /// Gives the field `dnode_size`.
    pub fn dnode_size(&mut self, value: DnodeSize) -> (r: &mut FilesystemPropertiesBuilder)
        ensures
            *r == (FilesystemPropertiesBuilder { dnode_size: Some(value), ..*old(self) }),
            *final(self) == *final(r),
    {
        self.dnode_size = Some(value);
        self
    }

    /// Gives the field `executable`.
    pub fn executable(&mut self, value: bool) -> (r: &mut FilesystemPropertiesBuilder)
        ensures
            *r == (FilesystemPropertiesBuilder { executable: Some(value), ..*old(self) }),
            *final(self) == *final(r),
    {
        self.executable = Some(value);
        self
    }

    /// Gives the field `filesystem_count`.
    pub fn filesystem_count(&mut self, value: Option<u64>) -> (r: &mut FilesystemPropertiesBuilder)
        ensures
            *r == (FilesystemPropertiesBuilder { filesystem_count: Some(value), ..*old(self) }),
            *final(self) == *final(r),
    {
        self.filesystem_count = Some(value);
        self
    }

    /// Gives the field `filesystem_limit`.
    pub fn filesystem_limit(&mut self, value: Option<u64>) -> (r: &mut FilesystemPropertiesBuilder)
        ensures
            *r == (FilesystemPropertiesBuilder { filesystem_limit: Some(value), ..*old(self) }),
            *final(self) == *final(r),
    {
        self.filesystem_limit = Some(value);
        self
    }

    /// Gives the field `guid`.
    pub fn guid(&mut self, value: Option<u64>) -> (r: &mut FilesystemPropertiesBuilder)
        ensures
            *r == (FilesystemPropertiesBuilder { guid: Some(value), ..*old(self) }),
            *final(self) == *final(r),
    {
        self.guid = Some(value);
        self
    }

    /// Gives the field `jailed`.
    pub fn jailed(&mut self, value: Option<bool>) -> (r: &mut FilesystemPropertiesBuilder)
        ensures
            *r == (FilesystemPropertiesBuilder { jailed: Some(value), ..*old(self) }),
            *final(self) == *final(r),
    {
        self.jailed = Some(value);
        self
    }

    /// Gives the field `log_bias`.
    pub fn log_bias(&mut self, value: LogBias) -> (r: &mut FilesystemPropertiesBuilder)
        ensures
            *r == (FilesystemPropertiesBuilder { log_bias: Some(value), ..*old(self) }),
            *final(self) == *final(r),
    {
        self.log_bias = Some(value);
        self
    }

    /// Gives the field `logical_referenced`.
    pub fn logical_referenced(&mut self, value: u64) -> (r: &mut FilesystemPropertiesBuilder)
        ensures
            *r == (FilesystemPropertiesBuilder { logical_referenced: Some(value), ..*old(self) }),
            *final(self) == *final(r),
    {
        self.logical_referenced = Some(value);
        self
    }

    /// Gives the field `logical_used`.
    pub fn logical_used(&mut self, value: u64) -> (r: &mut FilesystemPropertiesBuilder)
        ensures
            *r == (FilesystemPropertiesBuilder { logical_used: Some(value), ..*old(self) }),
            *final(self) == *final(r),
    {
        self.logical_used = Some(value);
        self
    }

    /// Gives the field `mls_label`.
    pub fn mls_label(&mut self, value: Option<String>) -> (r: &mut FilesystemPropertiesBuilder)
        ensures
            *r == (FilesystemPropertiesBuilder { mls_label: Some(value), ..*old(self) }),
            *final(self) == *final(r),
    {
        self.mls_label = Some(value);
        self
    }

    /// Gives the field `mounted`.
    pub fn mounted(&mut self, value: bool) -> (r: &mut FilesystemPropertiesBuilder)
        ensures
            *r == (FilesystemPropertiesBuilder { mounted: Some(value), ..*old(self) }),
            *final(self) == *final(r),
    {
        self.mounted = Some(value);
        self
    }

    /// Gives the field `mount_point`.
    pub fn mount_point(&mut self, value: Option<String>) -> (r: &mut FilesystemPropertiesBuilder)
        ensures
            *r == (FilesystemPropertiesBuilder { mount_point: Some(value), ..*old(self) }),
            *final(self) == *final(r),
    {
        self.mount_point = Some(value);
        self
    }

    /// Gives the field `nbmand`.
    pub fn nbmand(&mut self, value: bool) -> (r: &mut FilesystemPropertiesBuilder)
        ensures
            *r == (FilesystemPropertiesBuilder { nbmand: Some(value), ..*old(self) }),
            *final(self) == *final(r),
    {
        self.nbmand = Some(value);
        self
    }

    /// Gives the field `normalization`.
    pub fn normalization(&mut self, value: Normalization) -> (r: &mut FilesystemPropertiesBuilder)
        ensures
            *r == (FilesystemPropertiesBuilder { normalization: Some(value), ..*old(self) }),
            *final(self) == *final(r),
    {
        self.normalization = Some(value);
        self
    }

    /// Gives the field `origin`.
    pub fn origin(&mut self, value: Option<String>) -> (r: &mut FilesystemPropertiesBuilder)
        ensures
            *r == (FilesystemPropertiesBuilder { origin: Some(value), ..*old(self) }),
            *final(self) == *final(r),
    {
        self.origin = Some(value);
        self
    }

    /// Gives the field `primary_cache`.
    pub fn primary_cache(&mut self, value: CacheMode) -> (r: &mut FilesystemPropertiesBuilder)
        ensures
            *r == (FilesystemPropertiesBuilder { primary_cache: Some(value), ..*old(self) }),
            *final(self) == *final(r),
    {
        self.primary_cache = Some(value);
        self
    }

    /// Gives the field `quota`.
    pub fn quota(&mut self, value: u64) -> (r: &mut FilesystemPropertiesBuilder)
        ensures
            *r == (FilesystemPropertiesBuilder { quota: Some(value), ..*old(self) }),
            *final(self) == *final(r),
    {
        self.quota = Some(value);
        self
    }

    /// Gives the field `readonly`.
    pub fn readonly(&mut self, value: bool) -> (r: &mut FilesystemPropertiesBuilder)
        ensures
            *r == (FilesystemPropertiesBuilder { readonly: Some(value), ..*old(self) }),
            *final(self) == *final(r),
    {
        self.readonly = Some(value);
        self
    }

    /// Gives the field `record_size`.
    pub fn record_size(&mut self, value: u64) -> (r: &mut FilesystemPropertiesBuilder)
        ensures
            *r == (FilesystemPropertiesBuilder { record_size: Some(value), ..*old(self) }),
            *final(self) == *final(r),
    {
        self.record_size = Some(value);
        self
    }

    /// Gives the field `redundant_metadata`.
    pub fn redundant_metadata(&mut self, value: RedundantMetadata) -> (r: &mut FilesystemPropertiesBuilder)
        ensures
            *r == (FilesystemPropertiesBuilder { redundant_metadata: Some(value), ..*old(self) }),
            *final(self) == *final(r),
    {
        self.redundant_metadata = Some(value);
        self
    }

    /// Gives the field `ref_compression_ratio`.
    pub fn ref_compression_ratio(&mut self, value: &str) -> (r: &mut FilesystemPropertiesBuilder)
        ensures
            r.ref_compression_ratio matches Some(v) && v@ == value@,
            *r == (FilesystemPropertiesBuilder { ref_compression_ratio: r.ref_compression_ratio, ..*old(self) }),
            *final(self) == *final(r),
    {
        self.ref_compression_ratio = Some(value.to_owned());
        self
    }

    /// Gives the field `referenced`.
    pub fn referenced(&mut self, value: u64) -> (r: &mut FilesystemPropertiesBuilder)
        ensures
            *r == (FilesystemPropertiesBuilder { referenced: Some(value), ..*old(self) }),
            *final(self) == *final(r),
    {
        self.referenced = Some(value);
        self
    }

    /// Gives the field `ref_quota`.
    pub fn ref_quota(&mut self, value: u64) -> (r: &mut FilesystemPropertiesBuilder)
        ensures
            *r == (FilesystemPropertiesBuilder { ref_quota: Some(value), ..*old(self) }),
            *final(self) == *final(r),
    {
        self.ref_quota = Some(value);
        self
    }

    /// Gives the field `ref_reservation`.
    pub fn ref_reservation(&mut self, value: u64) -> (r: &mut FilesystemPropertiesBuilder)
        ensures
            *r == (FilesystemPropertiesBuilder { ref_reservation: Some(value), ..*old(self) }),
            *final(self) == *final(r),
    {
        self.ref_reservation = Some(value);
        self
    }

    /// Gives the field `reservation`.
    pub fn reservation(&mut self, value: u64) -> (r: &mut FilesystemPropertiesBuilder)
        ensures
            *r == (FilesystemPropertiesBuilder { reservation: Some(value), ..*old(self) }),
            *final(self) == *final(r),
    {
        self.reservation = Some(value);
        self
    }

    /// Gives the field `secondary_cache`.
    pub fn secondary_cache(&mut self, value: CacheMode) -> (r: &mut FilesystemPropertiesBuilder)
        ensures
            *r == (FilesystemPropertiesBuilder { secondary_cache: Some(value), ..*old(self) }),
            *final(self) == *final(r),
    {
        self.secondary_cache = Some(value);
        self
    }

    /// Gives the field `setuid`.
    pub fn setuid(&mut self, value: bool) -> (r: &mut FilesystemPropertiesBuilder)
        ensures
            *r == (FilesystemPropertiesBuilder { setuid: Some(value), ..*old(self) }),
            *final(self) == *final(r),
    {
        self.setuid = Some(value);
        self
    }

    /// Gives the field `snap_dir`.
    pub fn snap_dir(&mut self, value: SnapDir) -> (r: &mut FilesystemPropertiesBuilder)
        ensures
            *r == (FilesystemPropertiesBuilder { snap_dir: Some(value), ..*old(self) }),
            *final(self) == *final(r),
    {
        self.snap_dir = Some(value);
        self
    }

    /// Gives the field `snapshot_count`.
    pub fn snapshot_count(&mut self, value: Option<u64>) -> (r: &mut FilesystemPropertiesBuilder)
        ensures
            *r == (FilesystemPropertiesBuilder { snapshot_count: Some(value), ..*old(self) }),
            *final(self) == *final(r),
    {
        self.snapshot_count = Some(value);
        self
    }

    /// Gives the field `snapshot_limit`.
    pub fn snapshot_limit(&mut self, value: Option<u64>) -> (r: &mut FilesystemPropertiesBuilder)
        ensures
            *r == (FilesystemPropertiesBuilder { snapshot_limit: Some(value), ..*old(self) }),
            *final(self) == *final(r),
    {
        self.snapshot_limit = Some(value);
        self
    }

    /// Gives the field `sync`.
    pub fn sync(&mut self, value: SyncMode) -> (r: &mut FilesystemPropertiesBuilder)
        ensures
            *r == (FilesystemPropertiesBuilder { sync: Some(value), ..*old(self) }),
            *final(self) == *final(r),
    {
        self.sync = Some(value);
        self
    }

    /// Gives the field `used`.
    pub fn used(&mut self, value: u64) -> (r: &mut FilesystemPropertiesBuilder)
        ensures
            *r == (FilesystemPropertiesBuilder { used: Some(value), ..*old(self) }),
            *final(self) == *final(r),
    {
        self.used = Some(value);
        self
    }

    /// Gives the field `used_by_children`.
    pub fn used_by_children(&mut self, value: u64) -> (r: &mut FilesystemPropertiesBuilder)
        ensures
            *r == (FilesystemPropertiesBuilder { used_by_children: Some(value), ..*old(self) }),
            *final(self) == *final(r),
    {
        self.used_by_children = Some(value);
        self
    }

    /// Gives the field `used_by_dataset`.
    pub fn used_by_dataset(&mut self, value: u64) -> (r: &mut FilesystemPropertiesBuilder)
        ensures
            *r == (FilesystemPropertiesBuilder { used_by_dataset: Some(value), ..*old(self) }),
            *final(self) == *final(r),
    {
        self.used_by_dataset = Some(value);
        self
    }

    /// Gives the field `used_by_ref_reservation`.
    pub fn used_by_ref_reservation(&mut self, value: u64) -> (r: &mut FilesystemPropertiesBuilder)
        ensures
            *r == (FilesystemPropertiesBuilder { used_by_ref_reservation: Some(value), ..*old(self) }),
            *final(self) == *final(r),
    {
        self.used_by_ref_reservation = Some(value);
        self
    }

    /// Gives the field `used_by_snapshots`.
    pub fn used_by_snapshots(&mut self, value: u64) -> (r: &mut FilesystemPropertiesBuilder)
        ensures
            *r == (FilesystemPropertiesBuilder { used_by_snapshots: Some(value), ..*old(self) }),
            *final(self) == *final(r),
    {
        self.used_by_snapshots = Some(value);
        self
    }

    /// Gives the field `utf8_only`.
    pub fn utf8_only(&mut self, value: Option<bool>) -> (r: &mut FilesystemPropertiesBuilder)
        ensures
            *r == (FilesystemPropertiesBuilder { utf8_only: Some(value), ..*old(self) }),
            *final(self) == *final(r),
    {
        self.utf8_only = Some(value);
        self
    }

    /// Gives the field `version`.
    pub fn version(&mut self, value: u64) -> (r: &mut FilesystemPropertiesBuilder)
        ensures
            *r == (FilesystemPropertiesBuilder { version: Some(value), ..*old(self) }),
            *final(self) == *final(r),
    {
        self.version = Some(value);
        self
    }

    /// Gives the field `volume_mode`.
    pub fn volume_mode(&mut self, value: Option<VolumeMode>) -> (r: &mut FilesystemPropertiesBuilder)
        ensures
            *r == (FilesystemPropertiesBuilder { volume_mode: Some(value), ..*old(self) }),
            *final(self) == *final(r),
    {
        self.volume_mode = Some(value);
        self
    }

    /// Gives the field `vscan`.
    pub fn vscan(&mut self, value: bool) -> (r: &mut FilesystemPropertiesBuilder)
        ensures
            *r == (FilesystemPropertiesBuilder { vscan: Some(value), ..*old(self) }),
            *final(self) == *final(r),
    {
        self.vscan = Some(value);
        self
    }

    /// Gives the field `written`.
    pub fn written(&mut self, value: u64) -> (r: &mut FilesystemPropertiesBuilder)
        ensures
            *r == (FilesystemPropertiesBuilder { written: Some(value), ..*old(self) }),
            *final(self) == *final(r),
    {
        self.written = Some(value);
        self
    }

    /// Gives the field `xattr`.
    pub fn xattr(&mut self, value: bool) -> (r: &mut FilesystemPropertiesBuilder)
        ensures
            *r == (FilesystemPropertiesBuilder { xattr: Some(value), ..*old(self) }),
            *final(self) == *final(r),
    {
        self.xattr = Some(value);
        self
    }

    /// Gives the field `unknown_properties`.
    pub fn unknown_properties(&mut self, value: StringMap) -> (r: &mut FilesystemPropertiesBuilder)
        ensures
            *r == (FilesystemPropertiesBuilder { unknown_properties: Some(value), ..*old(self) }),
            *final(self) == *final(r),
    {
        self.unknown_properties = Some(value);
        self
    }

    /// Records a property this library has no field for: `key` gets
    /// `value` among the unknown properties, which start empty.
    pub fn insert_unknown_property(&mut self, key: String, value: String)
        ensures
            final(self).unknown_properties matches Some(m) && m.spec_map() == match old(self).unknown_properties {
                Some(o) => o.spec_map(),
                None => Map::empty(),
            }.insert(key@, value@),
            *final(self) == (FilesystemPropertiesBuilder { unknown_properties: final(self).unknown_properties, ..*old(self) }),
    {
        let mut m = match self.unknown_properties.take() {
            Some(m) => m,
            None => {
                let m = StringMap::new();
                assert(m.spec_map() =~= Map::empty());
                m
            },
        };
        m.insert(key, value);
        self.unknown_properties = Some(m);
    }

    /// The properties, when every field that has no default is given; else
    /// the name of a missing field.
    #[verifier::rlimit(50)]
    pub fn build(&self) -> (r: Result<FilesystemProperties, String>)
        ensures
            r is Ok <==> self.complete(),
            r matches Ok(p) ==> p@ == self.built(),
    {
        let name = match &self.name {
            Some(v) => v.clone(),
            None => return Err("`name` must be initialized".to_owned()),
        };
        let acl_inherit = match self.acl_inherit {
            Some(v) => v,
            None => return Err("`acl_inherit` must be initialized".to_owned()),
        };
        let acl_mode = match self.acl_mode {
            Some(v) => v,
            None => None,
        };
        let atime = match self.atime {
            Some(v) => v,
            None => return Err("`atime` must be initialized".to_owned()),
        };
        let available = match self.available {
            Some(v) => v,
            None => return Err("`available` must be initialized".to_owned()),
        };
        let can_mount = match self.can_mount {
            Some(v) => v,
            None => return Err("`can_mount` must be initialized".to_owned()),
        };
        let case_sensitivity = match self.case_sensitivity {
            Some(v) => v,
            None => return Err("`case_sensitivity` must be initialized".to_owned()),
        };
        let checksum = match self.checksum {
            Some(v) => v,
            None => return Err("`checksum` must be initialized".to_owned()),
        };
        let compression = match self.compression {
            Some(v) => v,
            None => return Err("`compression` must be initialized".to_owned()),
        };
        let compression_ratio = match &self.compression_ratio {
            Some(v) => v.clone(),
            None => return Err("`compression_ratio` must be initialized".to_owned()),
        };
        let copies = match self.copies {
            Some(v) => v,
            None => return Err("`copies` must be initialized".to_owned()),
        };
        let create_txg = match self.create_txg {
            Some(v) => v,
            None => return Err("`create_txg` must be initialized".to_owned()),
        };
        let creation = match self.creation {
            Some(v) => v,
            None => return Err("`creation` must be initialized".to_owned()),
        };
        let dedup = match self.dedup {
            Some(v) => v,
            None => return Err("`dedup` must be initialized".to_owned()),
        };
        let devices = match self.devices {
            Some(v) => v,
            None => return Err("`devices` must be initialized".to_owned()),
        };
        let dnode_size = match self.dnode_size {
            Some(v) => v,
            None => return Err("`dnode_size` must be initialized".to_owned()),
        };
        let executable = match self.executable {
            Some(v) => v,
            None => return Err("`executable` must be initialized".to_owned()),
        };
        let filesystem_count = match self.filesystem_count {
            Some(v) => v,
            None => None,
        };
        let filesystem_limit = match self.filesystem_limit {
            Some(v) => v,
            None => None,
        };
        let guid = match self.guid {
            Some(v) => v,
            None => None,
        };
        let jailed = match self.jailed {
            Some(v) => v,
            None => None,
        };
        let log_bias = match self.log_bias {
            Some(v) => v,
            None => return Err("`log_bias` must be initialized".to_owned()),
        };
        let logical_referenced = match self.logical_referenced {
            Some(v) => v,
            None => return Err("`logical_referenced` must be initialized".to_owned()),
        };
        let logical_used = match self.logical_used {
            Some(v) => v,
            None => return Err("`logical_used` must be initialized".to_owned()),
        };
        let mls_label = match &self.mls_label {
            Some(v) => copy_opt_string(v),
            None => None,
        };
        let mounted = match self.mounted {
            Some(v) => v,
            None => return Err("`mounted` must be initialized".to_owned()),
        };
        let mount_point = match &self.mount_point {
            Some(v) => copy_opt_string(v),
            None => return Err("`mount_point` must be initialized".to_owned()),
        };
        let nbmand = match self.nbmand {
            Some(v) => v,
            None => return Err("`nbmand` must be initialized".to_owned()),
        };
        let normalization = match self.normalization {
            Some(v) => v,
            None => return Err("`normalization` must be initialized".to_owned()),
        };
        let origin = match &self.origin {
            Some(v) => copy_opt_string(v),
            None => None,
        };
        let primary_cache = match self.primary_cache {
            Some(v) => v,
            None => return Err("`primary_cache` must be initialized".to_owned()),
        };
        let quota = match self.quota {
            Some(v) => v,
            None => return Err("`quota` must be initialized".to_owned()),
        };
        let readonly = match self.readonly {
            Some(v) => v,
            None => return Err("`readonly` must be initialized".to_owned()),
        };
        let record_size = match self.record_size {
            Some(v) => v,
            None => return Err("`record_size` must be initialized".to_owned()),
        };
        let redundant_metadata = match self.redundant_metadata {
            Some(v) => v,
            None => return Err("`redundant_metadata` must be initialized".to_owned()),
        };
        let ref_compression_ratio = match &self.ref_compression_ratio {
            Some(v) => v.clone(),
            None => return Err("`ref_compression_ratio` must be initialized".to_owned()),
        };
        let referenced = match self.referenced {
            Some(v) => v,
            None => return Err("`referenced` must be initialized".to_owned()),
        };
        let ref_quota = match self.ref_quota {
            Some(v) => v,
            None => return Err("`ref_quota` must be initialized".to_owned()),
        };
        let ref_reservation = match self.ref_reservation {
            Some(v) => v,
            None => return Err("`ref_reservation` must be initialized".to_owned()),
        };
        let reservation = match self.reservation {
            Some(v) => v,
            None => return Err("`reservation` must be initialized".to_owned()),
        };
        let secondary_cache = match self.secondary_cache {
            Some(v) => v,
            None => return Err("`secondary_cache` must be initialized".to_owned()),
        };
        let setuid = match self.setuid {
            Some(v) => v,
            None => return Err("`setuid` must be initialized".to_owned()),
        };
        let snap_dir = match self.snap_dir {
            Some(v) => v,
            None => return Err("`snap_dir` must be initialized".to_owned()),
        };
        let snapshot_count = match self.snapshot_count {
            Some(v) => v,
            None => None,
        };
        let snapshot_limit = match self.snapshot_limit {
            Some(v) => v,
            None => None,
        };
        let sync = match self.sync {
            Some(v) => v,
            None => return Err("`sync` must be initialized".to_owned()),
        };
        let used = match self.used {
            Some(v) => v,
            None => return Err("`used` must be initialized".to_owned()),
        };
        let used_by_children = match self.used_by_children {
            Some(v) => v,
            None => return Err("`used_by_children` must be initialized".to_owned()),
        };
        let used_by_dataset = match self.used_by_dataset {
            Some(v) => v,
            None => return Err("`used_by_dataset` must be initialized".to_owned()),
        };
        let used_by_ref_reservation = match self.used_by_ref_reservation {
            Some(v) => v,
            None => return Err("`used_by_ref_reservation` must be initialized".to_owned()),
        };
        let used_by_snapshots = match self.used_by_snapshots {
            Some(v) => v,
            None => return Err("`used_by_snapshots` must be initialized".to_owned()),
        };
        let utf8_only = match self.utf8_only {
            Some(v) => v,
            None => None,
        };
        let version = match self.version {
            Some(v) => v,
            None => return Err("`version` must be initialized".to_owned()),
        };
        let volume_mode = match self.volume_mode {
            Some(v) => v,
            None => return Err("`volume_mode` must be initialized".to_owned()),
        };
        let vscan = match self.vscan {
            Some(v) => v,
            None => return Err("`vscan` must be initialized".to_owned()),
        };
        let written = match self.written {
            Some(v) => v,
            None => return Err("`written` must be initialized".to_owned()),
        };
        let xattr = match self.xattr {
            Some(v) => v,
            None => return Err("`xattr` must be initialized".to_owned()),
        };
        let unknown_properties = match &self.unknown_properties {
            Some(v) => v.clone(),
            None => return Err("`unknown_properties` must be initialized".to_owned()),
        };
        Ok(FilesystemProperties {
            name,
            acl_inherit,
            acl_mode,
            atime,
            available,
            can_mount,
            case_sensitivity,
            checksum,
            compression,
            compression_ratio,
            copies,
            create_txg,
            creation,
            dedup,
            devices,
            dnode_size,
            executable,
            filesystem_count,
            filesystem_limit,
            guid,
            jailed,
            log_bias,
            logical_referenced,
            logical_used,
            mls_label,
            mounted,
            mount_point,
            nbmand,
            normalization,
            origin,
            primary_cache,
            quota,
            readonly,
            record_size,
            redundant_metadata,
            ref_compression_ratio,
            referenced,
            ref_quota,
            ref_reservation,
            reservation,
            secondary_cache,
            setuid,
            snap_dir,
            snapshot_count,
            snapshot_limit,
            sync,
            used,
            used_by_children,
            used_by_dataset,
            used_by_ref_reservation,
            used_by_snapshots,
            utf8_only,
            version,
            volume_mode,
            vscan,
            written,
            xattr,
            unknown_properties,
        })
    }
}

impl Default for FilesystemPropertiesBuilder {
    fn default() -> (r: FilesystemPropertiesBuilder)
        ensures
            r == FilesystemPropertiesBuilder::empty(),
    {
        FilesystemPropertiesBuilder {
            name: None,
            acl_inherit: None,
            acl_mode: None,
            atime: None,
            available: None,
            can_mount: None,
            case_sensitivity: None,
            checksum: None,
            compression: None,
            compression_ratio: None,
            copies: None,
            create_txg: None,
            creation: None,
            dedup: None,
            devices: None,
            dnode_size: None,
            executable: None,
            filesystem_count: None,
            filesystem_limit: None,
            guid: None,
            jailed: None,
            log_bias: None,
            logical_referenced: None,
            logical_used: None,
            mls_label: None,
            mounted: None,
            mount_point: None,
            nbmand: None,
            normalization: None,
            origin: None,
            primary_cache: None,
            quota: None,
            readonly: None,
            record_size: None,
            redundant_metadata: None,
            ref_compression_ratio: None,
            referenced: None,
            ref_quota: None,
            ref_reservation: None,
            reservation: None,
            secondary_cache: None,
            setuid: None,
            snap_dir: None,
            snapshot_count: None,
            snapshot_limit: None,
            sync: None,
            used: None,
            used_by_children: None,
            used_by_dataset: None,
            used_by_ref_reservation: None,
            used_by_snapshots: None,
            utf8_only: None,
            version: None,
            volume_mode: None,
            vscan: None,
            written: None,
            xattr: None,
            unknown_properties: None,
        }
    }
}

impl FilesystemProperties {
    /// A builder with the name given and no unknown property yet.
    pub fn builder(name: &str) -> (r: FilesystemPropertiesBuilder)
        ensures
            r.name matches Some(n) && n@ == name@,
            r.unknown_properties matches Some(m) && m.spec_map() == Map::<Seq<char>, Seq<char>>::empty(),
            r == (FilesystemPropertiesBuilder { name: r.name, unknown_properties: r.unknown_properties, ..FilesystemPropertiesBuilder::empty() }),
    {
        let mut ret = FilesystemPropertiesBuilder::default();
        let m = StringMap::new();
        assert(m.spec_map() =~= Map::empty());
        ret.unknown_properties(m);
        ret.name(name);
        ret
    }
}

/// Builder of `VolumeProperties`: every field must be given, except those that may be
/// absent, which default to none.
#[derive(Debug, Clone)]
pub struct VolumePropertiesBuilder {
    pub name: Option<String>,
    pub available: Option<i64>,
    pub checksum: Option<Checksum>,
    pub compression: Option<Compression>,
    pub compression_ratio: Option<String>,
    pub copies: Option<Copies>,
    pub create_txg: Option<Option<u64>>,
    pub creation: Option<i64>,
    pub dedup: Option<Dedup>,
    pub guid: Option<Option<u64>>,
    pub log_bias: Option<LogBias>,
    pub logical_referenced: Option<u64>,
    pub logical_used: Option<u64>,
    pub mls_label: Option<Option<String>>,
    pub primary_cache: Option<CacheMode>,
    pub readonly: Option<bool>,
    pub redundant_metadata: Option<RedundantMetadata>,
    pub ref_compression_ratio: Option<String>,
    pub referenced: Option<u64>,
    pub ref_reservation: Option<u64>,
    pub reservation: Option<u64>,
    pub secondary_cache: Option<CacheMode>,
    pub snapshot_count: Option<Option<u64>>,
    pub snapshot_limit: Option<Option<u64>>,
    pub sync: Option<SyncMode>,
    pub used: Option<u64>,
    pub used_by_children: Option<u64>,
    pub used_by_dataset: Option<u64>,
    pub used_by_ref_reservation: Option<u64>,
    pub used_by_snapshots: Option<u64>,
    pub volume_block_size: Option<u64>,
    pub volume_mode: Option<Option<VolumeMode>>,
    pub volume_size: Option<u64>,
    pub written: Option<u64>,
    pub unknown_properties: Option<StringMap>,
}

impl VolumePropertiesBuilder {
    /// A builder with no field given.
    pub open spec fn empty() -> VolumePropertiesBuilder {
        VolumePropertiesBuilder {
            name: None,
            available: None,
            checksum: None,
            compression: None,
            compression_ratio: None,
            copies: None,
            create_txg: None,
            creation: None,
            dedup: None,
            guid: None,
            log_bias: None,
            logical_referenced: None,
            logical_used: None,
            mls_label: None,
            primary_cache: None,
            readonly: None,
            redundant_metadata: None,
            ref_compression_ratio: None,
            referenced: None,
            ref_reservation: None,
            reservation: None,
            secondary_cache: None,
            snapshot_count: None,
            snapshot_limit: None,
            sync: None,
            used: None,
            used_by_children: None,
            used_by_dataset: None,
            used_by_ref_reservation: None,
            used_by_snapshots: None,
            volume_block_size: None,
            volume_mode: None,
            volume_size: None,
            written: None,
            unknown_properties: None,
        }
    }

    /// Whether every field that has no default is given.
    pub open spec fn complete(self) -> bool {
        self.name is Some
        && self.available is Some
        && self.checksum is Some
        && self.compression is Some
        && self.compression_ratio is Some
        && self.copies is Some
        && self.create_txg is Some
        && self.creation is Some
        && self.dedup is Some
        && self.log_bias is Some
        && self.logical_referenced is Some
        && self.logical_used is Some
        && self.primary_cache is Some
        && self.readonly is Some
        && self.redundant_metadata is Some
        && self.ref_compression_ratio is Some
        && self.referenced is Some
        && self.ref_reservation is Some
        && self.reservation is Some
        && self.secondary_cache is Some
        && self.sync is Some
        && self.used is Some
        && self.used_by_children is Some
        && self.used_by_dataset is Some
        && self.used_by_ref_reservation is Some
        && self.used_by_snapshots is Some
        && self.volume_block_size is Some
        && self.volume_mode is Some
        && self.volume_size is Some
        && self.written is Some
        && self.unknown_properties is Some
    }

    /// What `build` makes of a complete builder.
    pub open spec fn built(self) -> VolumePropertiesView {
        VolumePropertiesView {
            name: self.name->0@,
            available: self.available->0,
            checksum: self.checksum->0,
            compression: self.compression->0,
            compression_ratio: self.compression_ratio->0@,
            copies: self.copies->0,
            create_txg: given(self.create_txg),
            creation: self.creation->0,
            dedup: self.dedup->0,
            guid: given(self.guid),
            log_bias: self.log_bias->0,
            logical_referenced: self.logical_referenced->0,
            logical_used: self.logical_used->0,
            mls_label: given_text(self.mls_label),
            primary_cache: self.primary_cache->0,
            readonly: self.readonly->0,
            redundant_metadata: self.redundant_metadata->0,
            ref_compression_ratio: self.ref_compression_ratio->0@,
            referenced: self.referenced->0,
            ref_reservation: self.ref_reservation->0,
            reservation: self.reservation->0,
            secondary_cache: self.secondary_cache->0,
            snapshot_count: given(self.snapshot_count),
            snapshot_limit: given(self.snapshot_limit),
            sync: self.sync->0,
            used: self.used->0,
            used_by_children: self.used_by_children->0,
            used_by_dataset: self.used_by_dataset->0,
            used_by_ref_reservation: self.used_by_ref_reservation->0,
            used_by_snapshots: self.used_by_snapshots->0,
            volume_block_size: self.volume_block_size->0,
            volume_mode: given(self.volume_mode),
            volume_size: self.volume_size->0,
            written: self.written->0,
            unknown_properties: self.unknown_properties->0.spec_map(),
        }
    }

    /// Gives the field `name`.
    pub fn name(&mut self, value: &str) -> (r: &mut VolumePropertiesBuilder)
        ensures
            r.name matches Some(v) && v@ == value@,
            *r == (VolumePropertiesBuilder { name: r.name, ..*old(self) }),
            *final(self) == *final(r),
    {
        self.name = Some(value.to_owned());
        self
    }

    /// Gives the field `available`.
    pub fn available(&mut self, value: i64) -> (r: &mut VolumePropertiesBuilder)
        ensures
            *r == (VolumePropertiesBuilder { available: Some(value), ..*old(self) }),
            *final(self) == *final(r),
    {
        self.available = Some(value);
        self
    }

    /// Gives the field `checksum`.
    pub fn checksum(&mut self, value: Checksum) -> (r: &mut VolumePropertiesBuilder)
        ensures
            *r == (VolumePropertiesBuilder { checksum: Some(value), ..*old(self) }),
            *final(self) == *final(r),
    {
        self.checksum = Some(value);
        self
    }

    /// Gives the field `compression`.
    pub fn compression(&mut self, value: Compression) -> (r: &mut VolumePropertiesBuilder)
        ensures
            *r == (VolumePropertiesBuilder { compression: Some(value), ..*old(self) }),
            *final(self) == *final(r),
    {
        self.compression = Some(value);
        self
    }

    /// Gives the field `compression_ratio`.
    pub fn compression_ratio(&mut self, value: &str) -> (r: &mut VolumePropertiesBuilder)
        ensures
            r.compression_ratio matches Some(v) && v@ == value@,
            *r == (VolumePropertiesBuilder { compression_ratio: r.compression_ratio, ..*old(self) }),
            *final(self) == *final(r),
    {
        self.compression_ratio = Some(value.to_owned());
        self
    }

    /// Gives the field `copies`.
    pub fn copies(&mut self, value: Copies) -> (r: &mut VolumePropertiesBuilder)
        ensures
            *r == (VolumePropertiesBuilder { copies: Some(value), ..*old(self) }),
            *final(self) == *final(r),
    {
        self.copies = Some(value);
        self
    }

    /// Gives the field `create_txg`.
    pub fn create_txg(&mut self, value: Option<u64>) -> (r: &mut VolumePropertiesBuilder)
        ensures
            *r == (VolumePropertiesBuilder { create_txg: Some(value), ..*old(self) }),
            *final(self) == *final(r),
    {
        self.create_txg = Some(value);
        self
    }

    /// Gives the field `creation`.
    pub fn creation(&mut self, value: i64) -> (r: &mut VolumePropertiesBuilder)
        ensures
            *r == (VolumePropertiesBuilder { creation: Some(value), ..*old(self) }),
            *final(self) == *final(r),
    {
        self.creation = Some(value);
        self
    }

    /// Gives the field `dedup`.
    pub fn dedup(&mut self, value: Dedup) -> (r: &mut VolumePropertiesBuilder)
        ensures
            *r == (VolumePropertiesBuilder { dedup: Some(value), ..*old(self) }),
            *final(self) == *final(r),
    {
        self.dedup = Some(value);
        self
    }

    /// Gives the field `guid`.
    pub fn guid(&mut self, value: Option<u64>) -> (r: &mut VolumePropertiesBuilder)
        ensures
            *r == (VolumePropertiesBuilder { guid: Some(value), ..*old(self) }),
            *final(self) == *final(r),
    {
        self.guid = Some(value);
        self
    }

    /// Gives the field `log_bias`.
    pub fn log_bias(&mut self, value: LogBias) -> (r: &mut VolumePropertiesBuilder)
        ensures
            *r == (VolumePropertiesBuilder { log_bias: Some(value), ..*old(self) }),
            *final(self) == *final(r),
    {
        self.log_bias = Some(value);
        self
    }

    /// Gives the field `logical_referenced`.
    pub fn logical_referenced(&mut self, value: u64) -> (r: &mut VolumePropertiesBuilder)
        ensures
            *r == (VolumePropertiesBuilder { logical_referenced: Some(value), ..*old(self) }),
            *final(self) == *final(r),
    {
        self.logical_referenced = Some(value);
        self
    }

    /// Gives the field `logical_used`.
    pub fn logical_used(&mut self, value: u64) -> (r: &mut VolumePropertiesBuilder)
        ensures
            *r == (VolumePropertiesBuilder { logical_used: Some(value), ..*old(self) }),
            *final(self) == *final(r),
    {
        self.logical_used = Some(value);
        self
    }

    /// Gives the field `mls_label`.
    pub fn mls_label(&mut self, value: Option<String>) -> (r: &mut VolumePropertiesBuilder)
        ensures
            *r == (VolumePropertiesBuilder { mls_label: Some(value), ..*old(self) }),
            *final(self) == *final(r),
    {
        self.mls_label = Some(value);
        self
    }

    /// Gives the field `primary_cache`.
    pub fn primary_cache(&mut self, value: CacheMode) -> (r: &mut VolumePropertiesBuilder)
        ensures
            *r == (VolumePropertiesBuilder { primary_cache: Some(value), ..*old(self) }),
            *final(self) == *final(r),
    {
        self.primary_cache = Some(value);
        self
    }

    /// Gives the field `readonly`.
    pub fn readonly(&mut self, value: bool) -> (r: &mut VolumePropertiesBuilder)
        ensures
            *r == (VolumePropertiesBuilder { readonly: Some(value), ..*old(self) }),
            *final(self) == *final(r),
    {
        self.readonly = Some(value);
        self
    }

    /// Gives the field `redundant_metadata`.
    pub fn redundant_metadata(&mut self, value: RedundantMetadata) -> (r: &mut VolumePropertiesBuilder)
        ensures
            *r == (VolumePropertiesBuilder { redundant_metadata: Some(value), ..*old(self) }),
            *final(self) == *final(r),
    {
        self.redundant_metadata = Some(value);
        self
    }

    /// Gives the field `ref_compression_ratio`.
    pub fn ref_compression_ratio(&mut self, value: &str) -> (r: &mut VolumePropertiesBuilder)
        ensures
            r.ref_compression_ratio matches Some(v) && v@ == value@,
            *r == (VolumePropertiesBuilder { ref_compression_ratio: r.ref_compression_ratio, ..*old(self) }),
            *final(self) == *final(r),
    {
        self.ref_compression_ratio = Some(value.to_owned());
        self
    }

    /// Gives the field `referenced`.
    pub fn referenced(&mut self, value: u64) -> (r: &mut VolumePropertiesBuilder)
        ensures
            *r == (VolumePropertiesBuilder { referenced: Some(value), ..*old(self) }),
            *final(self) == *final(r),
    {
        self.referenced = Some(value);
        self
    }

    /// Gives the field `ref_reservation`.
    pub fn ref_reservation(&mut self, value: u64) -> (r: &mut VolumePropertiesBuilder)
        ensures
            *r == (VolumePropertiesBuilder { ref_reservation: Some(value), ..*old(self) }),
            *final(self) == *final(r),
    {
        self.ref_reservation = Some(value);
        self
    }

    /// Gives the field `reservation`.
    pub fn reservation(&mut self, value: u64) -> (r: &mut VolumePropertiesBuilder)
        ensures
            *r == (VolumePropertiesBuilder { reservation: Some(value), ..*old(self) }),
            *final(self) == *final(r),
    {
        self.reservation = Some(value);
        self
    }

    /// Gives the field `secondary_cache`.
    pub fn secondary_cache(&mut self, value: CacheMode) -> (r: &mut VolumePropertiesBuilder)
        ensures
            *r == (VolumePropertiesBuilder { secondary_cache: Some(value), ..*old(self) }),
            *final(self) == *final(r),
    {
        self.secondary_cache = Some(value);
        self
    }

    /// Gives the field `snapshot_count`.
    pub fn snapshot_count(&mut self, value: Option<u64>) -> (r: &mut VolumePropertiesBuilder)
        ensures
            *r == (VolumePropertiesBuilder { snapshot_count: Some(value), ..*old(self) }),
            *final(self) == *final(r),
    {
        self.snapshot_count = Some(value);
        self
    }

    /// Gives the field `snapshot_limit`.
    pub fn snapshot_limit(&mut self, value: Option<u64>) -> (r: &mut VolumePropertiesBuilder)
        ensures
            *r == (VolumePropertiesBuilder { snapshot_limit: Some(value), ..*old(self) }),
            *final(self) == *final(r),
    {
        self.snapshot_limit = Some(value);
        self
    }

    /// Gives the field `sync`.
    pub fn sync(&mut self, value: SyncMode) -> (r: &mut VolumePropertiesBuilder)
        ensures
            *r == (VolumePropertiesBuilder { sync: Some(value), ..*old(self) }),
            *final(self) == *final(r),
    {
        self.sync = Some(value);
        self
    }

    /// Gives the field `used`.
    pub fn used(&mut self, value: u64) -> (r: &mut VolumePropertiesBuilder)
        ensures
            *r == (VolumePropertiesBuilder { used: Some(value), ..*old(self) }),
            *final(self) == *final(r),
    {
        self.used = Some(value);
        self
    }

    /// Gives the field `used_by_children`.
    pub fn used_by_children(&mut self, value: u64) -> (r: &mut VolumePropertiesBuilder)
        ensures
            *r == (VolumePropertiesBuilder { used_by_children: Some(value), ..*old(self) }),
            *final(self) == *final(r),
    {
        self.used_by_children = Some(value);
        self
    }

    /// Gives the field `used_by_dataset`.
    pub fn used_by_dataset(&mut self, value: u64) -> (r: &mut VolumePropertiesBuilder)
        ensures
            *r == (VolumePropertiesBuilder { used_by_dataset: Some(value), ..*old(self) }),
            *final(self) == *final(r),
    {
        self.used_by_dataset = Some(value);
        self
    }

    /// Gives the field `used_by_ref_reservation`.
    pub fn used_by_ref_reservation(&mut self, value: u64) -> (r: &mut VolumePropertiesBuilder)
        ensures
            *r == (VolumePropertiesBuilder { used_by_ref_reservation: Some(value), ..*old(self) }),
            *final(self) == *final(r),
    {
        self.used_by_ref_reservation = Some(value);
        self
    }

    /// Gives the field `used_by_snapshots`.
    pub fn used_by_snapshots(&mut self, value: u64) -> (r: &mut VolumePropertiesBuilder)
        ensures
            *r == (VolumePropertiesBuilder { used_by_snapshots: Some(value), ..*old(self) }),
            *final(self) == *final(r),
    {
        self.used_by_snapshots = Some(value);
        self
    }

    /// Gives the field `volume_block_size`.
    pub fn volume_block_size(&mut self, value: u64) -> (r: &mut VolumePropertiesBuilder)
        ensures
            *r == (VolumePropertiesBuilder { volume_block_size: Some(value), ..*old(self) }),
            *final(self) == *final(r),
    {
        self.volume_block_size = Some(value);
        self
    }

    /// Gives the field `volume_mode`.
    pub fn volume_mode(&mut self, value: Option<VolumeMode>) -> (r: &mut VolumePropertiesBuilder)
        ensures
            *r == (VolumePropertiesBuilder { volume_mode: Some(value), ..*old(self) }),
            *final(self) == *final(r),
    {
        self.volume_mode = Some(value);
        self
    }

    /// Gives the field `volume_size`.
    pub fn volume_size(&mut self, value: u64) -> (r: &mut VolumePropertiesBuilder)
        ensures
            *r == (VolumePropertiesBuilder { volume_size: Some(value), ..*old(self) }),
            *final(self) == *final(r),
    {
        self.volume_size = Some(value);
        self
    }

    /// Gives the field `written`.
    pub fn written(&mut self, value: u64) -> (r: &mut VolumePropertiesBuilder)
        ensures
            *r == (VolumePropertiesBuilder { written: Some(value), ..*old(self) }),
            *final(self) == *final(r),
    {
        self.written = Some(value);
        self
    }

    /// Gives the field `unknown_properties`.
    pub fn unknown_properties(&mut self, value: StringMap) -> (r: &mut VolumePropertiesBuilder)
        ensures
            *r == (VolumePropertiesBuilder { unknown_properties: Some(value), ..*old(self) }),
            *final(self) == *final(r),
    {
        self.unknown_properties = Some(value);
        self
    }

    /// Records a property this library has no field for: `key` gets
    /// `value` among the unknown properties, which start empty.
    pub fn insert_unknown_property(&mut self, key: String, value: String)
        ensures
            final(self).unknown_properties matches Some(m) && m.spec_map() == match old(self).unknown_properties {
                Some(o) => o.spec_map(),
                None => Map::empty(),
            }.insert(key@, value@),
            *final(self) == (VolumePropertiesBuilder { unknown_properties: final(self).unknown_properties, ..*old(self) }),
    {
        let mut m = match self.unknown_properties.take() {
            Some(m) => m,
            None => {
                let m = StringMap::new();
                assert(m.spec_map() =~= Map::empty());
                m
            },
        };
        m.insert(key, value);
        self.unknown_properties = Some(m);
    }

    /// The properties, when every field that has no default is given; else
    /// the name of a missing field.
    #[verifier::rlimit(50)]
    pub fn build(&self) -> (r: Result<VolumeProperties, String>)
        ensures
            r is Ok <==> self.complete(),
            r matches Ok(p) ==> p@ == self.built(),
    {
        let name = match &self.name {
            Some(v) => v.clone(),
            None => return Err("`name` must be initialized".to_owned()),
        };
        let available = match self.available {
            Some(v) => v,
            None => return Err("`available` must be initialized".to_owned()),
        };
        let checksum = match self.checksum {
            Some(v) => v,
            None => return Err("`checksum` must be initialized".to_owned()),
        };
        let compression = match self.compression {
            Some(v) => v,
            None => return Err("`compression` must be initialized".to_owned()),
        };
        let compression_ratio = match &self.compression_ratio {
            Some(v) => v.clone(),
            None => return Err("`compression_ratio` must be initialized".to_owned()),
        };
        let copies = match self.copies {
            Some(v) => v,
            None => return Err("`copies` must be initialized".to_owned()),
        };
        let create_txg = match self.create_txg {
            Some(v) => v,
            None => return Err("`create_txg` must be initialized".to_owned()),
        };
        let creation = match self.creation {
            Some(v) => v,
            None => return Err("`creation` must be initialized".to_owned()),
        };
        let dedup = match self.dedup {
            Some(v) => v,
            None => return Err("`dedup` must be initialized".to_owned()),
        };
        let guid = match self.guid {
            Some(v) => v,
            None => None,
        };
        let log_bias = match self.log_bias {
            Some(v) => v,
            None => return Err("`log_bias` must be initialized".to_owned()),
        };
        let logical_referenced = match self.logical_referenced {
            Some(v) => v,
            None => return Err("`logical_referenced` must be initialized".to_owned()),
        };
        let logical_used = match self.logical_used {
            Some(v) => v,
            None => return Err("`logical_used` must be initialized".to_owned()),
        };
        let mls_label = match &self.mls_label {
            Some(v) => copy_opt_string(v),
            None => None,
        };
        let primary_cache = match self.primary_cache {
            Some(v) => v,
            None => return Err("`primary_cache` must be initialized".to_owned()),
        };
        let readonly = match self.readonly {
            Some(v) => v,
            None => return Err("`readonly` must be initialized".to_owned()),
        };
        let redundant_metadata = match self.redundant_metadata {
            Some(v) => v,
            None => return Err("`redundant_metadata` must be initialized".to_owned()),
        };
        let ref_compression_ratio = match &self.ref_compression_ratio {
            Some(v) => v.clone(),
            None => return Err("`ref_compression_ratio` must be initialized".to_owned()),
        };
        let referenced = match self.referenced {
            Some(v) => v,
            None => return Err("`referenced` must be initialized".to_owned()),
        };
        let ref_reservation = match self.ref_reservation {
            Some(v) => v,
            None => return Err("`ref_reservation` must be initialized".to_owned()),
        };
        let reservation = match self.reservation {
            Some(v) => v,
            None => return Err("`reservation` must be initialized".to_owned()),
        };
        let secondary_cache = match self.secondary_cache {
            Some(v) => v,
            None => return Err("`secondary_cache` must be initialized".to_owned()),
        };
        let snapshot_count = match self.snapshot_count {
            Some(v) => v,
            None => None,
        };
        let snapshot_limit = match self.snapshot_limit {
            Some(v) => v,
            None => None,
        };
        let sync = match self.sync {
            Some(v) => v,
            None => return Err("`sync` must be initialized".to_owned()),
        };
        let used = match self.used {
            Some(v) => v,
            None => return Err("`used` must be initialized".to_owned()),
        };
        let used_by_children = match self.used_by_children {
            Some(v) => v,
            None => return Err("`used_by_children` must be initialized".to_owned()),
        };
        let used_by_dataset = match self.used_by_dataset {
            Some(v) => v,
            None => return Err("`used_by_dataset` must be initialized".to_owned()),
        };
        let used_by_ref_reservation = match self.used_by_ref_reservation {
            Some(v) => v,
            None => return Err("`used_by_ref_reservation` must be initialized".to_owned()),
        };
        let used_by_snapshots = match self.used_by_snapshots {
            Some(v) => v,
            None => return Err("`used_by_snapshots` must be initialized".to_owned()),
        };
        let volume_block_size = match self.volume_block_size {
            Some(v) => v,
            None => return Err("`volume_block_size` must be initialized".to_owned()),
        };
        let volume_mode = match self.volume_mode {
            Some(v) => v,
            None => return Err("`volume_mode` must be initialized".to_owned()),
        };
        let volume_size = match self.volume_size {
            Some(v) => v,
            None => return Err("`volume_size` must be initialized".to_owned()),
        };
        let written = match self.written {
            Some(v) => v,
            None => return Err("`written` must be initialized".to_owned()),
        };
        let unknown_properties = match &self.unknown_properties {
            Some(v) => v.clone(),
            None => return Err("`unknown_properties` must be initialized".to_owned()),
        };
        Ok(VolumeProperties {
            name,
            available,
            checksum,
            compression,
            compression_ratio,
            copies,
            create_txg,
            creation,
            dedup,
            guid,
            log_bias,
            logical_referenced,
            logical_used,
            mls_label,
            primary_cache,
            readonly,
            redundant_metadata,
            ref_compression_ratio,
            referenced,
            ref_reservation,
            reservation,
            secondary_cache,
            snapshot_count,
            snapshot_limit,
            sync,
            used,
            used_by_children,
            used_by_dataset,
            used_by_ref_reservation,
            used_by_snapshots,
            volume_block_size,
            volume_mode,
            volume_size,
            written,
            unknown_properties,
        })
    }
}

impl Default for VolumePropertiesBuilder {
    fn default() -> (r: VolumePropertiesBuilder)
        ensures
            r == VolumePropertiesBuilder::empty(),
    {
        VolumePropertiesBuilder {
            name: None,
            available: None,
            checksum: None,
            compression: None,
            compression_ratio: None,
            copies: None,
            create_txg: None,
            creation: None,
            dedup: None,
            guid: None,
            log_bias: None,
            logical_referenced: None,
            logical_used: None,
            mls_label: None,
            primary_cache: None,
            readonly: None,
            redundant_metadata: None,
            ref_compression_ratio: None,
            referenced: None,
            ref_reservation: None,
            reservation: None,
            secondary_cache: None,
            snapshot_count: None,
            snapshot_limit: None,
            sync: None,
            used: None,
            used_by_children: None,
            used_by_dataset: None,
            used_by_ref_reservation: None,
            used_by_snapshots: None,
            volume_block_size: None,
            volume_mode: None,
            volume_size: None,
            written: None,
            unknown_properties: None,
        }
    }
}

impl VolumeProperties {
    /// A builder with the name given and no unknown property yet.
    pub fn builder(name: &str) -> (r: VolumePropertiesBuilder)
        ensures
            r.name matches Some(n) && n@ == name@,
            r.unknown_properties matches Some(m) && m.spec_map() == Map::<Seq<char>, Seq<char>>::empty(),
            r == (VolumePropertiesBuilder { name: r.name, unknown_properties: r.unknown_properties, ..VolumePropertiesBuilder::empty() }),
    {
        let mut ret = VolumePropertiesBuilder::default();
        let m = StringMap::new();
        assert(m.spec_map() =~= Map::empty());
        ret.unknown_properties(m);
        ret.name(name);
        ret
    }
}

/// Builder of `SnapshotProperties`: every field must be given, except those that may be
/// absent, which default to none.
#[derive(Debug, Clone)]
pub struct SnapshotPropertiesBuilder {
    pub name: Option<String>,
    pub case_sensitivity: Option<CaseSensitivity>,
    pub clones: Option<Option<Vec<String>>>,
    pub compression_ratio: Option<String>,
    pub create_txg: Option<Option<u64>>,
    pub creation: Option<i64>,
    pub defer_destroy: Option<bool>,
    pub devices: Option<bool>,
    pub executable: Option<bool>,
    pub guid: Option<Option<u64>>,
    pub logically_referenced: Option<u64>,
    pub mls_label: Option<Option<String>>,
    pub nbmand: Option<bool>,
    pub normalization: Option<Normalization>,
    pub primary_cache: Option<CacheMode>,
    pub ref_compression_ratio: Option<String>,
    pub referenced: Option<u64>,
    pub secondary_cache: Option<CacheMode>,
    pub setuid: Option<bool>,
    pub used: Option<u64>,
    pub user_refs: Option<u64>,
    pub utf8_only: Option<Option<bool>>,
    pub version: Option<u64>,
    pub volume_mode: Option<Option<VolumeMode>>,
    pub written: Option<u64>,
    pub xattr: Option<bool>,
    pub unknown_properties: Option<StringMap>,
}

impl SnapshotPropertiesBuilder {
    /// A builder with no field given.
    pub open spec fn empty() -> SnapshotPropertiesBuilder {
        SnapshotPropertiesBuilder {
            name: None,
            case_sensitivity: None,
            clones: None,
            compression_ratio: None,
            create_txg: None,
            creation: None,
            defer_destroy: None,
            devices: None,
            executable: None,
            guid: None,
            logically_referenced: None,
            mls_label: None,
            nbmand: None,
            normalization: None,
            primary_cache: None,
            ref_compression_ratio: None,
            referenced: None,
            secondary_cache: None,
            setuid: None,
            used: None,
            user_refs: None,
            utf8_only: None,
            version: None,
            volume_mode: None,
            written: None,
            xattr: None,
            unknown_properties: None,
        }
    }

    /// Whether every field that has no default is given.
    pub open spec fn complete(self) -> bool {
        self.name is Some
        && self.case_sensitivity is Some
        && self.compression_ratio is Some
        && self.create_txg is Some
        && self.creation is Some
        && self.defer_destroy is Some
        && self.devices is Some
        && self.executable is Some
        && self.logically_referenced is Some
        && self.nbmand is Some
        && self.normalization is Some
        && self.primary_cache is Some
        && self.ref_compression_ratio is Some
        && self.referenced is Some
        && self.secondary_cache is Some
        && self.setuid is Some
        && self.used is Some
        && self.user_refs is Some
        && self.version is Some
        && self.written is Some
        && self.xattr is Some
        && self.unknown_properties is Some
    }

    /// What `build` makes of a complete builder.
    pub open spec fn built(self) -> SnapshotPropertiesView {
        SnapshotPropertiesView {
            name: self.name->0@,
            case_sensitivity: self.case_sensitivity->0,
            clones: given_strings(self.clones),
            compression_ratio: self.compression_ratio->0@,
            create_txg: given(self.create_txg),
            creation: self.creation->0,
            defer_destroy: self.defer_destroy->0,
            devices: self.devices->0,
            executable: self.executable->0,
            guid: given(self.guid),
            logically_referenced: self.logically_referenced->0,
            mls_label: given_text(self.mls_label),
            nbmand: self.nbmand->0,
            normalization: self.normalization->0,
            primary_cache: self.primary_cache->0,
            ref_compression_ratio: self.ref_compression_ratio->0@,
            referenced: self.referenced->0,
            secondary_cache: self.secondary_cache->0,
            setuid: self.setuid->0,
            used: self.used->0,
            user_refs: self.user_refs->0,
            utf8_only: given(self.utf8_only),
            version: self.version->0,
            volume_mode: given(self.volume_mode),
            written: self.written->0,
            xattr: self.xattr->0,
            unknown_properties: self.unknown_properties->0.spec_map(),
        }
    }

    /// Gives the field `name`.
    pub fn name(&mut self, value: &str) -> (r: &mut SnapshotPropertiesBuilder)
        ensures
            r.name matches Some(v) && v@ == value@,
            *r == (SnapshotPropertiesBuilder { name: r.name, ..*old(self) }),
            *final(self) == *final(r),
    {
        self.name = Some(value.to_owned());
        self
    }

    /// Gives the field `case_sensitivity`.
    pub fn case_sensitivity(&mut self, value: CaseSensitivity) -> (r: &mut SnapshotPropertiesBuilder)
        ensures
            *r == (SnapshotPropertiesBuilder { case_sensitivity: Some(value), ..*old(self) }),
            *final(self) == *final(r),
    {
        self.case_sensitivity = Some(value);
        self
    }

    /// Gives the field `clones`.
    pub fn clones(&mut self, value: Option<Vec<String>>) -> (r: &mut SnapshotPropertiesBuilder)
        ensures
            *r == (SnapshotPropertiesBuilder { clones: Some(value), ..*old(self) }),
            *final(self) == *final(r),
    {
        self.clones = Some(value);
        self
    }

    /// Gives the field `compression_ratio`.
    pub fn compression_ratio(&mut self, value: &str) -> (r: &mut SnapshotPropertiesBuilder)
        ensures
            r.compression_ratio matches Some(v) && v@ == value@,
            *r == (SnapshotPropertiesBuilder { compression_ratio: r.compression_ratio, ..*old(self) }),
            *final(self) == *final(r),
    {
        self.compression_ratio = Some(value.to_owned());
        self
    }

    /// Gives the field `create_txg`.
    pub fn create_txg(&mut self, value: Option<u64>) -> (r: &mut SnapshotPropertiesBuilder)
        ensures
            *r == (SnapshotPropertiesBuilder { create_txg: Some(value), ..*old(self) }),
            *final(self) == *final(r),
    {
        self.create_txg = Some(value);
        self
    }

    /// Gives the field `creation`.
    pub fn creation(&mut self, value: i64) -> (r: &mut SnapshotPropertiesBuilder)
        ensures
            *r == (SnapshotPropertiesBuilder { creation: Some(value), ..*old(self) }),
            *final(self) == *final(r),
    {
        self.creation = Some(value);
        self
    }

    /// Gives the field `defer_destroy`.
    pub fn defer_destroy(&mut self, value: bool) -> (r: &mut SnapshotPropertiesBuilder)
        ensures
            *r == (SnapshotPropertiesBuilder { defer_destroy: Some(value), ..*old(self) }),
            *final(self) == *final(r),
    {
        self.defer_destroy = Some(value);
        self
    }

    /// Gives the field `devices`.
    pub fn devices(&mut self, value: bool) -> (r: &mut SnapshotPropertiesBuilder)
        ensures
            *r == (SnapshotPropertiesBuilder { devices: Some(value), ..*old(self) }),
            *final(self) == *final(r),
    {
        self.devices = Some(value);
        self
    }

    /// Gives the field `executable`.
    pub fn executable(&mut self, value: bool) -> (r: &mut SnapshotPropertiesBuilder)
        ensures
            *r == (SnapshotPropertiesBuilder { executable: Some(value), ..*old(self) }),
            *final(self) == *final(r),
    {
        self.executable = Some(value);
        self
    }

    /// Gives the field `guid`.
    pub fn guid(&mut self, value: Option<u64>) -> (r: &mut SnapshotPropertiesBuilder)
        ensures
            *r == (SnapshotPropertiesBuilder { guid: Some(value), ..*old(self) }),
            *final(self) == *final(r),
    {
        self.guid = Some(value);
        self
    }

    /// Gives the field `logically_referenced`.
    pub fn logically_referenced(&mut self, value: u64) -> (r: &mut SnapshotPropertiesBuilder)
        ensures
            *r == (SnapshotPropertiesBuilder { logically_referenced: Some(value), ..*old(self) }),
            *final(self) == *final(r),
    {
        self.logically_referenced = Some(value);
        self
    }

    /// Gives the field `mls_label`.
    pub fn mls_label(&mut self, value: Option<String>) -> (r: &mut SnapshotPropertiesBuilder)
        ensures
            *r == (SnapshotPropertiesBuilder { mls_label: Some(value), ..*old(self) }),
            *final(self) == *final(r),
    {
        self.mls_label = Some(value);
        self
    }

    /// Gives the field `nbmand`.
    pub fn nbmand(&mut self, value: bool) -> (r: &mut SnapshotPropertiesBuilder)
        ensures
            *r == (SnapshotPropertiesBuilder { nbmand: Some(value), ..*old(self) }),
            *final(self) == *final(r),
    {
        self.nbmand = Some(value);
        self
    }

    /// Gives the field `normalization`.
    pub fn normalization(&mut self, value: Normalization) -> (r: &mut SnapshotPropertiesBuilder)
        ensures
            *r == (SnapshotPropertiesBuilder { normalization: Some(value), ..*old(self) }),
            *final(self) == *final(r),
    {
        self.normalization = Some(value);
        self
    }

    /// Gives the field `primary_cache`.
    pub fn primary_cache(&mut self, value: CacheMode) -> (r: &mut SnapshotPropertiesBuilder)
        ensures
            *r == (SnapshotPropertiesBuilder { primary_cache: Some(value), ..*old(self) }),
            *final(self) == *final(r),
    {
        self.primary_cache = Some(value);
        self
    }

    /// Gives the field `ref_compression_ratio`.
    pub fn ref_compression_ratio(&mut self, value: &str) -> (r: &mut SnapshotPropertiesBuilder)
        ensures
            r.ref_compression_ratio matches Some(v) && v@ == value@,
            *r == (SnapshotPropertiesBuilder { ref_compression_ratio: r.ref_compression_ratio, ..*old(self) }),
            *final(self) == *final(r),
    {
        self.ref_compression_ratio = Some(value.to_owned());
        self
    }

    /// Gives the field `referenced`.
    pub fn referenced(&mut self, value: u64) -> (r: &mut SnapshotPropertiesBuilder)
        ensures
            *r == (SnapshotPropertiesBuilder { referenced: Some(value), ..*old(self) }),
            *final(self) == *final(r),
    {
        self.referenced = Some(value);
        self
    }

    /// Gives the field `secondary_cache`.
    pub fn secondary_cache(&mut self, value: CacheMode) -> (r: &mut SnapshotPropertiesBuilder)
        ensures
            *r == (SnapshotPropertiesBuilder { secondary_cache: Some(value), ..*old(self) }),
            *final(self) == *final(r),
    {
        self.secondary_cache = Some(value);
        self
    }

    /// Gives the field `setuid`.
    pub fn setuid(&mut self, value: bool) -> (r: &mut SnapshotPropertiesBuilder)
        ensures
            *r == (SnapshotPropertiesBuilder { setuid: Some(value), ..*old(self) }),
            *final(self) == *final(r),
    {
        self.setuid = Some(value);
        self
    }

    /// Gives the field `used`.
    pub fn used(&mut self, value: u64) -> (r: &mut SnapshotPropertiesBuilder)
        ensures
            *r == (SnapshotPropertiesBuilder { used: Some(value), ..*old(self) }),
            *final(self) == *final(r),
    {
        self.used = Some(value);
        self
    }

    /// Gives the field `user_refs`.
    pub fn user_refs(&mut self, value: u64) -> (r: &mut SnapshotPropertiesBuilder)
        ensures
            *r == (SnapshotPropertiesBuilder { user_refs: Some(value), ..*old(self) }),
            *final(self) == *final(r),
    {
        self.user_refs = Some(value);
        self
    }

    /// Gives the field `utf8_only`.
    pub fn utf8_only(&mut self, value: Option<bool>) -> (r: &mut SnapshotPropertiesBuilder)
        ensures
            *r == (SnapshotPropertiesBuilder { utf8_only: Some(value), ..*old(self) }),
            *final(self) == *final(r),
    {
        self.utf8_only = Some(value);
        self
    }

    /// Gives the field `version`.
    pub fn version(&mut self, value: u64) -> (r: &mut SnapshotPropertiesBuilder)
        ensures
            *r == (SnapshotPropertiesBuilder { version: Some(value), ..*old(self) }),
            *final(self) == *final(r),
    {
        self.version = Some(value);
        self
    }

    /// Gives the field `volume_mode`.
    pub fn volume_mode(&mut self, value: Option<VolumeMode>) -> (r: &mut SnapshotPropertiesBuilder)
        ensures
            *r == (SnapshotPropertiesBuilder { volume_mode: Some(value), ..*old(self) }),
            *final(self) == *final(r),
    {
        self.volume_mode = Some(value);
        self
    }

    /// Gives the field `written`.
    pub fn written(&mut self, value: u64) -> (r: &mut SnapshotPropertiesBuilder)
        ensures
            *r == (SnapshotPropertiesBuilder { written: Some(value), ..*old(self) }),
            *final(self) == *final(r),
    {
        self.written = Some(value);
        self
    }

    /// Gives the field `xattr`.
    pub fn xattr(&mut self, value: bool) -> (r: &mut SnapshotPropertiesBuilder)
        ensures
            *r == (SnapshotPropertiesBuilder { xattr: Some(value), ..*old(self) }),
            *final(self) == *final(r),
    {
        self.xattr = Some(value);
        self
    }

    /// Gives the field `unknown_properties`.
    pub fn unknown_properties(&mut self, value: StringMap) -> (r: &mut SnapshotPropertiesBuilder)
        ensures
            *r == (SnapshotPropertiesBuilder { unknown_properties: Some(value), ..*old(self) }),
            *final(self) == *final(r),
    {
        self.unknown_properties = Some(value);
        self
    }

    /// Records a property this library has no field for: `key` gets
    /// `value` among the unknown properties, which start empty.
    pub fn insert_unknown_property(&mut self, key: String, value: String)
        ensures
            final(self).unknown_properties matches Some(m) && m.spec_map() == match old(self).unknown_properties {
                Some(o) => o.spec_map(),
                None => Map::empty(),
            }.insert(key@, value@),
            *final(self) == (SnapshotPropertiesBuilder { unknown_properties: final(self).unknown_properties, ..*old(self) }),
    {
        let mut m = match self.unknown_properties.take() {
            Some(m) => m,
            None => {
                let m = StringMap::new();
                assert(m.spec_map() =~= Map::empty());
                m
            },
        };
        m.insert(key, value);
        self.unknown_properties = Some(m);
    }

    /// The properties, when every field that has no default is given; else
    /// the name of a missing field.
    #[verifier::rlimit(50)]
    pub fn build(&self) -> (r: Result<SnapshotProperties, String>)
        ensures
            r is Ok <==> self.complete(),
            r matches Ok(p) ==> p@ == self.built(),
    {
        let name = match &self.name {
            Some(v) => v.clone(),
            None => return Err("`name` must be initialized".to_owned()),
        };
        let case_sensitivity = match self.case_sensitivity {
            Some(v) => v,
            None => return Err("`case_sensitivity` must be initialized".to_owned()),
        };
        let clones = match &self.clones {
            Some(v) => copy_opt_strings(v),
            None => None,
        };
        let compression_ratio = match &self.compression_ratio {
            Some(v) => v.clone(),
            None => return Err("`compression_ratio` must be initialized".to_owned()),
        };
        let create_txg = match self.create_txg {
            Some(v) => v,
            None => return Err("`create_txg` must be initialized".to_owned()),
        };
        let creation = match self.creation {
            Some(v) => v,
            None => return Err("`creation` must be initialized".to_owned()),
        };
        let defer_destroy = match self.defer_destroy {
            Some(v) => v,
            None => return Err("`defer_destroy` must be initialized".to_owned()),
        };
        let devices = match self.devices {
            Some(v) => v,
            None => return Err("`devices` must be initialized".to_owned()),
        };
        let executable = match self.executable {
            Some(v) => v,
            None => return Err("`executable` must be initialized".to_owned()),
        };
        let guid = match self.guid {
            Some(v) => v,
            None => None,
        };
        let logically_referenced = match self.logically_referenced {
            Some(v) => v,
            None => return Err("`logically_referenced` must be initialized".to_owned()),
        };
        let mls_label = match &self.mls_label {
            Some(v) => copy_opt_string(v),
            None => None,
        };
        let nbmand = match self.nbmand {
            Some(v) => v,
            None => return Err("`nbmand` must be initialized".to_owned()),
        };
        let normalization = match self.normalization {
            Some(v) => v,
            None => return Err("`normalization` must be initialized".to_owned()),
        };
        let primary_cache = match self.primary_cache {
            Some(v) => v,
            None => return Err("`primary_cache` must be initialized".to_owned()),
        };
        let ref_compression_ratio = match &self.ref_compression_ratio {
            Some(v) => v.clone(),
            None => return Err("`ref_compression_ratio` must be initialized".to_owned()),
        };
        let referenced = match self.referenced {
            Some(v) => v,
            None => return Err("`referenced` must be initialized".to_owned()),
        };
        let secondary_cache = match self.secondary_cache {
            Some(v) => v,
            None => return Err("`secondary_cache` must be initialized".to_owned()),
        };
        let setuid = match self.setuid {
            Some(v) => v,
            None => return Err("`setuid` must be initialized".to_owned()),
        };
        let used = match self.used {
            Some(v) => v,
            None => return Err("`used` must be initialized".to_owned()),
        };
        let user_refs = match self.user_refs {
            Some(v) => v,
            None => return Err("`user_refs` must be initialized".to_owned()),
        };
        let utf8_only = match self.utf8_only {
            Some(v) => v,
            None => None,
        };
        let version = match self.version {
            Some(v) => v,
            None => return Err("`version` must be initialized".to_owned()),
        };
        let volume_mode = match self.volume_mode {
            Some(v) => v,
            None => None,
        };
        let written = match self.written {
            Some(v) => v,
            None => return Err("`written` must be initialized".to_owned()),
        };
        let xattr = match self.xattr {
            Some(v) => v,
            None => return Err("`xattr` must be initialized".to_owned()),
        };
        let unknown_properties = match &self.unknown_properties {
            Some(v) => v.clone(),
            None => return Err("`unknown_properties` must be initialized".to_owned()),
        };
        Ok(SnapshotProperties {
            name,
            case_sensitivity,
            clones,
            compression_ratio,
            create_txg,
            creation,
            defer_destroy,
            devices,
            executable,
            guid,
            logically_referenced,
            mls_label,
            nbmand,
            normalization,
            primary_cache,
            ref_compression_ratio,
            referenced,
            secondary_cache,
            setuid,
            used,
            user_refs,
            utf8_only,
            version,
            volume_mode,
            written,
            xattr,
            unknown_properties,
        })
    }
}

impl Default for SnapshotPropertiesBuilder {
    fn default() -> (r: SnapshotPropertiesBuilder)
        ensures
            r == SnapshotPropertiesBuilder::empty(),
    {
        SnapshotPropertiesBuilder {
            name: None,
            case_sensitivity: None,
            clones: None,
            compression_ratio: None,
            create_txg: None,
            creation: None,
            defer_destroy: None,
            devices: None,
            executable: None,
            guid: None,
            logically_referenced: None,
            mls_label: None,
            nbmand: None,
            normalization: None,
            primary_cache: None,
            ref_compression_ratio: None,
            referenced: None,
            secondary_cache: None,
            setuid: None,
            used: None,
            user_refs: None,
            utf8_only: None,
            version: None,
            volume_mode: None,
            written: None,
            xattr: None,
            unknown_properties: None,
        }
    }
}

impl SnapshotProperties {
    /// A builder with the name given and no unknown property yet.
    pub fn builder(name: &str) -> (r: SnapshotPropertiesBuilder)
        ensures
            r.name matches Some(n) && n@ == name@,
            r.unknown_properties matches Some(m) && m.spec_map() == Map::<Seq<char>, Seq<char>>::empty(),
            r == (SnapshotPropertiesBuilder { name: r.name, unknown_properties: r.unknown_properties, ..SnapshotPropertiesBuilder::empty() }),
    {
        let mut ret = SnapshotPropertiesBuilder::default();
        let m = StringMap::new();
        assert(m.spec_map() =~= Map::empty());
        ret.unknown_properties(m);
        ret.name(name);
        ret
    }
}

/// Builder of `BookmarkProperties`: every field must be given, except those that may be
/// absent, which default to none.
#[derive(Debug, Clone)]
pub struct BookmarkPropertiesBuilder {
    pub name: Option<String>,
    pub create_txg: Option<Option<u64>>,
    pub creation: Option<i64>,
    pub guid: Option<Option<u64>>,
    pub unknown_properties: Option<StringMap>,
}

impl BookmarkPropertiesBuilder {
    /// A builder with no field given.
    pub open spec fn empty() -> BookmarkPropertiesBuilder {
        BookmarkPropertiesBuilder {
            name: None,
            create_txg: None,
            creation: None,
            guid: None,
            unknown_properties: None,
        }
    }

    /// Whether every field that has no default is given.
    pub open spec fn complete(self) -> bool {
        self.name is Some
        && self.create_txg is Some
        && self.creation is Some
        && self.unknown_properties is Some
    }

    /// What `build` makes of a complete builder.
    pub open spec fn built(self) -> BookmarkPropertiesView {
        BookmarkPropertiesView {
            name: self.name->0@,
            create_txg: given(self.create_txg),
            creation: self.creation->0,
            guid: given(self.guid),
            unknown_properties: self.unknown_properties->0.spec_map(),
        }
    }

    /// Gives the field `name`.
    pub fn name(&mut self, value: &str) -> (r: &mut BookmarkPropertiesBuilder)
        ensures
            r.name matches Some(v) && v@ == value@,
            *r == (BookmarkPropertiesBuilder { name: r.name, ..*old(self) }),
            *final(self) == *final(r),
    {
        self.name = Some(value.to_owned());
        self
    }

    /// Gives the field `create_txg`.
    pub fn create_txg(&mut self, value: Option<u64>) -> (r: &mut BookmarkPropertiesBuilder)
        ensures
            *r == (BookmarkPropertiesBuilder { create_txg: Some(value), ..*old(self) }),
            *final(self) == *final(r),
    {
        self.create_txg = Some(value);
        self
    }

    /// Gives the field `creation`.
    pub fn creation(&mut self, value: i64) -> (r: &mut BookmarkPropertiesBuilder)
        ensures
            *r == (BookmarkPropertiesBuilder { creation: Some(value), ..*old(self) }),
            *final(self) == *final(r),
    {
        self.creation = Some(value);
        self
    }

    /// Gives the field `guid`.
    pub fn guid(&mut self, value: Option<u64>) -> (r: &mut BookmarkPropertiesBuilder)
        ensures
            *r == (BookmarkPropertiesBuilder { guid: Some(value), ..*old(self) }),
            *final(self) == *final(r),
    {
        self.guid = Some(value);
        self
    }

    /// Gives the field `unknown_properties`.
    pub fn unknown_properties(&mut self, value: StringMap) -> (r: &mut BookmarkPropertiesBuilder)
        ensures
            *r == (BookmarkPropertiesBuilder { unknown_properties: Some(value), ..*old(self) }),
            *final(self) == *final(r),
    {
        self.unknown_properties = Some(value);
        self
    }

    /// Records a property this library has no field for: `key` gets
    /// `value` among the unknown properties, which start empty.
    pub fn insert_unknown_property(&mut self, key: String, value: String)
        ensures
            final(self).unknown_properties matches Some(m) && m.spec_map() == match old(self).unknown_properties {
                Some(o) => o.spec_map(),
                None => Map::empty(),
            }.insert(key@, value@),
            *final(self) == (BookmarkPropertiesBuilder { unknown_properties: final(self).unknown_properties, ..*old(self) }),
    {
        let mut m = match self.unknown_properties.take() {
            Some(m) => m,
            None => {
                let m = StringMap::new();
                assert(m.spec_map() =~= Map::empty());
                m
            },
        };
        m.insert(key, value);
        self.unknown_properties = Some(m);
    }

    /// The properties, when every field that has no default is given; else
    /// the name of a missing field.
    #[verifier::rlimit(50)]
    pub fn build(&self) -> (r: Result<BookmarkProperties, String>)
        ensures
            r is Ok <==> self.complete(),
            r matches Ok(p) ==> p@ == self.built(),
    {
        let name = match &self.name {
            Some(v) => v.clone(),
            None => return Err("`name` must be initialized".to_owned()),
        };
        let create_txg = match self.create_txg {
            Some(v) => v,
            None => return Err("`create_txg` must be initialized".to_owned()),
        };
        let creation = match self.creation {
            Some(v) => v,
            None => return Err("`creation` must be initialized".to_owned()),
        };
        let guid = match self.guid {
            Some(v) => v,
            None => None,
        };
        let unknown_properties = match &self.unknown_properties {
            Some(v) => v.clone(),
            None => return Err("`unknown_properties` must be initialized".to_owned()),
        };
        Ok(BookmarkProperties {
            name,
            create_txg,
            creation,
            guid,
            unknown_properties,
        })
    }
}

impl Default for BookmarkPropertiesBuilder {
    fn default() -> (r: BookmarkPropertiesBuilder)
        ensures
            r == BookmarkPropertiesBuilder::empty(),
    {
        BookmarkPropertiesBuilder {
            name: None,
            create_txg: None,
            creation: None,
            guid: None,
            unknown_properties: None,
        }
    }
}

impl BookmarkProperties {
    /// A builder with the name given and no unknown property yet.
    pub fn builder(name: &str) -> (r: BookmarkPropertiesBuilder)
        ensures
            r.name matches Some(n) && n@ == name@,
            r.unknown_properties matches Some(m) && m.spec_map() == Map::<Seq<char>, Seq<char>>::empty(),
            r == (BookmarkPropertiesBuilder { name: r.name, unknown_properties: r.unknown_properties, ..BookmarkPropertiesBuilder::empty() }),
    {
        let mut ret = BookmarkPropertiesBuilder::default();
        let m = StringMap::new();
        assert(m.spec_map() =~= Map::empty());
        ret.unknown_properties(m);
        ret.name(name);
        ret
    }
}

} // verus!
