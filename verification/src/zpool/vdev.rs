//! Vdevs: the disks a pool is built from, the vdevs `zpool status` reports
//! and the vdevs a request asks `zpool create` for.
//!
//! A disk is found by its path, and two paths are the same when they have
//! the same components, as `std::path::Path` compares them.
use vstd::prelude::*;

use super::description::{copy_reason, reason_view, Reason};
use super::properties::Health;
use super::ZpoolError;
use crate::path::same_path;
use crate::text::chars_of;

verus! {

/// Error statistics.
#[derive(Debug, Clone, Copy, PartialEq, Eq, Structural)]
pub struct ErrorStatistics {
    /// I/O errors that occurred while issuing a read request
    pub read: u64,
    /// I/O errors that occurred while issuing a write request
    pub write: u64,
    /// Checksum errors, meaning that the device returned corrupted data as the
    /// result of a read request
    pub checksum: u64,
}

impl Default for ErrorStatistics {
    fn default() -> (r: ErrorStatistics)
        ensures
            r == (ErrorStatistics { read: 0, write: 0, checksum: 0 }),
    {
        ErrorStatistics { read: 0, write: 0, checksum: 0 }
    }
}

/// Whether two paths, given as text, name the same file.
pub fn same_path_str(a: &str, b: &str) -> (r: bool)
    ensures
        r == same_path(a@, b@),
{
    let va = chars_of(a);
    let vb = chars_of(b);
    crate::path::paths_equal(va.as_slice(), vb.as_slice())
}

/// Whether two lists of paths name the same files, one for one.
pub open spec fn same_paths(a: Seq<Seq<char>>, b: Seq<Seq<char>>) -> bool {
    &&& a.len() == b.len()
    &&& forall|i: int| 0 <= i < a.len() ==> same_path(#[trigger] a[i], b[i])
}

/// What is known of a disk.
pub struct DiskView {
    pub path: Seq<char>,
    pub health: Health,
    pub reason: Option<Seq<char>>,
    pub error_statistics: ErrorStatistics,
}

/// Basic building block of vdev.
///
/// It can be backed by a entire block device, a partition or a file. This particular structure
/// represents backing of existing vdev. If disk is part of active zpool then it will also
/// have error counts.
#[derive(Debug, Clone)]
pub struct Disk {
    /// Path to a backing device or file. If path is relative, then it's
    /// relative to `/dev/`.
    pub path: String,
    /// Current health of this specific device.
    pub health: Health,
    /// Reason why device is in this state.
    pub reason: Option<Reason>,
    /// How many read, write and checksum errors device encountered since last
    /// reset.
    pub error_statistics: ErrorStatistics,
}

impl View for Disk {
    type V = DiskView;

    open spec fn view(&self) -> DiskView {
        DiskView {
            path: self.path@,
            health: self.health,
            reason: reason_view(self.reason),
            error_statistics: self.error_statistics,
        }
    }
}

/// The views of a list of disks.
pub open spec fn disks_view(v: Seq<Disk>) -> Seq<DiskView> {
    v.map_values(|d: Disk| d@)
}

/// The paths of a list of disks.
pub open spec fn disk_paths(v: Seq<DiskView>) -> Seq<Seq<char>> {
    v.map_values(|d: DiskView| d.path)
}

/// The views of a list of paths.
pub open spec fn path_views(v: Seq<String>) -> Seq<Seq<char>> {
    v.map_values(|p: String| p@)
}

impl Disk {
    /// Create a builder - the preferred way to create a disk.
    pub fn builder() -> (r: DiskBuilder)
        ensures
            r.path is None,
            r.health is None,
            r.reason is None,
            r.error_statistics is None,
    {
        DiskBuilder::default()
    }

    /// Path to the backing device or file.
    pub fn path(&self) -> (r: &String)
        ensures
            r@ == self.path@,
    {
        &self.path
    }

    /// Current health of the device.
    pub fn health(&self) -> (r: &Health)
        ensures
            *r == self.health,
    {
        &self.health
    }

    /// Reason why the device is in its state.
    pub fn reason(&self) -> (r: &Option<Reason>)
        ensures
            reason_view(*r) == reason_view(self.reason),
    {
        &self.reason
    }

    /// Error counts of the device.
    pub fn error_statistics(&self) -> (r: &ErrorStatistics)
        ensures
            *r == self.error_statistics,
    {
        &self.error_statistics
    }

    /// A disk with the same path, health, reason and counts.
    pub fn copy(&self) -> (r: Disk)
        ensures
            r@ == self@,
    {
        Disk {
            path: self.path.clone(),
            health: self.health,
            reason: copy_reason(&self.reason),
            error_statistics: self.error_statistics,
        }
    }

    /// Whether the disk is backed by the file at `path`.
    pub fn has_path(&self, path: &str) -> (r: bool)
        ensures
            r == same_path(self.path@, path@),
    {
        same_path_str(self.path.as_str(), path)
    }
}

/// A copy of a list of disks.
pub fn copy_disks(v: &Vec<Disk>) -> (r: Vec<Disk>)
    ensures
        disks_view(r@) == disks_view(v@),
{
    let mut r: Vec<Disk> = Vec::new();
    let mut i: usize = 0;
    while i < v.len()
        invariant
            i <= v@.len(),
            disks_view(r@) == disks_view(v@).take(i as int),
        decreases v@.len() - i,
    {
        let ghost before = r@;
        let d = v[i].copy();
        r.push(d);
        assert(disks_view(r@) =~= disks_view(before).push(v@[i as int]@));
        assert(disks_view(v@).take(i + 1) =~= disks_view(v@).take(i as int).push(v@[i as int]@));
        i += 1;
    }
    assert(disks_view(v@).take(v@.len() as int) =~= disks_view(v@));
    r
}

/// Disks are equal when their paths are the same.
impl PartialEq for Disk {
    fn eq(&self, other: &Disk) -> (r: bool) {
        same_path_str(self.path.as_str(), other.path.as_str())
    }
}

impl vstd::std_specs::cmp::PartialEqSpecImpl for Disk {
    open spec fn obeys_eq_spec() -> bool {
        true
    }

    open spec fn eq_spec(&self, other: &Disk) -> bool {
        same_path(self.path@, other.path@)
    }
}

impl Eq for Disk {}

/// Builder of `Disk`: the path and the health must be given.
#[derive(Debug, Clone)]
pub struct DiskBuilder {
    pub path: Option<String>,
    pub health: Option<Health>,
    pub reason: Option<Option<Reason>>,
    pub error_statistics: Option<ErrorStatistics>,
}

impl Default for DiskBuilder {
    fn default() -> (r: DiskBuilder)
        ensures
            r.path is None,
            r.health is None,
            r.reason is None,
            r.error_statistics is None,
    {
        DiskBuilder { path: None, health: None, reason: None, error_statistics: None }
    }
}

impl DiskBuilder {
    pub fn path(&mut self, value: &str) -> (r: &mut DiskBuilder)
        ensures
            r.path matches Some(p) && p@ == value@,
            *r == (DiskBuilder { path: r.path, ..*old(self) }),
            *final(self) == *final(r),
    {
        self.path = Some(value.to_owned());
        self
    }

    pub fn health(&mut self, value: Health) -> (r: &mut DiskBuilder)
        ensures
            *r == (DiskBuilder { health: Some(value), ..*old(self) }),
            *final(self) == *final(r),
    {
        self.health = Some(value);
        self
    }

    pub fn reason(&mut self, value: Option<Reason>) -> (r: &mut DiskBuilder)
        ensures
            *r == (DiskBuilder { reason: Some(value), ..*old(self) }),
            *final(self) == *final(r),
    {
        self.reason = Some(value);
        self
    }

    pub fn error_statistics(&mut self, value: ErrorStatistics) -> (r: &mut DiskBuilder)
        ensures
            *r == (DiskBuilder { error_statistics: Some(value), ..*old(self) }),
            *final(self) == *final(r),
    {
        self.error_statistics = Some(value);
        self
    }

    /// The disk; fails when the path or the health was not given. No reason
    /// and zero counts when they were not given.
    pub fn build(&self) -> (r: Result<Disk, String>)
        ensures
            r is Ok <==> (self.path is Some && self.health is Some),
            r matches Ok(d) ==> d@ == (DiskView {
                path: self.path->0@,
                health: self.health->0,
                reason: match self.reason {
                    Some(x) => reason_view(x),
                    None => None,
                },
                error_statistics: match self.error_statistics {
                    Some(s) => s,
                    None => ErrorStatistics { read: 0, write: 0, checksum: 0 },
                },
            }),
    {
        let path = match &self.path {
            Some(p) => p.clone(),
            None => {
                return Err("`path` must be initialized".to_owned());
            },
        };
        let health = match self.health {
            Some(h) => h,
            None => {
                return Err("`health` must be initialized".to_owned());
            },
        };
        let reason = match &self.reason {
            Some(x) => copy_reason(x),
            None => None,
        };
        let error_statistics = match self.error_statistics {
            Some(s) => s,
            None => ErrorStatistics::default(),
        };
        Ok(Disk { path, health, reason, error_statistics })
    }
}


/// A [type](https://www.freebsd.org/doc/handbook/zfs-term.html) of Vdev.
#[derive(Debug, Clone, Copy, PartialEq, Eq, Structural)]
pub enum VdevType {
    /// Just a single disk or file.
    SingleDisk,
    /// A mirror of multiple vdevs
    Mirror,
    /// ZFS implements [RAID-Z](https://blogs.oracle.com/ahl/what-is-raid-z), a
    /// variation on standard RAID-5 that offers better distribution of
    /// parity and eliminates the "RAID-5 write hole".
    RaidZ,
    /// The same as RAID-Z, but with 2 parity drives.
    RaidZ2,
    /// The same as RAID-Z, but with 3 parity drives.
    RaidZ3,
}

/// The vdev type that `zpool(8)` names `s` in a vdev's name.
pub open spec fn spec_raid_type(s: Seq<char>) -> Option<VdevType> {
    if s == "mirror"@ {
        Some(VdevType::Mirror)
    } else if s == "raidz1"@ {
        Some(VdevType::RaidZ)
    } else if s == "raidz2"@ {
        Some(VdevType::RaidZ2)
    } else if s == "raidz3"@ {
        Some(VdevType::RaidZ3)
    } else {
        None
    }
}

impl VdevType {
    /// The raid type spelled by `v`: `mirror`, `raidz1`, `raidz2` or `raidz3`.
    pub fn from_chars(v: &[char]) -> (r: Option<VdevType>)
        ensures
            r == spec_raid_type(v@),
    {
        if crate::text::all_eq_str(v, "mirror") {
            Some(VdevType::Mirror)
        } else if crate::text::all_eq_str(v, "raidz1") {
            Some(VdevType::RaidZ)
        } else if crate::text::all_eq_str(v, "raidz2") {
            Some(VdevType::RaidZ2)
        } else if crate::text::all_eq_str(v, "raidz3") {
            Some(VdevType::RaidZ3)
        } else {
            None
        }
    }

    /// The raid type spelled by `source`; any other text is an unknown raid type.
    pub fn parse(source: &str) -> (r: Result<VdevType, ZpoolError>)
        ensures
            spec_raid_type(source@) matches Some(t) ==> (r matches Ok(k) && k == t),
            spec_raid_type(source@) is None ==> (r matches Err(ZpoolError::UnknownRaidType(n))
                && n@ == source@),
    {
        let v = chars_of(source);
        match VdevType::from_chars(v.as_slice()) {
            Some(t) => Ok(t),
            None => Err(ZpoolError::UnknownRaidType(source.to_owned())),
        }
    }
}

impl std::str::FromStr for VdevType {
    type Err = ZpoolError;

    fn from_str(source: &str) -> Result<VdevType, ZpoolError> {
        VdevType::parse(source)
    }
}

/// Consumer friendly wrapper to configure vdev to zpool.
#[derive(Debug, Clone)]
pub enum CreateVdevRequest {
    /// The most basic type of vdev is a standard block device. This can be an
    /// entire disk or a partition. In addition to disks, ZFS pools can be
    /// backed by regular files, this is especially useful for testing and
    /// experimentation. Use the full path to the file as the device path in
    /// zpool create. All vdevs must be at least 64MB or 128 MB in size
    /// depending on implementation.
    SingleDisk(String),
    /// A mirror of multiple disks. A mirror vdev will only hold as much data as
    /// its smallest member. A mirror vdev can withstand the failure of all
    /// but one of its members without losing any data.
    Mirror(Vec<String>),
    /// ZFS implements [RAID-Z](https://blogs.oracle.com/ahl/what-is-raid-z), a
    /// variation on standard RAID-5 that offers better distribution of
    /// parity and eliminates the "RAID-5 write hole".
    RaidZ(Vec<String>),
    /// The same as RAID-Z, but with 2 parity drives.
    RaidZ2(Vec<String>),
    /// The same as RAID-Z, but with 3 parity drives.
    RaidZ3(Vec<String>),
}

/// A request is its type and the paths of its disks.
impl View for CreateVdevRequest {
    type V = (VdevType, Seq<Seq<char>>);

    open spec fn view(&self) -> (VdevType, Seq<Seq<char>>) {
        match self {
            CreateVdevRequest::SingleDisk(d) => (VdevType::SingleDisk, seq![d@]),
            CreateVdevRequest::Mirror(v) => (VdevType::Mirror, path_views(v@)),
            CreateVdevRequest::RaidZ(v) => (VdevType::RaidZ, path_views(v@)),
            CreateVdevRequest::RaidZ2(v) => (VdevType::RaidZ2, path_views(v@)),
            CreateVdevRequest::RaidZ3(v) => (VdevType::RaidZ3, path_views(v@)),
        }
    }
}

/// The fewest disks a vdev of type `k` takes: one for a single disk, two for
/// a mirror, three for raidz, five for raidz2 and eight for raidz3.
pub open spec fn min_disks(k: VdevType) -> nat {
    match k {
        VdevType::SingleDisk => 1,
        VdevType::Mirror => 2,
        VdevType::RaidZ => 3,
        VdevType::RaidZ2 => 5,
        VdevType::RaidZ3 => 8,
    }
}

/// The word that starts the arguments of a vdev of type `k`, if any.
pub open spec fn kind_word(k: VdevType) -> Seq<char> {
    match k {
        VdevType::SingleDisk => Seq::empty(),
        VdevType::Mirror => "mirror"@,
        VdevType::RaidZ => "raidz"@,
        VdevType::RaidZ2 => "raidz2"@,
        VdevType::RaidZ3 => "raidz3"@,
    }
}

/// The arguments of `zpool create` that stand for the vdev `v`: its disks,
/// after the word of its type unless it is a single disk.
pub open spec fn vdev_args(v: (VdevType, Seq<Seq<char>>)) -> Seq<Seq<char>> {
    if v.0 == VdevType::SingleDisk {
        v.1
    } else {
        seq![kind_word(v.0)] + v.1
    }
}

/// The views of a list of strings.
pub open spec fn strings_view(v: Seq<String>) -> Seq<Seq<char>> {
    v.map_values(|s: String| s@)
}

/// A copy of a list of paths.
pub fn copy_strings(v: &Vec<String>) -> (r: Vec<String>)
    ensures
        strings_view(r@) == strings_view(v@),
{
    let mut r: Vec<String> = Vec::new();
    let mut i: usize = 0;
    while i < v.len()
        invariant
            i <= v@.len(),
            strings_view(r@) == strings_view(v@).take(i as int),
        decreases v@.len() - i,
    {
        let ghost before = r@;
        let s = v[i].clone();
        r.push(s);
        assert(strings_view(r@) =~= strings_view(before).push(v@[i as int]@));
        assert(strings_view(v@).take(i + 1) =~= strings_view(v@).take(i as int).push(v@[i as int]@));
        i += 1;
    }
    assert(strings_view(v@).take(v@.len() as int) =~= strings_view(v@));
    r
}

/// Appends a copy of each of `items` to `out`.
pub fn extend_strings(out: &mut Vec<String>, items: &Vec<String>)
    ensures
        strings_view(final(out)@) == strings_view(old(out)@) + strings_view(items@),
{
    let ghost start = strings_view(out@);
    let mut i: usize = 0;
    while i < items.len()
        invariant
            i <= items@.len(),
            strings_view(out@) == start + strings_view(items@).take(i as int),
        decreases items@.len() - i,
    {
        let ghost before = out@;
        let s = items[i].clone();
        out.push(s);
        assert(strings_view(out@) =~= strings_view(before).push(items@[i as int]@));
        assert(strings_view(items@).take(i + 1) =~= strings_view(items@).take(i as int).push(
            items@[i as int]@,
        ));
        i += 1;
    }
    assert(strings_view(items@).take(items@.len() as int) =~= strings_view(items@));
}

impl CreateVdevRequest {
    /// Check if given CreateVdevRequest is valid.
    ///
    /// A single disk always is. A mirror needs at least two disks, raidz
    /// three, raidz2 five and raidz3 eight. This gives false negative results
    /// in RAIDZ2 and RAIDZ3. This is intentional.
    pub fn is_valid(&self) -> (r: bool)
        ensures
            r == (self@.1.len() >= min_disks(self@.0)),
    {
        match self {
            CreateVdevRequest::SingleDisk(_) => true,
            CreateVdevRequest::Mirror(disks) => disks.len() >= 2,
            CreateVdevRequest::RaidZ(disks) => disks.len() >= 3,
            CreateVdevRequest::RaidZ2(disks) => disks.len() >= 5,
            CreateVdevRequest::RaidZ3(disks) => disks.len() >= 8,
        }
    }

    /// The list of arguments of `zpool create` that stands for this vdev.
    pub fn into_args(self) -> (r: Vec<String>)
        ensures
            strings_view(r@) == vdev_args(self@),
    {
        let mut ret: Vec<String> = Vec::new();
        match &self {
            CreateVdevRequest::SingleDisk(d) => {
                ret.push(d.clone());
                assert(strings_view(ret@) =~= seq![d@]);
                return ret;
            },
            CreateVdevRequest::Mirror(_) => ret.push("mirror".to_owned()),
            CreateVdevRequest::RaidZ(_) => ret.push("raidz".to_owned()),
            CreateVdevRequest::RaidZ2(_) => ret.push("raidz2".to_owned()),
            CreateVdevRequest::RaidZ3(_) => ret.push("raidz3".to_owned()),
        }
        assert(strings_view(ret@) =~= seq![kind_word(self@.0)]);
        match &self {
            CreateVdevRequest::SingleDisk(_) => {},
            CreateVdevRequest::Mirror(v) => extend_strings(&mut ret, v),
            CreateVdevRequest::RaidZ(v) => extend_strings(&mut ret, v),
            CreateVdevRequest::RaidZ2(v) => extend_strings(&mut ret, v),
            CreateVdevRequest::RaidZ3(v) => extend_strings(&mut ret, v),
        }
        ret
    }

    /// Short-cut to CreateVdevRequest::SingleDisk(disk)
    pub fn disk(value: &str) -> (r: CreateVdevRequest)
        ensures
            r@ == (VdevType::SingleDisk, seq![value@]),
    {
        CreateVdevRequest::SingleDisk(value.to_owned())
    }

    /// Get kind
    pub fn kind(&self) -> (r: VdevType)
        ensures
            r == self@.0,
    {
        match self {
            CreateVdevRequest::SingleDisk(_) => VdevType::SingleDisk,
            CreateVdevRequest::Mirror(_) => VdevType::Mirror,
            CreateVdevRequest::RaidZ(_) => VdevType::RaidZ,
            CreateVdevRequest::RaidZ2(_) => VdevType::RaidZ2,
            CreateVdevRequest::RaidZ3(_) => VdevType::RaidZ3,
        }
    }

    /// The paths of the disks of this request.
    pub fn paths(&self) -> (r: Vec<String>)
        ensures
            strings_view(r@) == self@.1,
    {
        match self {
            CreateVdevRequest::SingleDisk(d) => {
                let mut r: Vec<String> = Vec::new();
                r.push(d.clone());
                assert(strings_view(r@) =~= seq![d@]);
                r
            },
            CreateVdevRequest::Mirror(v) => copy_strings(v),
            CreateVdevRequest::RaidZ(v) => copy_strings(v),
            CreateVdevRequest::RaidZ2(v) => copy_strings(v),
            CreateVdevRequest::RaidZ3(v) => copy_strings(v),
        }
    }

    /// A request of the same type for the same paths.
    pub fn copy(&self) -> (r: CreateVdevRequest)
        ensures
            r@ == self@,
    {
        match self {
            CreateVdevRequest::SingleDisk(d) => CreateVdevRequest::SingleDisk(d.clone()),
            CreateVdevRequest::Mirror(v) => CreateVdevRequest::Mirror(copy_strings(v)),
            CreateVdevRequest::RaidZ(v) => CreateVdevRequest::RaidZ(copy_strings(v)),
            CreateVdevRequest::RaidZ2(v) => CreateVdevRequest::RaidZ2(copy_strings(v)),
            CreateVdevRequest::RaidZ3(v) => CreateVdevRequest::RaidZ3(copy_strings(v)),
        }
    }
}

/// Whether two lists of paths name the same files, one for one.
pub fn same_path_lists(a: &Vec<String>, b: &Vec<String>) -> (r: bool)
    ensures
        r == same_paths(strings_view(a@), strings_view(b@)),
{
    if a.len() != b.len() {
        return false;
    }
    let mut i: usize = 0;
    while i < a.len()
        invariant
            a@.len() == b@.len(),
            i <= a@.len(),
            forall|k: int| 0 <= k < i ==> same_path(#[trigger] strings_view(a@)[k], strings_view(b@)[k]),
        decreases a@.len() - i,
    {
        if !same_path_str(a[i].as_str(), b[i].as_str()) {
            assert(!same_path(strings_view(a@)[i as int], strings_view(b@)[i as int]));
            return false;
        }
        i += 1;
    }
    true
}

/// Two requests are equal when they have the same type and the same paths.
impl PartialEq for CreateVdevRequest {
    fn eq(&self, other: &CreateVdevRequest) -> (r: bool) {
        if self.kind() != other.kind() {
            return false;
        }
        let a = self.paths();
        let b = other.paths();
        same_path_lists(&a, &b)
    }
}

impl vstd::std_specs::cmp::PartialEqSpecImpl for CreateVdevRequest {
    open spec fn obeys_eq_spec() -> bool {
        true
    }

    open spec fn eq_spec(&self, other: &CreateVdevRequest) -> bool {
        self@.0 == other@.0 && same_paths(self@.1, other@.1)
    }
}

impl Eq for CreateVdevRequest {}


/// What is known of a vdev.
pub struct VdevView {
    pub kind: VdevType,
    pub health: Health,
    pub reason: Option<Seq<char>>,
    pub disks: Seq<DiskView>,
    pub error_statistics: ErrorStatistics,
}

/// Basic zpool building block.
///
/// A pool is made up of one or more vdevs, which themselves can be a single
/// disk or a group of disks, in the case of a RAID transform. When multiple
/// vdevs are used, ZFS spreads data across the vdevs to increase performance
/// and maximize usable space.
#[derive(Debug, Clone)]
pub struct Vdev {
    /// Type of Vdev
    pub kind: VdevType,
    /// Current Health of Vdev
    pub health: Health,
    /// Reason why vdev is in this state
    pub reason: Option<Reason>,
    /// Backing devices for this vdev
    pub disks: Vec<Disk>,
    /// How many read, write and checksum errors device encountered since last
    /// reset.
    pub error_statistics: ErrorStatistics,
}

impl View for Vdev {
    type V = VdevView;

    open spec fn view(&self) -> VdevView {
        VdevView {
            kind: self.kind,
            health: self.health,
            reason: reason_view(self.reason),
            disks: disks_view(self.disks@),
            error_statistics: self.error_statistics,
        }
    }
}

/// The views of a list of vdevs.
pub open spec fn vdevs_view(v: Seq<Vdev>) -> Seq<VdevView> {
    v.map_values(|d: Vdev| d@)
}

/// Vdevs are equal when they have the same type and their disks the same paths.
pub open spec fn same_vdev(a: VdevView, b: VdevView) -> bool {
    a.kind == b.kind && same_paths(disk_paths(a.disks), disk_paths(b.disks))
}

/// Whether a vdev is what a request asks for: the same type and, for a
/// single disk, the first disk at the requested path; else the same paths,
/// one for one.
pub open spec fn vdev_matches(a: VdevView, r: (VdevType, Seq<Seq<char>>)) -> bool {
    &&& a.kind == r.0
    &&& if r.0 == VdevType::SingleDisk {
        a.disks.len() > 0 && same_path(a.disks[0].path, r.1[0])
    } else {
        same_paths(disk_paths(a.disks), r.1)
    }
}

/// Whether the disks of `a` are at the paths `b`, one for one.
fn disks_at_paths(a: &Vec<Disk>, b: &Vec<String>) -> (r: bool)
    ensures
        r == same_paths(disk_paths(disks_view(a@)), strings_view(b@)),
{
    if a.len() != b.len() {
        return false;
    }
    let mut i: usize = 0;
    while i < a.len()
        invariant
            a@.len() == b@.len(),
            i <= a@.len(),
            forall|k: int|
                0 <= k < i ==> same_path(
                    #[trigger] disk_paths(disks_view(a@))[k],
                    strings_view(b@)[k],
                ),
        decreases a@.len() - i,
    {
        if !same_path_str(a[i].path.as_str(), b[i].as_str()) {
            assert(!same_path(disk_paths(disks_view(a@))[i as int], strings_view(b@)[i as int]));
            return false;
        }
        i += 1;
    }
    true
}

/// Whether two lists of disks have the same paths, one for one.
fn same_disks(a: &Vec<Disk>, b: &Vec<Disk>) -> (r: bool)
    ensures
        r == same_paths(disk_paths(disks_view(a@)), disk_paths(disks_view(b@))),
{
    if a.len() != b.len() {
        return false;
    }
    let mut i: usize = 0;
    while i < a.len()
        invariant
            a@.len() == b@.len(),
            i <= a@.len(),
            forall|k: int|
                0 <= k < i ==> same_path(
                    #[trigger] disk_paths(disks_view(a@))[k],
                    disk_paths(disks_view(b@))[k],
                ),
        decreases a@.len() - i,
    {
        if !same_path_str(a[i].path.as_str(), b[i].path.as_str()) {
            assert(!same_path(
                disk_paths(disks_view(a@))[i as int],
                disk_paths(disks_view(b@))[i as int],
            ));
            return false;
        }
        i += 1;
    }
    true
}

impl Vdev {
    /// Create a builder - the preferred way of creating a Vdev.
    pub fn builder() -> (r: VdevBuilder)
        ensures
            r.kind is None,
            r.health is None,
            r.reason is None,
            r.disks is None,
            r.error_statistics is None,
    {
        VdevBuilder::default()
    }

    /// Type of the vdev.
    pub fn kind(&self) -> (r: &VdevType)
        ensures
            *r == self.kind,
    {
        &self.kind
    }

    /// Current health of the vdev.
    pub fn health(&self) -> (r: &Health)
        ensures
            *r == self.health,
    {
        &self.health
    }

    /// Reason why the vdev is in its state.
    pub fn reason(&self) -> (r: &Option<Reason>)
        ensures
            reason_view(*r) == reason_view(self.reason),
    {
        &self.reason
    }

    /// Backing devices of the vdev.
    pub fn disks(&self) -> (r: &Vec<Disk>)
        ensures
            disks_view(r@) == disks_view(self.disks@),
    {
        &self.disks
    }

    /// Error counts of the vdev.
    pub fn error_statistics(&self) -> (r: &ErrorStatistics)
        ensures
            *r == self.error_statistics,
    {
        &self.error_statistics
    }

    /// A vdev with the same view.
    pub fn copy(&self) -> (r: Vdev)
        ensures
            r@ == self@,
    {
        Vdev {
            kind: self.kind,
            health: self.health,
            reason: copy_reason(&self.reason),
            disks: copy_disks(&self.disks),
            error_statistics: self.error_statistics,
        }
    }

    /// Whether this vdev is what `request` asks for.
    pub fn matches(&self, request: &CreateVdevRequest) -> (r: bool)
        ensures
            r == vdev_matches(self@, request@),
    {
        if self.kind != request.kind() {
            return false;
        }
        match request {
            CreateVdevRequest::SingleDisk(d) => {
                if self.disks.len() == 0 {
                    false
                } else {
                    same_path_str(self.disks[0].path.as_str(), d.as_str())
                }
            },
            CreateVdevRequest::Mirror(v) => disks_at_paths(&self.disks, v),
            CreateVdevRequest::RaidZ(v) => disks_at_paths(&self.disks, v),
            CreateVdevRequest::RaidZ2(v) => disks_at_paths(&self.disks, v),
            CreateVdevRequest::RaidZ3(v) => disks_at_paths(&self.disks, v),
        }
    }
}

/// A copy of a list of vdevs.
pub fn copy_vdevs(v: &Vec<Vdev>) -> (r: Vec<Vdev>)
    ensures
        vdevs_view(r@) == vdevs_view(v@),
{
    let mut r: Vec<Vdev> = Vec::new();
    let mut i: usize = 0;
    while i < v.len()
        invariant
            i <= v@.len(),
            vdevs_view(r@) == vdevs_view(v@).take(i as int),
        decreases v@.len() - i,
    {
        let ghost before = r@;
        let d = v[i].copy();
        r.push(d);
        assert(vdevs_view(r@) =~= vdevs_view(before).push(v@[i as int]@));
        assert(vdevs_view(v@).take(i + 1) =~= vdevs_view(v@).take(i as int).push(v@[i as int]@));
        i += 1;
    }
    assert(vdevs_view(v@).take(v@.len() as int) =~= vdevs_view(v@));
    r
}

/// Vdevs are equal if their type and backing disks are equal.
impl PartialEq for Vdev {
    fn eq(&self, other: &Vdev) -> (r: bool) {
        self.kind == other.kind && same_disks(&self.disks, &other.disks)
    }
}

impl vstd::std_specs::cmp::PartialEqSpecImpl for Vdev {
    open spec fn obeys_eq_spec() -> bool {
        true
    }

    open spec fn eq_spec(&self, other: &Vdev) -> bool {
        same_vdev(self@, other@)
    }
}

impl Eq for Vdev {}

impl PartialEq<CreateVdevRequest> for Vdev {
    fn eq(&self, other: &CreateVdevRequest) -> (r: bool) {
        self.matches(other)
    }
}

impl vstd::std_specs::cmp::PartialEqSpecImpl<CreateVdevRequest> for Vdev {
    open spec fn obeys_eq_spec() -> bool {
        true
    }

    open spec fn eq_spec(&self, other: &CreateVdevRequest) -> bool {
        vdev_matches(self@, other@)
    }
}

impl PartialEq<Vdev> for CreateVdevRequest {
    fn eq(&self, other: &Vdev) -> (r: bool) {
        other.matches(self)
    }
}

impl vstd::std_specs::cmp::PartialEqSpecImpl<Vdev> for CreateVdevRequest {
    open spec fn obeys_eq_spec() -> bool {
        true
    }

    open spec fn eq_spec(&self, other: &Vdev) -> bool {
        vdev_matches(other@, self@)
    }
}

/// Builder of `Vdev`: the type, the health and the disks must be given.
#[derive(Debug, Clone)]
pub struct VdevBuilder {
    pub kind: Option<VdevType>,
    pub health: Option<Health>,
    pub reason: Option<Option<Reason>>,
    pub disks: Option<Vec<Disk>>,
    pub error_statistics: Option<ErrorStatistics>,
}

impl Default for VdevBuilder {
    fn default() -> (r: VdevBuilder)
        ensures
            r.kind is None,
            r.health is None,
            r.reason is None,
            r.disks is None,
            r.error_statistics is None,
    {
        VdevBuilder { kind: None, health: None, reason: None, disks: None, error_statistics: None }
    }
}

impl VdevBuilder {
    pub fn kind(&mut self, value: VdevType) -> (r: &mut VdevBuilder)
        ensures
            *r == (VdevBuilder { kind: Some(value), ..*old(self) }),
            *final(self) == *final(r),
    {
        self.kind = Some(value);
        self
    }

    pub fn health(&mut self, value: Health) -> (r: &mut VdevBuilder)
        ensures
            *r == (VdevBuilder { health: Some(value), ..*old(self) }),
            *final(self) == *final(r),
    {
        self.health = Some(value);
        self
    }

    pub fn reason(&mut self, value: Option<Reason>) -> (r: &mut VdevBuilder)
        ensures
            *r == (VdevBuilder { reason: Some(value), ..*old(self) }),
            *final(self) == *final(r),
    {
        self.reason = Some(value);
        self
    }

    pub fn disks(&mut self, value: Vec<Disk>) -> (r: &mut VdevBuilder)
        ensures
            *r == (VdevBuilder { disks: Some(value), ..*old(self) }),
            *final(self) == *final(r),
    {
        self.disks = Some(value);
        self
    }

    pub fn error_statistics(&mut self, value: ErrorStatistics) -> (r: &mut VdevBuilder)
        ensures
            *r == (VdevBuilder { error_statistics: Some(value), ..*old(self) }),
            *final(self) == *final(r),
    {
        self.error_statistics = Some(value);
        self
    }

    /// The vdev; fails when the type, the health or the disks were not given.
    /// No reason and zero counts when they were not given.
    pub fn build(&self) -> (r: Result<Vdev, String>)
        ensures
            r is Ok <==> (self.kind is Some && self.health is Some && self.disks is Some),
            r matches Ok(v) ==> v@ == (VdevView {
                kind: self.kind->0,
                health: self.health->0,
                reason: match self.reason {
                    Some(x) => reason_view(x),
                    None => None,
                },
                disks: disks_view(self.disks->0@),
                error_statistics: match self.error_statistics {
                    Some(s) => s,
                    None => ErrorStatistics { read: 0, write: 0, checksum: 0 },
                },
            }),
    {
        let kind = match self.kind {
            Some(k) => k,
            None => {
                return Err("`kind` must be initialized".to_owned());
            },
        };
        let health = match self.health {
            Some(h) => h,
            None => {
                return Err("`health` must be initialized".to_owned());
            },
        };
        let disks = match &self.disks {
            Some(d) => copy_disks(d),
            None => {
                return Err("`disks` must be initialized".to_owned());
            },
        };
        let reason = match &self.reason {
            Some(x) => copy_reason(x),
            None => None,
        };
        let error_statistics = match self.error_statistics {
            Some(s) => s,
            None => ErrorStatistics::default(),
        };
        Ok(Vdev { kind, health, reason, disks, error_statistics })
    }
}

/// Paths are compared as paths, and that comparison is an equivalence: a
/// path names what it names, in either order, and transitively.
pub proof fn lemma_same_path_is_equivalence(a: Seq<char>, b: Seq<char>, c: Seq<char>)
    ensures
        same_path(a, a),
        same_path(a, b) == same_path(b, a),
        same_path(a, b) && same_path(b, c) ==> same_path(a, c),
{
}

/// Lists of paths compared one for one form an equivalence too.
pub proof fn lemma_same_paths_is_equivalence(a: Seq<Seq<char>>, b: Seq<Seq<char>>, c: Seq<Seq<char>>)
    ensures
        same_paths(a, a),
        same_paths(a, b) == same_paths(b, a),
        same_paths(a, b) && same_paths(b, c) ==> same_paths(a, c),
{
    if same_paths(a, b) && same_paths(b, c) {
        assert forall|i: int| 0 <= i < a.len() implies same_path(#[trigger] a[i], c[i]) by {
            assert(same_path(a[i], b[i]));
            assert(same_path(b[i], c[i]));
        }
    }
    if same_paths(b, a) {
        assert forall|i: int| 0 <= i < a.len() implies same_path(#[trigger] a[i], b[i]) by {
            assert(same_path(b[i], a[i]));
        }
    }
}

/// Equality of vdevs (same type, disks at the same paths) is an equivalence.
pub proof fn lemma_vdev_equality_is_equivalence(a: VdevView, b: VdevView, c: VdevView)
    ensures
        same_vdev(a, a),
        same_vdev(a, b) == same_vdev(b, a),
        same_vdev(a, b) && same_vdev(b, c) ==> same_vdev(a, c),
{
    lemma_same_paths_is_equivalence(disk_paths(a.disks), disk_paths(b.disks), disk_paths(c.disks));
}

/// A vdev equals a request exactly when the request equals the vdev.
pub proof fn lemma_vdev_request_eq_symmetric(v: Vdev, r: CreateVdevRequest)
    ensures
        vstd::std_specs::cmp::PartialEqSpec::eq_spec(&v, &r) == vstd::std_specs::cmp::PartialEqSpec::eq_spec(&r, &v),
{
}

} // verus!
