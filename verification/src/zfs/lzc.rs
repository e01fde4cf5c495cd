//! What `libzfs_core` is given to create a dataset, and what its answer means.
use vstd::prelude::*;

use super::description::DatasetKind;
use super::errors::Error;
use super::properties::{AclInheritMode, AclMode, CacheMode, Checksum, Compression, Copies, SnapDir};
use super::request::CreateDatasetRequest;
use super::string_map::StringMap;
use crate::outside::{io_error_from_raw, io_error_invalid_input, os_error};

verus! {

/// A value of a property list.
#[derive(Debug, Clone)]
pub enum NvValue {
    Number(u64),
    Text(String),
}

/// What a value of a property list holds.
pub enum NvValueView {
    Number(u64),
    Text(Seq<char>),
}

impl View for NvValue {
    type V = NvValueView;

    open spec fn view(&self) -> NvValueView {
        match self {
            NvValue::Number(n) => NvValueView::Number(*n),
            NvValue::Text(s) => NvValueView::Text(s@),
        }
    }
}

/// The views of a property list.
pub open spec fn nv_view(v: Seq<(String, NvValue)>) -> Seq<(Seq<char>, NvValueView)> {
    v.map_values(|p: (String, NvValue)| (p.0@, p.1@))
}

/// The number that `libzfs_core` is given for a flag: 1 when it is set, 0
/// when it is not.
pub open spec fn spec_bool_to_u64(b: bool) -> u64 {
    if b {
        1
    } else {
        0
    }
}

/// The number that `libzfs_core` is given for a flag.
pub fn bool_to_u64(src: bool) -> (r: u64)
    ensures
        r == spec_bool_to_u64(src),
{
    if src {
        1
    } else {
        0
    }
}

/// The entry `key` with a number, when there is a number.
pub open spec fn num_entry(key: Seq<char>, v: Option<u64>) -> Seq<(Seq<char>, NvValueView)> {
    match v {
        Some(n) => seq![(key, NvValueView::Number(n))],
        None => Seq::empty(),
    }
}

/// The number of an optional flag.
pub open spec fn flag_number(b: Option<bool>) -> Option<u64> {
    match b {
        Some(x) => Some(spec_bool_to_u64(x)),
        None => None,
    }
}

/// The user properties as text entries.
pub open spec fn user_entries(m: Option<StringMap>) -> Seq<(Seq<char>, NvValueView)> {
    match m {
        Some(x) => x.entries().map_values(|e: (Seq<char>, Seq<char>)| (e.0, NvValueView::Text(e.1))),
        None => Seq::empty(),
    }
}

/// The native properties that are set in `r`, as numbers, in this order:
/// ACL inheritance and mode, atime, checksum, compression, copies, devices,
/// exec, primary cache, quota, readonly, record size, reference quota and
/// reservation, secondary cache, setuid, snapshot directory, volume size and
/// block size, xattr.
pub open spec fn native_entries(r: CreateDatasetRequest) -> Seq<(Seq<char>, NvValueView)> {
    Seq::empty()
        + num_entry("aclinherit"@, match r.acl_inherit { Some(v) => Some(v.spec_number()), None => None })
        + num_entry("aclmode"@, match r.acl_mode { Some(v) => Some(v.spec_number()), None => None })
        + num_entry("atime"@, flag_number(r.atime))
        + num_entry("checksum"@, match r.checksum { Some(v) => Some(v.spec_number()), None => None })
        + num_entry("compression"@, match r.compression { Some(v) => Some(v.spec_number()), None => None })
        + num_entry("copies"@, match r.copies { Some(v) => Some(v.spec_number()), None => None })
        + num_entry("devices"@, flag_number(r.devices))
        + num_entry("exec"@, flag_number(r.executable))
        + num_entry("primarycache"@, match r.primary_cache { Some(v) => Some(v.spec_number()), None => None })
        + num_entry("quota"@, r.quota)
        + num_entry("readonly"@, flag_number(r.readonly))
        + num_entry("recordsize"@, r.record_size)
        + num_entry("refquota"@, r.ref_quota)
        + num_entry("refreservation"@, r.ref_reservation)
        + num_entry("secondarycache"@, match r.secondary_cache { Some(v) => Some(v.spec_number()), None => None })
        + num_entry("setuid"@, flag_number(r.setuid))
        + num_entry("snapdir"@, match r.snap_dir { Some(v) => Some(v.spec_number()), None => None })
        + num_entry("volsize"@, r.volume_size)
        + num_entry("volblocksize"@, r.volume_block_size)
        + num_entry("xattr"@, flag_number(r.xattr))
}

/// The property list that creates the dataset `r`: its native properties,
/// then its user properties as text.
pub open spec fn spec_create_props(r: CreateDatasetRequest) -> Seq<(Seq<char>, NvValueView)> {
    native_entries(r) + user_entries(r.user_properties)
}

/// Whether `libzfs_core` is asked for something it cannot do: a filesystem
/// with a volume size or block size, or a volume without a size.
pub open spec fn create_rejected(r: CreateDatasetRequest) -> bool {
    ||| (r.kind == DatasetKind::Filesystem && (r.volume_size is Some || r.volume_block_size is Some))
    ||| (r.kind == DatasetKind::Volume && r.volume_size is None)
}

/// Appends the entry `key` with a number, when there is a number.
fn push_num(out: &mut Vec<(String, NvValue)>, key: &str, v: Option<u64>)
    ensures
        nv_view(final(out)@) == nv_view(old(out)@) + num_entry(key@, v),
{
    let ghost before = nv_view(out@);
    match v {
        Some(n) => {
            out.push((key.to_owned(), NvValue::Number(n)));
            assert(nv_view(out@) =~= before + num_entry(key@, v));
        },
        None => {
            assert(nv_view(out@) =~= before + num_entry(key@, v));
        },
    }
}

/// The number of an optional flag.
fn flag_num(b: Option<bool>) -> (r: Option<u64>)
    ensures
        r == flag_number(b),
{
    match b {
        Some(x) => Some(bool_to_u64(x)),
        None => None,
    }
}

/// The native properties that are set in `request`, as numbers.
fn native_properties(request: &CreateDatasetRequest) -> (out: Vec<(String, NvValue)>)
    ensures
        nv_view(out@) == native_entries(*request),
{
    let mut out: Vec<(String, NvValue)> = Vec::new();
    assert(nv_view(out@) =~= Seq::<(Seq<char>, NvValueView)>::empty());
    push_num(&mut out, "aclinherit", AclInheritMode::opt_number(request.acl_inherit));
    push_num(&mut out, "aclmode", AclMode::opt_number(request.acl_mode));
    push_num(&mut out, "atime", flag_num(request.atime));
    push_num(&mut out, "checksum", Checksum::opt_number(request.checksum));
    push_num(&mut out, "compression", Compression::opt_number(request.compression));
    push_num(&mut out, "copies", Copies::opt_number(request.copies));
    push_num(&mut out, "devices", flag_num(request.devices));
    push_num(&mut out, "exec", flag_num(request.executable));
    push_num(&mut out, "primarycache", CacheMode::opt_number(request.primary_cache));
    push_num(&mut out, "quota", request.quota);
    push_num(&mut out, "readonly", flag_num(request.readonly));
    push_num(&mut out, "recordsize", request.record_size);
    push_num(&mut out, "refquota", request.ref_quota);
    push_num(&mut out, "refreservation", request.ref_reservation);
    push_num(&mut out, "secondarycache", CacheMode::opt_number(request.secondary_cache));
    push_num(&mut out, "setuid", flag_num(request.setuid));
    push_num(&mut out, "snapdir", SnapDir::opt_number(request.snap_dir));
    push_num(&mut out, "volsize", request.volume_size);
    push_num(&mut out, "volblocksize", request.volume_block_size);
    push_num(&mut out, "xattr", flag_num(request.xattr));
    out
}

/// The property list that `lzc_create` is given for `request`; an invalid
/// input error for a filesystem with a volume size or block size, or a
/// volume without a size.
pub fn create_properties(request: &CreateDatasetRequest) -> (r: Result<Vec<(String, NvValue)>, Error>)
    ensures
        create_rejected(*request) ==> (r matches Err(e) && e is Io),
        !create_rejected(*request) ==> (r matches Ok(v) && nv_view(v@) == spec_create_props(*request)),
{
    if request.kind == DatasetKind::Filesystem && (request.volume_size.is_some()
        || request.volume_block_size.is_some()) {
        return Err(Error::Io(io_error_invalid_input()));
    }
    if request.kind == DatasetKind::Volume && request.volume_size.is_none() {
        return Err(Error::Io(io_error_invalid_input()));
    }
    let mut out = native_properties(request);
    let ghost natives = nv_view(out@);
    match &request.user_properties {
        Some(m) => {
            let pairs = m.pairs();
            let mut i: usize = 0;
            while i < pairs.len()
                invariant
                    i <= pairs@.len(),
                    crate::zfs::string_map::pairs_view(pairs@) == m.entries(),
                    nv_view(out@) == natives + m.entries().take(i as int).map_values(
                        |e: (Seq<char>, Seq<char>)| (e.0, NvValueView::Text(e.1)),
                    ),
                decreases pairs@.len() - i,
            {
                let ghost before = nv_view(out@);
                let k = pairs[i].0.clone();
                let v = pairs[i].1.clone();
                out.push((k, NvValue::Text(v)));
                assert(m.entries()[i as int] == (pairs@[i as int].0@, pairs@[i as int].1@));
                assert(m.entries().take(i + 1).map_values(|e: (Seq<char>, Seq<char>)| (e.0, NvValueView::Text(e.1)))
                    =~= m.entries().take(i as int).map_values(|e: (Seq<char>, Seq<char>)| (e.0, NvValueView::Text(e.1))).push(
                    (m.entries()[i as int].0, NvValueView::Text(m.entries()[i as int].1)),
                ));
                assert(nv_view(out@) =~= before.push((pairs@[i as int].0@, NvValueView::Text(pairs@[i as int].1@))));
                i += 1;
            }
            assert(m.entries().take(pairs@.len() as int) =~= m.entries());
        },
        None => {
            assert(nv_view(out@) =~= natives + Seq::<(Seq<char>, NvValueView)>::empty());
        },
    }
    Ok(out)
}

/// What the error number that `lzc_create` returns means: 0 is success,
/// `EINVAL` (22) invalid input, anything else the operating system error of
/// that number.
pub fn create_result(errno: i32) -> (r: Result<(), Error>)
    ensures
        errno == 0 ==> r is Ok,
        errno == 22 ==> (r matches Err(e) && e is Io),
        errno != 0 && errno != 22 ==> r == Err::<(), Error>(Error::Io(os_error(errno))),
{
    match errno {
        0 => Ok(()),
        22 => Err(Error::invalid_input()),
        _ => Err(Error::Io(io_error_from_raw(errno))),
    }
}

} // verus!
