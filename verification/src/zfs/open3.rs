//! What `zfs(8)` reports: the properties of a dataset as `zfs get -Hp all`
//! prints them, lists of datasets, and the command lines behind them.
use vstd::prelude::*;

use super::description::DatasetKind;
use super::errors::{spec_dataset_not_found, stderr_error, Error};
use super::string_map::entries_map;
use crate::parsers::zfs::{spec_datasets, spec_datasets_with_type, typed_view, ZfsParser};
use super::properties::{
    AclInheritMode, AclMode, BookmarkProperties, BookmarkPropertiesView, CacheMode, CanMount,
    CaseSensitivity, Checksum, Compression, Copies, Dedup, DnodeSize, FilesystemProperties,
    FilesystemPropertiesView, LogBias, Normalization, Properties, PropertiesView,
    RedundantMetadata, SnapDir, SnapshotProperties, SnapshotPropertiesView, SyncMode,
    VolumeMode, VolumeProperties, VolumePropertiesView, opt_strings_view,
};
use super::string_map::StringMap;
use crate::outside::{naive_timestamp, parse_naive_timestamp, utf8_lossy, decode_lossy};
use crate::text::{
    all_eq_str, chars_of, is_float, is_float_literal, parse_i64, parse_u64, spec_lines,
    spec_parse_i64, spec_parse_u64, spec_split, string_of, strip_eol, views,
};
use crate::zpool::properties::{opt_view, strip_last};
use crate::zpool::vdev::strings_view;

verus! {

/// The format of dates that `zfs(8)` prints when it is not asked for numbers.
pub const DATE_FORMAT: &'static str = "%a %b %e %k:%M %Y";

/// The views of `key`/`value` pairs.
pub open spec fn pairs_chars(v: Seq<(Vec<char>, Vec<char>)>) -> Seq<(Seq<char>, Seq<char>)> {
    v.map_values(|p: (Vec<char>, Vec<char>)| (p.0@, p.1@))
}

/// Whether every pair satisfies `ok`.
pub open spec fn all_values_ok(ps: Seq<(Seq<char>, Seq<char>)>, ok: spec_fn(Seq<char>, Seq<char>) -> bool) -> bool {
    forall|j: int| 0 <= j < ps.len() ==> #[trigger] ok(ps[j].0, ps[j].1)
}

/// The value of the last pair whose key is `k`.
pub open spec fn last_value(ps: Seq<(Seq<char>, Seq<char>)>, k: Seq<char>) -> Option<Seq<char>>
    decreases ps.len(),
{
    if ps.len() == 0 {
        None
    } else if ps.last().0 == k {
        Some(ps.last().1)
    } else {
        last_value(ps.drop_last(), k)
    }
}

/// What the last value of the property `k` reads as, `None` when there is
/// no such property or its value does not read.
pub open spec fn field_value<T>(ps: Seq<(Seq<char>, Seq<char>)>, k: Seq<char>, dec: spec_fn(Seq<char>) -> Option<T>) -> Option<T> {
    match last_value(ps, k) {
        Some(v) => dec(v),
        None => None,
    }
}

/// The properties that are not `known`, later values winning.
pub open spec fn unknown_map(ps: Seq<(Seq<char>, Seq<char>)>, known: spec_fn(Seq<char>) -> bool) -> Map<Seq<char>, Seq<char>>
    decreases ps.len(),
{
    if ps.len() == 0 {
        Map::empty()
    } else if known(ps.last().0) {
        unknown_map(ps.drop_last(), known)
    } else {
        unknown_map(ps.drop_last(), known).insert(ps.last().0, ps.last().1)
    }
}

/// A flag is set when its value is `yes` or `on`.
pub open spec fn spec_parse_bool(v: Seq<char>) -> bool {
    v == "yes"@ || v == "on"@
}

/// A count that may be absent: `-`, `none` and the empty text stand for no
/// count, and a decimal number that fits in a `u64` is that count. `None`
/// when the value reads as neither: a value that is not a number then makes
/// the whole listing fail to read (the reader returns `None` rather than
/// panicking).
pub open spec fn spec_opt_num(v: Seq<char>) -> Option<Option<u64>> {
    if v == "-"@ || v == "none"@ || v == ""@ {
        Some(None)
    } else {
        match spec_parse_u64(v) {
            Some(n) => Some(Some(n)),
            None => None,
        }
    }
}

/// A mount point: `-` and `none` stand for none.
pub open spec fn spec_mount_point(v: Seq<char>) -> Option<Seq<char>> {
    if v == "-"@ || v == "none"@ {
        None
    } else {
        Some(v)
    }
}

/// A security label: `-`, `none` and the empty text stand for none.
pub open spec fn spec_mls_label(v: Seq<char>) -> Option<Seq<char>> {
    if v == "-"@ || v == "none"@ || v == ""@ {
        None
    } else {
        Some(v)
    }
}

/// The clones of a snapshot, separated by commas: `-` and the empty text
/// stand for none.
pub open spec fn spec_clones(v: Seq<char>) -> Option<Seq<Seq<char>>> {
    if v == "-"@ || v == ""@ {
        None
    } else {
        Some(spec_split(v, ','))
    }
}

/// A creation time: a number of seconds, or a date in `DATE_FORMAT`.
pub open spec fn spec_creation(v: Seq<char>) -> Option<i64> {
    match spec_parse_i64(v) {
        Some(n) => Some(n),
        None => naive_timestamp(v, DATE_FORMAT@),
    }
}

/// The views of an optional optional string.
pub open spec fn opt_opt_view(o: Option<Option<String>>) -> Option<Option<Seq<char>>> {
    match o {
        Some(x) => Some(opt_view(x)),
        None => None,
    }
}

/// The views of an optional optional list of strings.
pub open spec fn opt_opt_strings_view(o: Option<Option<Vec<String>>>) -> Option<Option<Seq<Seq<char>>>> {
    match o {
        Some(x) => Some(opt_strings_view(x)),
        None => None,
    }
}

proof fn lemma_last_value_found(ps: Seq<(Seq<char>, Seq<char>)>, k: Seq<char>, i: int)
    requires
        0 <= i < ps.len(),
        ps[i].0 == k,
        forall|j: int| i < j < ps.len() ==> ps[j].0 != k,
    ensures
        last_value(ps, k) == Some(ps[i].1),
    decreases ps.len(),
{
    if i < ps.len() - 1 {
        lemma_last_value_found(ps.drop_last(), k, i);
    }
}

proof fn lemma_last_value_none(ps: Seq<(Seq<char>, Seq<char>)>, k: Seq<char>)
    requires
        forall|j: int| 0 <= j < ps.len() ==> ps[j].0 != k,
    ensures
        last_value(ps, k) is None,
    decreases ps.len(),
{
    if ps.len() > 0 {
        lemma_last_value_none(ps.drop_last(), k);
    }
}

/// The value of the last pair whose key is `key`.
fn last_value_of<'a>(ps: &'a Vec<(Vec<char>, Vec<char>)>, key: &str) -> (r: Option<&'a Vec<char>>)
    ensures
        match r {
            Some(v) => last_value(pairs_chars(ps@), key@) == Some(v@),
            None => last_value(pairs_chars(ps@), key@) is None,
        },
{
    let ghost pv = pairs_chars(ps@);
    let mut i = ps.len();
    while i > 0
        invariant
            i <= ps@.len(),
            pv == pairs_chars(ps@),
            forall|j: int| i <= j < ps@.len() ==> pv[j].0 != key@,
        decreases i,
    {
        if all_eq_str(ps[i - 1].0.as_slice(), key) {
            proof {
                lemma_last_value_found(pv, key@, i - 1);
            }
            return Some(&ps[i - 1].1);
        }
        i -= 1;
    }
    proof {
        lemma_last_value_none(pv, key@);
    }
    None
}

/// A flag.
fn bool_field(v: &[char]) -> (r: Option<bool>)
    ensures
        r == Some(spec_parse_bool(v@)),
{
    Some(all_eq_str(v, "yes") || all_eq_str(v, "on"))
}

/// `v` without a last `x`.
fn without_x(v: &[char]) -> (r: Vec<char>)
    ensures
        r@ == strip_last(v@, 'x'),
{
    if v.len() > 0 && v[v.len() - 1] == 'x' {
        let r = crate::text::sub_chars(v, 0, v.len() - 1);
        assert(r@ =~= v@.drop_last());
        r
    } else {
        let r = crate::text::sub_chars(v, 0, v.len());
        assert(r@ =~= v@);
        r
    }
}

/// Whether a ratio reads as a number once its `x` is dropped.
fn ratio_ok(v: &[char]) -> (r: bool)
    ensures
        r == is_float_literal(strip_last(v@, 'x')),
{
    let w = without_x(v);
    is_float(w.as_slice())
}

/// A ratio: its text without the `x`, when that reads as a number.
fn ratio_field(v: &[char]) -> (r: Option<String>)
    ensures
        opt_view(r) == (if is_float_literal(strip_last(v@, 'x')) {
            Some(strip_last(v@, 'x'))
        } else {
            None
        }),
{
    let w = without_x(v);
    if is_float(w.as_slice()) {
        Some(string_of(w.as_slice(), 0, w.len()))
    } else {
        assert(w@.subrange(0, w@.len() as int) =~= w@);
        None
    }
}

/// A count that may be absent.
fn opt_num(v: &[char]) -> (r: Option<Option<u64>>)
    ensures
        r == spec_opt_num(v@),
{
    if all_eq_str(v, "-") || all_eq_str(v, "none") || all_eq_str(v, "") {
        Some(None)
    } else {
        match parse_u64(v) {
            Some(n) => Some(Some(n)),
            None => None,
        }
    }
}

/// The whole of `v` as a string.
fn text_of(v: &[char]) -> (r: String)
    ensures
        r@ == v@,
{
    let r = string_of(v, 0, v.len());
    assert(v@.subrange(0, v@.len() as int) =~= v@);
    r
}

/// A mount point.
fn mount_field(v: &[char]) -> (r: Option<Option<String>>)
    ensures
        opt_opt_view(r) == Some(spec_mount_point(v@)),
{
    if all_eq_str(v, "-") || all_eq_str(v, "none") {
        Some(None)
    } else {
        Some(Some(text_of(v)))
    }
}

/// A security label.
fn mls_field(v: &[char]) -> (r: Option<Option<String>>)
    ensures
        opt_opt_view(r) == Some(spec_mls_label(v@)),
{
    if all_eq_str(v, "-") || all_eq_str(v, "none") || all_eq_str(v, "") {
        Some(None)
    } else {
        Some(Some(text_of(v)))
    }
}

/// The origin of a clone.
fn origin_field(v: &[char]) -> (r: Option<Option<String>>)
    ensures
        opt_opt_view(r) == Some(Some(v@)),
{
    Some(Some(text_of(v)))
}

/// The clones of a snapshot.
fn clones_field(v: &[char]) -> (r: Option<Option<Vec<String>>>)
    ensures
        opt_opt_strings_view(r) == Some(spec_clones(v@)),
{
    if all_eq_str(v, "-") || all_eq_str(v, "") {
        Some(None)
    } else {
        let pieces = crate::text::split_chars(v, ',');
        let mut out: Vec<String> = Vec::new();
        let mut i: usize = 0;
        while i < pieces.len()
            invariant
                i <= pieces@.len(),
                strings_view(out@) == views(pieces@).take(i as int),
            decreases pieces@.len() - i,
        {
            let ghost before = strings_view(out@);
            out.push(text_of(pieces[i].as_slice()));
            assert(strings_view(out@) =~= before.push(views(pieces@)[i as int]));
            assert(views(pieces@).take(i + 1) =~= views(pieces@).take(i as int).push(views(pieces@)[i as int]));
            i += 1;
        }
        assert(views(pieces@).take(pieces@.len() as int) =~= views(pieces@));
        Some(Some(out))
    }
}

/// A creation time.
fn creation_field(v: &[char]) -> (r: Option<i64>)
    ensures
        r == spec_creation(v@),
{
    match parse_i64(v) {
        Some(n) => Some(n),
        None => {
            let s = text_of(v);
            parse_naive_timestamp(s.as_str(), DATE_FORMAT)
        },
    }
}

/// Whether a creation time reads.
fn creation_ok(v: &[char]) -> (r: bool)
    ensures
        r == spec_creation(v@) is Some,
{
    creation_field(v).is_some()
}

/// What the last value of the property `k` reads as, as a flag.
pub open spec fn field_bool(ps: Seq<(Seq<char>, Seq<char>)>, k: Seq<char>) -> Option<bool> {
    match last_value(ps, k) {
        Some(v) => Some(spec_parse_bool(v)),
        None => None,
    }
}

/// What the last value of the property `k` reads as, as an `i64`.
pub open spec fn field_i64(ps: Seq<(Seq<char>, Seq<char>)>, k: Seq<char>) -> Option<i64> {
    match last_value(ps, k) {
        Some(v) => spec_parse_i64(v),
        None => None,
    }
}

/// What the last value of the property `k` reads as, as a `u64`.
pub open spec fn field_u64(ps: Seq<(Seq<char>, Seq<char>)>, k: Seq<char>) -> Option<u64> {
    match last_value(ps, k) {
        Some(v) => spec_parse_u64(v),
        None => None,
    }
}

/// The last value of the ratio `k`, without its `x`, when it reads as a number.
pub open spec fn field_ratio(ps: Seq<(Seq<char>, Seq<char>)>, k: Seq<char>) -> Option<Seq<char>> {
    match last_value(ps, k) {
        Some(v) => if is_float_literal(strip_last(v, 'x')) {
            Some(strip_last(v, 'x'))
        } else {
            None
        },
        None => None,
    }
}

/// What the last value of the count `k` reads as.
pub open spec fn field_opt_num(ps: Seq<(Seq<char>, Seq<char>)>, k: Seq<char>) -> Option<Option<u64>> {
    match last_value(ps, k) {
        Some(v) => spec_opt_num(v),
        None => None,
    }
}

/// What the last value of the mount point `k` reads as.
pub open spec fn field_mount(ps: Seq<(Seq<char>, Seq<char>)>, k: Seq<char>) -> Option<Option<Seq<char>>> {
    match last_value(ps, k) {
        Some(v) => Some(spec_mount_point(v)),
        None => None,
    }
}

/// What the last value of the label `k` reads as.
pub open spec fn field_mls(ps: Seq<(Seq<char>, Seq<char>)>, k: Seq<char>) -> Option<Option<Seq<char>>> {
    match last_value(ps, k) {
        Some(v) => Some(spec_mls_label(v)),
        None => None,
    }
}

/// The last value of the property `k`, as text.
pub open spec fn field_origin(ps: Seq<(Seq<char>, Seq<char>)>, k: Seq<char>) -> Option<Option<Seq<char>>> {
    match last_value(ps, k) {
        Some(v) => Some(Some(v)),
        None => None,
    }
}

/// What the last value of the list of clones `k` reads as.
pub open spec fn field_clones(ps: Seq<(Seq<char>, Seq<char>)>, k: Seq<char>) -> Option<Option<Seq<Seq<char>>>> {
    match last_value(ps, k) {
        Some(v) => Some(spec_clones(v)),
        None => None,
    }
}

/// What the last value of the creation time `k` reads as.
pub open spec fn field_creation(ps: Seq<(Seq<char>, Seq<char>)>, k: Seq<char>) -> Option<i64> {
    match last_value(ps, k) {
        Some(v) => spec_creation(v),
        None => None,
    }
}

fn get_bool(ps: &Vec<(Vec<char>, Vec<char>)>, key: &str) -> (r: Option<bool>)
    ensures
        r == field_bool(pairs_chars(ps@), key@),
{
    match last_value_of(ps, key) {
        Some(v) => bool_field(v.as_slice()),
        None => None,
    }
}

fn get_i64(ps: &Vec<(Vec<char>, Vec<char>)>, key: &str) -> (r: Option<i64>)
    ensures
        r == field_i64(pairs_chars(ps@), key@),
{
    match last_value_of(ps, key) {
        Some(v) => parse_i64(v.as_slice()),
        None => None,
    }
}

fn get_u64(ps: &Vec<(Vec<char>, Vec<char>)>, key: &str) -> (r: Option<u64>)
    ensures
        r == field_u64(pairs_chars(ps@), key@),
{
    match last_value_of(ps, key) {
        Some(v) => parse_u64(v.as_slice()),
        None => None,
    }
}

fn get_ratio(ps: &Vec<(Vec<char>, Vec<char>)>, key: &str) -> (r: Option<String>)
    ensures
        opt_view(r) == field_ratio(pairs_chars(ps@), key@),
{
    match last_value_of(ps, key) {
        Some(v) => ratio_field(v.as_slice()),
        None => None,
    }
}

fn get_opt_num(ps: &Vec<(Vec<char>, Vec<char>)>, key: &str) -> (r: Option<Option<u64>>)
    ensures
        r == field_opt_num(pairs_chars(ps@), key@),
{
    match last_value_of(ps, key) {
        Some(v) => opt_num(v.as_slice()),
        None => None,
    }
}

fn get_mount(ps: &Vec<(Vec<char>, Vec<char>)>, key: &str) -> (r: Option<Option<String>>)
    ensures
        opt_opt_view(r) == field_mount(pairs_chars(ps@), key@),
{
    match last_value_of(ps, key) {
        Some(v) => mount_field(v.as_slice()),
        None => None,
    }
}

fn get_mls(ps: &Vec<(Vec<char>, Vec<char>)>, key: &str) -> (r: Option<Option<String>>)
    ensures
        opt_opt_view(r) == field_mls(pairs_chars(ps@), key@),
{
    match last_value_of(ps, key) {
        Some(v) => mls_field(v.as_slice()),
        None => None,
    }
}

fn get_origin(ps: &Vec<(Vec<char>, Vec<char>)>, key: &str) -> (r: Option<Option<String>>)
    ensures
        opt_opt_view(r) == field_origin(pairs_chars(ps@), key@),
{
    match last_value_of(ps, key) {
        Some(v) => origin_field(v.as_slice()),
        None => None,
    }
}

fn get_clones(ps: &Vec<(Vec<char>, Vec<char>)>, key: &str) -> (r: Option<Option<Vec<String>>>)
    ensures
        opt_opt_strings_view(r) == field_clones(pairs_chars(ps@), key@),
{
    match last_value_of(ps, key) {
        Some(v) => clones_field(v.as_slice()),
        None => None,
    }
}

fn get_creation(ps: &Vec<(Vec<char>, Vec<char>)>, key: &str) -> (r: Option<i64>)
    ensures
        r == field_creation(pairs_chars(ps@), key@),
{
    match last_value_of(ps, key) {
        Some(v) => creation_field(v.as_slice()),
        None => None,
    }
}

/// What the last value of the property `k` reads as, as a `AclInheritMode`.
pub open spec fn field_enum_acl_inherit_mode(ps: Seq<(Seq<char>, Seq<char>)>, k: Seq<char>) -> Option<AclInheritMode> {
    match last_value(ps, k) {
        Some(v) => AclInheritMode::spec_from_name(v),
        None => None,
    }
}

/// What the last value of the property `key` reads as, as a `AclInheritMode`.
fn get_enum_acl_inherit_mode(ps: &Vec<(Vec<char>, Vec<char>)>, key: &str) -> (r: Option<AclInheritMode>)
    ensures
        r == field_enum_acl_inherit_mode(pairs_chars(ps@), key@),
{
    match last_value_of(ps, key) {
        Some(v) => AclInheritMode::from_chars(v.as_slice()),
        None => None,
    }
}

/// What the last value of the property `k` reads as, as a `AclMode`.
pub open spec fn field_enum_acl_mode(ps: Seq<(Seq<char>, Seq<char>)>, k: Seq<char>) -> Option<AclMode> {
    match last_value(ps, k) {
        Some(v) => AclMode::spec_from_name(v),
        None => None,
    }
}

/// What the last value of the property `key` reads as, as a `AclMode`.
fn get_enum_acl_mode(ps: &Vec<(Vec<char>, Vec<char>)>, key: &str) -> (r: Option<AclMode>)
    ensures
        r == field_enum_acl_mode(pairs_chars(ps@), key@),
{
    match last_value_of(ps, key) {
        Some(v) => AclMode::from_chars(v.as_slice()),
        None => None,
    }
}

/// What the last value of the property `k` reads as, as a `CacheMode`.
pub open spec fn field_enum_cache_mode(ps: Seq<(Seq<char>, Seq<char>)>, k: Seq<char>) -> Option<CacheMode> {
    match last_value(ps, k) {
        Some(v) => CacheMode::spec_from_name(v),
        None => None,
    }
}

/// What the last value of the property `key` reads as, as a `CacheMode`.
fn get_enum_cache_mode(ps: &Vec<(Vec<char>, Vec<char>)>, key: &str) -> (r: Option<CacheMode>)
    ensures
        r == field_enum_cache_mode(pairs_chars(ps@), key@),
{
    match last_value_of(ps, key) {
        Some(v) => CacheMode::from_chars(v.as_slice()),
        None => None,
    }
}

/// What the last value of the property `k` reads as, as a `CanMount`.
pub open spec fn field_enum_can_mount(ps: Seq<(Seq<char>, Seq<char>)>, k: Seq<char>) -> Option<CanMount> {
    match last_value(ps, k) {
        Some(v) => CanMount::spec_from_name(v),
        None => None,
    }
}

/// What the last value of the property `key` reads as, as a `CanMount`.
fn get_enum_can_mount(ps: &Vec<(Vec<char>, Vec<char>)>, key: &str) -> (r: Option<CanMount>)
    ensures
        r == field_enum_can_mount(pairs_chars(ps@), key@),
{
    match last_value_of(ps, key) {
        Some(v) => CanMount::from_chars(v.as_slice()),
        None => None,
    }
}

/// What the last value of the property `k` reads as, as a `CaseSensitivity`.
pub open spec fn field_enum_case_sensitivity(ps: Seq<(Seq<char>, Seq<char>)>, k: Seq<char>) -> Option<CaseSensitivity> {
    match last_value(ps, k) {
        Some(v) => CaseSensitivity::spec_from_name(v),
        None => None,
    }
}

/// What the last value of the property `key` reads as, as a `CaseSensitivity`.
fn get_enum_case_sensitivity(ps: &Vec<(Vec<char>, Vec<char>)>, key: &str) -> (r: Option<CaseSensitivity>)
    ensures
        r == field_enum_case_sensitivity(pairs_chars(ps@), key@),
{
    match last_value_of(ps, key) {
        Some(v) => CaseSensitivity::from_chars(v.as_slice()),
        None => None,
    }
}

/// What the last value of the property `k` reads as, as a `Checksum`.
pub open spec fn field_enum_checksum(ps: Seq<(Seq<char>, Seq<char>)>, k: Seq<char>) -> Option<Checksum> {
    match last_value(ps, k) {
        Some(v) => Checksum::spec_from_name(v),
        None => None,
    }
}

/// What the last value of the property `key` reads as, as a `Checksum`.
fn get_enum_checksum(ps: &Vec<(Vec<char>, Vec<char>)>, key: &str) -> (r: Option<Checksum>)
    ensures
        r == field_enum_checksum(pairs_chars(ps@), key@),
{
    match last_value_of(ps, key) {
        Some(v) => Checksum::from_chars(v.as_slice()),
        None => None,
    }
}

/// What the last value of the property `k` reads as, as a `Compression`.
pub open spec fn field_enum_compression(ps: Seq<(Seq<char>, Seq<char>)>, k: Seq<char>) -> Option<Compression> {
    match last_value(ps, k) {
        Some(v) => Compression::spec_from_name(v),
        None => None,
    }
}

/// What the last value of the property `key` reads as, as a `Compression`.
fn get_enum_compression(ps: &Vec<(Vec<char>, Vec<char>)>, key: &str) -> (r: Option<Compression>)
    ensures
        r == field_enum_compression(pairs_chars(ps@), key@),
{
    match last_value_of(ps, key) {
        Some(v) => Compression::from_chars(v.as_slice()),
        None => None,
    }
}

/// What the last value of the property `k` reads as, as a `Copies`.
pub open spec fn field_enum_copies(ps: Seq<(Seq<char>, Seq<char>)>, k: Seq<char>) -> Option<Copies> {
    match last_value(ps, k) {
        Some(v) => Copies::spec_from_name(v),
        None => None,
    }
}

/// What the last value of the property `key` reads as, as a `Copies`.
fn get_enum_copies(ps: &Vec<(Vec<char>, Vec<char>)>, key: &str) -> (r: Option<Copies>)
    ensures
        r == field_enum_copies(pairs_chars(ps@), key@),
{
    match last_value_of(ps, key) {
        Some(v) => Copies::from_chars(v.as_slice()),
        None => None,
    }
}

/// What the last value of the property `k` reads as, as a `Dedup`.
pub open spec fn field_enum_dedup(ps: Seq<(Seq<char>, Seq<char>)>, k: Seq<char>) -> Option<Dedup> {
    match last_value(ps, k) {
        Some(v) => Dedup::spec_from_name(v),
        None => None,
    }
}

/// What the last value of the property `key` reads as, as a `Dedup`.
fn get_enum_dedup(ps: &Vec<(Vec<char>, Vec<char>)>, key: &str) -> (r: Option<Dedup>)
    ensures
        r == field_enum_dedup(pairs_chars(ps@), key@),
{
    match last_value_of(ps, key) {
        Some(v) => Dedup::from_chars(v.as_slice()),
        None => None,
    }
}

/// What the last value of the property `k` reads as, as a `DnodeSize`.
pub open spec fn field_enum_dnode_size(ps: Seq<(Seq<char>, Seq<char>)>, k: Seq<char>) -> Option<DnodeSize> {
    match last_value(ps, k) {
        Some(v) => DnodeSize::spec_from_name(v),
        None => None,
    }
}

/// What the last value of the property `key` reads as, as a `DnodeSize`.
fn get_enum_dnode_size(ps: &Vec<(Vec<char>, Vec<char>)>, key: &str) -> (r: Option<DnodeSize>)
    ensures
        r == field_enum_dnode_size(pairs_chars(ps@), key@),
{
    match last_value_of(ps, key) {
        Some(v) => DnodeSize::from_chars(v.as_slice()),
        None => None,
    }
}

/// What the last value of the property `k` reads as, as a `LogBias`.
pub open spec fn field_enum_log_bias(ps: Seq<(Seq<char>, Seq<char>)>, k: Seq<char>) -> Option<LogBias> {
    match last_value(ps, k) {
        Some(v) => LogBias::spec_from_name(v),
        None => None,
    }
}

/// What the last value of the property `key` reads as, as a `LogBias`.
fn get_enum_log_bias(ps: &Vec<(Vec<char>, Vec<char>)>, key: &str) -> (r: Option<LogBias>)
    ensures
        r == field_enum_log_bias(pairs_chars(ps@), key@),
{
    match last_value_of(ps, key) {
        Some(v) => LogBias::from_chars(v.as_slice()),
        None => None,
    }
}

/// What the last value of the property `k` reads as, as a `Normalization`.
pub open spec fn field_enum_normalization(ps: Seq<(Seq<char>, Seq<char>)>, k: Seq<char>) -> Option<Normalization> {
    match last_value(ps, k) {
        Some(v) => Normalization::spec_from_name(v),
        None => None,
    }
}

/// What the last value of the property `key` reads as, as a `Normalization`.
fn get_enum_normalization(ps: &Vec<(Vec<char>, Vec<char>)>, key: &str) -> (r: Option<Normalization>)
    ensures
        r == field_enum_normalization(pairs_chars(ps@), key@),
{
    match last_value_of(ps, key) {
        Some(v) => Normalization::from_chars(v.as_slice()),
        None => None,
    }
}

/// What the last value of the property `k` reads as, as a `RedundantMetadata`.
pub open spec fn field_enum_redundant_metadata(ps: Seq<(Seq<char>, Seq<char>)>, k: Seq<char>) -> Option<RedundantMetadata> {
    match last_value(ps, k) {
        Some(v) => RedundantMetadata::spec_from_name(v),
        None => None,
    }
}

/// What the last value of the property `key` reads as, as a `RedundantMetadata`.
fn get_enum_redundant_metadata(ps: &Vec<(Vec<char>, Vec<char>)>, key: &str) -> (r: Option<RedundantMetadata>)
    ensures
        r == field_enum_redundant_metadata(pairs_chars(ps@), key@),
{
    match last_value_of(ps, key) {
        Some(v) => RedundantMetadata::from_chars(v.as_slice()),
        None => None,
    }
}

/// What the last value of the property `k` reads as, as a `SnapDir`.
pub open spec fn field_enum_snap_dir(ps: Seq<(Seq<char>, Seq<char>)>, k: Seq<char>) -> Option<SnapDir> {
    match last_value(ps, k) {
        Some(v) => SnapDir::spec_from_name(v),
        None => None,
    }
}

/// What the last value of the property `key` reads as, as a `SnapDir`.
fn get_enum_snap_dir(ps: &Vec<(Vec<char>, Vec<char>)>, key: &str) -> (r: Option<SnapDir>)
    ensures
        r == field_enum_snap_dir(pairs_chars(ps@), key@),
{
    match last_value_of(ps, key) {
        Some(v) => SnapDir::from_chars(v.as_slice()),
        None => None,
    }
}

/// What the last value of the property `k` reads as, as a `SyncMode`.
pub open spec fn field_enum_sync_mode(ps: Seq<(Seq<char>, Seq<char>)>, k: Seq<char>) -> Option<SyncMode> {
    match last_value(ps, k) {
        Some(v) => SyncMode::spec_from_name(v),
        None => None,
    }
}

/// What the last value of the property `key` reads as, as a `SyncMode`.
fn get_enum_sync_mode(ps: &Vec<(Vec<char>, Vec<char>)>, key: &str) -> (r: Option<SyncMode>)
    ensures
        r == field_enum_sync_mode(pairs_chars(ps@), key@),
{
    match last_value_of(ps, key) {
        Some(v) => SyncMode::from_chars(v.as_slice()),
        None => None,
    }
}

/// What the last value of the property `k` reads as, as a `VolumeMode`.
pub open spec fn field_enum_volume_mode(ps: Seq<(Seq<char>, Seq<char>)>, k: Seq<char>) -> Option<VolumeMode> {
    match last_value(ps, k) {
        Some(v) => VolumeMode::spec_from_name(v),
        None => None,
    }
}

/// What the last value of the property `key` reads as, as a `VolumeMode`.
fn get_enum_volume_mode(ps: &Vec<(Vec<char>, Vec<char>)>, key: &str) -> (r: Option<VolumeMode>)
    ensures
        r == field_enum_volume_mode(pairs_chars(ps@), key@),
{
    match last_value_of(ps, key) {
        Some(v) => VolumeMode::from_chars(v.as_slice()),
        None => None,
    }
}


/// Whether `k` is a property that a filesystem has a field for (`type` included).
pub open spec fn filesystem_known(k: Seq<char>) -> bool {
    k == "aclinherit"@ || k == "aclmode"@ || k == "atime"@ || k == "available"@ || k == "canmount"@ || k == "casesensitivity"@ || k == "checksum"@ || k == "compression"@ || k == "compressratio"@ || k == "copies"@ || k == "createtxg"@ || k == "creation"@ || k == "dedup"@ || k == "devices"@ || k == "dnodesize"@ || k == "exec"@ || k == "filesystem_count"@ || k == "filesystem_limit"@ || k == "guid"@ || k == "jailed"@ || k == "logbias"@ || k == "logicalreferenced"@ || k == "logicalused"@ || k == "mlslabel"@ || k == "mounted"@ || k == "mountpoint"@ || k == "nbmand"@ || k == "normalization"@ || k == "origin"@ || k == "primarycache"@ || k == "quota"@ || k == "readonly"@ || k == "recordsize"@ || k == "redundant_metadata"@ || k == "refcompressratio"@ || k == "referenced"@ || k == "refquota"@ || k == "refreservation"@ || k == "reservation"@ || k == "secondarycache"@ || k == "setuid"@ || k == "snapdir"@ || k == "snapshot_count"@ || k == "snapshot_limit"@ || k == "sync"@ || k == "used"@ || k == "usedbychildren"@ || k == "usedbydataset"@ || k == "usedbyrefreservation"@ || k == "usedbysnapshots"@ || k == "utf8only"@ || k == "version"@ || k == "volmode"@ || k == "vscan"@ || k == "written"@ || k == "xattr"@ || k == "type"@
}

/// Whether `v` reads as a value of the property `k` of a filesystem.
pub open spec fn filesystem_value_ok(k: Seq<char>, v: Seq<char>) -> bool {
    if k == "aclinherit"@ {
        AclInheritMode::spec_from_name(v) is Some
    } else if k == "aclmode"@ {
        AclMode::spec_from_name(v) is Some
    } else if k == "available"@ {
        spec_parse_i64(v) is Some
    } else if k == "canmount"@ {
        CanMount::spec_from_name(v) is Some
    } else if k == "casesensitivity"@ {
        CaseSensitivity::spec_from_name(v) is Some
    } else if k == "checksum"@ {
        Checksum::spec_from_name(v) is Some
    } else if k == "compression"@ {
        Compression::spec_from_name(v) is Some
    } else if k == "compressratio"@ {
        is_float_literal(strip_last(v, 'x'))
    } else if k == "copies"@ {
        Copies::spec_from_name(v) is Some
    } else if k == "createtxg"@ {
        spec_parse_u64(v) is Some
    } else if k == "creation"@ {
        spec_parse_i64(v) is Some
    } else if k == "dedup"@ {
        Dedup::spec_from_name(v) is Some
    } else if k == "dnodesize"@ {
        DnodeSize::spec_from_name(v) is Some
    } else if k == "filesystem_count"@ {
        spec_opt_num(v) is Some
    } else if k == "filesystem_limit"@ {
        spec_opt_num(v) is Some
    } else if k == "guid"@ {
        spec_parse_u64(v) is Some
    } else if k == "logbias"@ {
        LogBias::spec_from_name(v) is Some
    } else if k == "logicalreferenced"@ {
        spec_parse_u64(v) is Some
    } else if k == "logicalused"@ {
        spec_parse_u64(v) is Some
    } else if k == "normalization"@ {
        Normalization::spec_from_name(v) is Some
    } else if k == "primarycache"@ {
        CacheMode::spec_from_name(v) is Some
    } else if k == "quota"@ {
        spec_parse_u64(v) is Some
    } else if k == "recordsize"@ {
        spec_parse_u64(v) is Some
    } else if k == "redundant_metadata"@ {
        RedundantMetadata::spec_from_name(v) is Some
    } else if k == "refcompressratio"@ {
        is_float_literal(strip_last(v, 'x'))
    } else if k == "referenced"@ {
        spec_parse_u64(v) is Some
    } else if k == "refquota"@ {
        spec_parse_u64(v) is Some
    } else if k == "refreservation"@ {
        spec_parse_u64(v) is Some
    } else if k == "reservation"@ {
        spec_parse_u64(v) is Some
    } else if k == "secondarycache"@ {
        CacheMode::spec_from_name(v) is Some
    } else if k == "snapdir"@ {
        SnapDir::spec_from_name(v) is Some
    } else if k == "snapshot_count"@ {
        spec_opt_num(v) is Some
    } else if k == "snapshot_limit"@ {
        spec_opt_num(v) is Some
    } else if k == "sync"@ {
        SyncMode::spec_from_name(v) is Some
    } else if k == "used"@ {
        spec_parse_u64(v) is Some
    } else if k == "usedbychildren"@ {
        spec_parse_u64(v) is Some
    } else if k == "usedbydataset"@ {
        spec_parse_u64(v) is Some
    } else if k == "usedbyrefreservation"@ {
        spec_parse_u64(v) is Some
    } else if k == "usedbysnapshots"@ {
        spec_parse_u64(v) is Some
    } else if k == "version"@ {
        spec_parse_u64(v) is Some
    } else if k == "volmode"@ {
        VolumeMode::spec_from_name(v) is Some
    } else if k == "written"@ {
        spec_parse_u64(v) is Some
    } else {
        true
    }
}

/// Whether every value of a known property of a filesystem reads.
pub open spec fn filesystem_all_ok(ps: Seq<(Seq<char>, Seq<char>)>) -> bool {
    forall|j: int| 0 <= j < ps.len() ==> #[trigger] filesystem_value_ok(ps[j].0, ps[j].1)
}

/// Whether every property that a filesystem cannot do without is there and reads.
pub open spec fn filesystem_required_ok(ps: Seq<(Seq<char>, Seq<char>)>) -> bool {
    field_enum_acl_inherit_mode(ps, "aclinherit"@) is Some
    && field_bool(ps, "atime"@) is Some
    && field_i64(ps, "available"@) is Some
    && field_enum_can_mount(ps, "canmount"@) is Some
    && field_enum_case_sensitivity(ps, "casesensitivity"@) is Some
    && field_enum_checksum(ps, "checksum"@) is Some
    && field_enum_compression(ps, "compression"@) is Some
    && field_ratio(ps, "compressratio"@) is Some
    && field_enum_copies(ps, "copies"@) is Some
    && field_i64(ps, "creation"@) is Some
    && field_enum_dedup(ps, "dedup"@) is Some
    && field_bool(ps, "devices"@) is Some
    && field_enum_dnode_size(ps, "dnodesize"@) is Some
    && field_bool(ps, "exec"@) is Some
    && field_enum_log_bias(ps, "logbias"@) is Some
    && field_u64(ps, "logicalreferenced"@) is Some
    && field_u64(ps, "logicalused"@) is Some
    && field_bool(ps, "mounted"@) is Some
    && field_bool(ps, "nbmand"@) is Some
    && field_enum_normalization(ps, "normalization"@) is Some
    && field_enum_cache_mode(ps, "primarycache"@) is Some
    && field_u64(ps, "quota"@) is Some
    && field_bool(ps, "readonly"@) is Some
    && field_u64(ps, "recordsize"@) is Some
    && field_enum_redundant_metadata(ps, "redundant_metadata"@) is Some
    && field_ratio(ps, "refcompressratio"@) is Some
    && field_u64(ps, "referenced"@) is Some
    && field_u64(ps, "refquota"@) is Some
    && field_u64(ps, "refreservation"@) is Some
    && field_u64(ps, "reservation"@) is Some
    && field_enum_cache_mode(ps, "secondarycache"@) is Some
    && field_bool(ps, "setuid"@) is Some
    && field_enum_snap_dir(ps, "snapdir"@) is Some
    && field_enum_sync_mode(ps, "sync"@) is Some
    && field_u64(ps, "used"@) is Some
    && field_u64(ps, "usedbychildren"@) is Some
    && field_u64(ps, "usedbydataset"@) is Some
    && field_u64(ps, "usedbyrefreservation"@) is Some
    && field_u64(ps, "usedbysnapshots"@) is Some
    && field_u64(ps, "version"@) is Some
    && field_bool(ps, "vscan"@) is Some
    && field_u64(ps, "written"@) is Some
    && field_bool(ps, "xattr"@) is Some
}

/// The properties that a filesystem has no field for, later values winning.
pub open spec fn filesystem_unknown_map(ps: Seq<(Seq<char>, Seq<char>)>) -> Map<Seq<char>, Seq<char>>
    decreases ps.len(),
{
    if ps.len() == 0 {
        Map::empty()
    } else if filesystem_known(ps.last().0) {
        filesystem_unknown_map(ps.drop_last())
    } else {
        filesystem_unknown_map(ps.drop_last()).insert(ps.last().0, ps.last().1)
    }
}

/// The properties of the filesystem `name` that the pairs `ps` give, the last value
/// of each property counting.
pub open spec fn filesystem_view(name: Seq<char>, ps: Seq<(Seq<char>, Seq<char>)>) -> FilesystemPropertiesView {
    FilesystemPropertiesView {
        name,
        acl_inherit: field_enum_acl_inherit_mode(ps, "aclinherit"@)->0,
        acl_mode: field_enum_acl_mode(ps, "aclmode"@),
        atime: field_bool(ps, "atime"@)->0,
        available: field_i64(ps, "available"@)->0,
        can_mount: field_enum_can_mount(ps, "canmount"@)->0,
        case_sensitivity: field_enum_case_sensitivity(ps, "casesensitivity"@)->0,
        checksum: field_enum_checksum(ps, "checksum"@)->0,
        compression: field_enum_compression(ps, "compression"@)->0,
        compression_ratio: field_ratio(ps, "compressratio"@)->0,
        copies: field_enum_copies(ps, "copies"@)->0,
        create_txg: field_u64(ps, "createtxg"@),
        creation: field_i64(ps, "creation"@)->0,
        dedup: field_enum_dedup(ps, "dedup"@)->0,
        devices: field_bool(ps, "devices"@)->0,
        dnode_size: field_enum_dnode_size(ps, "dnodesize"@)->0,
        executable: field_bool(ps, "exec"@)->0,
        filesystem_count: match field_opt_num(ps, "filesystem_count"@) { Some(x) => x, None => None },
        filesystem_limit: match field_opt_num(ps, "filesystem_limit"@) { Some(x) => x, None => None },
        guid: field_u64(ps, "guid"@),
        jailed: field_bool(ps, "jailed"@),
        log_bias: field_enum_log_bias(ps, "logbias"@)->0,
        logical_referenced: field_u64(ps, "logicalreferenced"@)->0,
        logical_used: field_u64(ps, "logicalused"@)->0,
        mls_label: match field_mls(ps, "mlslabel"@) { Some(x) => x, None => None },
        mounted: field_bool(ps, "mounted"@)->0,
        mount_point: match field_mount(ps, "mountpoint"@) { Some(x) => x, None => None },
        nbmand: field_bool(ps, "nbmand"@)->0,
        normalization: field_enum_normalization(ps, "normalization"@)->0,
        origin: match field_origin(ps, "origin"@) { Some(x) => x, None => None },
        primary_cache: field_enum_cache_mode(ps, "primarycache"@)->0,
        quota: field_u64(ps, "quota"@)->0,
        readonly: field_bool(ps, "readonly"@)->0,
        record_size: field_u64(ps, "recordsize"@)->0,
        redundant_metadata: field_enum_redundant_metadata(ps, "redundant_metadata"@)->0,
        ref_compression_ratio: field_ratio(ps, "refcompressratio"@)->0,
        referenced: field_u64(ps, "referenced"@)->0,
        ref_quota: field_u64(ps, "refquota"@)->0,
        ref_reservation: field_u64(ps, "refreservation"@)->0,
        reservation: field_u64(ps, "reservation"@)->0,
        secondary_cache: field_enum_cache_mode(ps, "secondarycache"@)->0,
        setuid: field_bool(ps, "setuid"@)->0,
        snap_dir: field_enum_snap_dir(ps, "snapdir"@)->0,
        snapshot_count: match field_opt_num(ps, "snapshot_count"@) { Some(x) => x, None => None },
        snapshot_limit: match field_opt_num(ps, "snapshot_limit"@) { Some(x) => x, None => None },
        sync: field_enum_sync_mode(ps, "sync"@)->0,
        used: field_u64(ps, "used"@)->0,
        used_by_children: field_u64(ps, "usedbychildren"@)->0,
        used_by_dataset: field_u64(ps, "usedbydataset"@)->0,
        used_by_ref_reservation: field_u64(ps, "usedbyrefreservation"@)->0,
        used_by_snapshots: field_u64(ps, "usedbysnapshots"@)->0,
        utf8_only: field_bool(ps, "utf8only"@),
        version: field_u64(ps, "version"@)->0,
        volume_mode: field_enum_volume_mode(ps, "volmode"@),
        vscan: field_bool(ps, "vscan"@)->0,
        written: field_u64(ps, "written"@)->0,
        xattr: field_bool(ps, "xattr"@)->0,
        unknown_properties: filesystem_unknown_map(ps),
    }
}

/// The properties of the filesystem `name` that the `key`/`value` pairs `ps` give: the last value of
/// each property counts; `None` when a value of a known property does not read, or a property
/// that is not optional is missing. The other properties are kept as text.
pub open spec fn spec_filesystem(name: Seq<char>, ps: Seq<(Seq<char>, Seq<char>)>) -> Option<FilesystemPropertiesView> {
    if filesystem_all_ok(ps) && filesystem_required_ok(ps) {
        Some(filesystem_view(name, ps))
    } else {
        None
    }
}

/// Whether `v` reads as a value of the property `k` of a filesystem.
fn filesystem_value_is_ok(k: &[char], v: &[char]) -> (r: bool)
    ensures
        r == filesystem_value_ok(k@, v@),
{
    if all_eq_str(k, "aclinherit") {
        AclInheritMode::from_chars(v).is_some()
    } else if all_eq_str(k, "aclmode") {
        AclMode::from_chars(v).is_some()
    } else if all_eq_str(k, "available") {
        parse_i64(v).is_some()
    } else if all_eq_str(k, "canmount") {
        CanMount::from_chars(v).is_some()
    } else if all_eq_str(k, "casesensitivity") {
        CaseSensitivity::from_chars(v).is_some()
    } else if all_eq_str(k, "checksum") {
        Checksum::from_chars(v).is_some()
    } else if all_eq_str(k, "compression") {
        Compression::from_chars(v).is_some()
    } else if all_eq_str(k, "compressratio") {
        ratio_ok(v)
    } else if all_eq_str(k, "copies") {
        Copies::from_chars(v).is_some()
    } else if all_eq_str(k, "createtxg") {
        parse_u64(v).is_some()
    } else if all_eq_str(k, "creation") {
        parse_i64(v).is_some()
    } else if all_eq_str(k, "dedup") {
        Dedup::from_chars(v).is_some()
    } else if all_eq_str(k, "dnodesize") {
        DnodeSize::from_chars(v).is_some()
    } else if all_eq_str(k, "filesystem_count") {
        opt_num(v).is_some()
    } else if all_eq_str(k, "filesystem_limit") {
        opt_num(v).is_some()
    } else if all_eq_str(k, "guid") {
        parse_u64(v).is_some()
    } else if all_eq_str(k, "logbias") {
        LogBias::from_chars(v).is_some()
    } else if all_eq_str(k, "logicalreferenced") {
        parse_u64(v).is_some()
    } else if all_eq_str(k, "logicalused") {
        parse_u64(v).is_some()
    } else if all_eq_str(k, "normalization") {
        Normalization::from_chars(v).is_some()
    } else if all_eq_str(k, "primarycache") {
        CacheMode::from_chars(v).is_some()
    } else if all_eq_str(k, "quota") {
        parse_u64(v).is_some()
    } else if all_eq_str(k, "recordsize") {
        parse_u64(v).is_some()
    } else if all_eq_str(k, "redundant_metadata") {
        RedundantMetadata::from_chars(v).is_some()
    } else if all_eq_str(k, "refcompressratio") {
        ratio_ok(v)
    } else if all_eq_str(k, "referenced") {
        parse_u64(v).is_some()
    } else if all_eq_str(k, "refquota") {
        parse_u64(v).is_some()
    } else if all_eq_str(k, "refreservation") {
        parse_u64(v).is_some()
    } else if all_eq_str(k, "reservation") {
        parse_u64(v).is_some()
    } else if all_eq_str(k, "secondarycache") {
        CacheMode::from_chars(v).is_some()
    } else if all_eq_str(k, "snapdir") {
        SnapDir::from_chars(v).is_some()
    } else if all_eq_str(k, "snapshot_count") {
        opt_num(v).is_some()
    } else if all_eq_str(k, "snapshot_limit") {
        opt_num(v).is_some()
    } else if all_eq_str(k, "sync") {
        SyncMode::from_chars(v).is_some()
    } else if all_eq_str(k, "used") {
        parse_u64(v).is_some()
    } else if all_eq_str(k, "usedbychildren") {
        parse_u64(v).is_some()
    } else if all_eq_str(k, "usedbydataset") {
        parse_u64(v).is_some()
    } else if all_eq_str(k, "usedbyrefreservation") {
        parse_u64(v).is_some()
    } else if all_eq_str(k, "usedbysnapshots") {
        parse_u64(v).is_some()
    } else if all_eq_str(k, "version") {
        parse_u64(v).is_some()
    } else if all_eq_str(k, "volmode") {
        VolumeMode::from_chars(v).is_some()
    } else if all_eq_str(k, "written") {
        parse_u64(v).is_some()
    } else {
        true
    }
}

/// Whether `k` is a property that a filesystem has a field for.
fn filesystem_is_known(k: &[char]) -> (r: bool)
    ensures
        r == filesystem_known(k@),
{
    all_eq_str(k, "aclinherit") || all_eq_str(k, "aclmode") || all_eq_str(k, "atime") || all_eq_str(k, "available") || all_eq_str(k, "canmount") || all_eq_str(k, "casesensitivity") || all_eq_str(k, "checksum") || all_eq_str(k, "compression") || all_eq_str(k, "compressratio") || all_eq_str(k, "copies") || all_eq_str(k, "createtxg") || all_eq_str(k, "creation") || all_eq_str(k, "dedup") || all_eq_str(k, "devices") || all_eq_str(k, "dnodesize") || all_eq_str(k, "exec") || all_eq_str(k, "filesystem_count") || all_eq_str(k, "filesystem_limit") || all_eq_str(k, "guid") || all_eq_str(k, "jailed") || all_eq_str(k, "logbias") || all_eq_str(k, "logicalreferenced") || all_eq_str(k, "logicalused") || all_eq_str(k, "mlslabel") || all_eq_str(k, "mounted") || all_eq_str(k, "mountpoint") || all_eq_str(k, "nbmand") || all_eq_str(k, "normalization") || all_eq_str(k, "origin") || all_eq_str(k, "primarycache") || all_eq_str(k, "quota") || all_eq_str(k, "readonly") || all_eq_str(k, "recordsize") || all_eq_str(k, "redundant_metadata") || all_eq_str(k, "refcompressratio") || all_eq_str(k, "referenced") || all_eq_str(k, "refquota") || all_eq_str(k, "refreservation") || all_eq_str(k, "reservation") || all_eq_str(k, "secondarycache") || all_eq_str(k, "setuid") || all_eq_str(k, "snapdir") || all_eq_str(k, "snapshot_count") || all_eq_str(k, "snapshot_limit") || all_eq_str(k, "sync") || all_eq_str(k, "used") || all_eq_str(k, "usedbychildren") || all_eq_str(k, "usedbydataset") || all_eq_str(k, "usedbyrefreservation") || all_eq_str(k, "usedbysnapshots") || all_eq_str(k, "utf8only") || all_eq_str(k, "version") || all_eq_str(k, "volmode") || all_eq_str(k, "vscan") || all_eq_str(k, "written") || all_eq_str(k, "xattr") || all_eq_str(k, "type")
}

/// Whether every value of a known property of a filesystem reads.
fn filesystem_values_read(ps: &Vec<(Vec<char>, Vec<char>)>) -> (r: bool)
    ensures
        r == filesystem_all_ok(pairs_chars(ps@)),
{
    let ghost pv = pairs_chars(ps@);
    let mut i: usize = 0;
    while i < ps.len()
        invariant
            i <= ps@.len(),
            pv == pairs_chars(ps@),
            forall|j: int| 0 <= j < i ==> #[trigger] filesystem_value_ok(pv[j].0, pv[j].1),
        decreases ps@.len() - i,
    {
        if !filesystem_value_is_ok(ps[i].0.as_slice(), ps[i].1.as_slice()) {
            assert(!filesystem_value_ok(pv[i as int].0, pv[i as int].1));
            return false;
        }
        i += 1;
    }
    true
}

/// Whether every property that a filesystem cannot do without is there and reads.
fn filesystem_required_present(ps: &Vec<(Vec<char>, Vec<char>)>) -> (r: bool)
    ensures
        r == filesystem_required_ok(pairs_chars(ps@)),
{
    get_enum_acl_inherit_mode(ps, "aclinherit").is_some()
        && get_bool(ps, "atime").is_some()
        && get_i64(ps, "available").is_some()
        && get_enum_can_mount(ps, "canmount").is_some()
        && get_enum_case_sensitivity(ps, "casesensitivity").is_some()
        && get_enum_checksum(ps, "checksum").is_some()
        && get_enum_compression(ps, "compression").is_some()
        && get_ratio(ps, "compressratio").is_some()
        && get_enum_copies(ps, "copies").is_some()
        && get_i64(ps, "creation").is_some()
        && get_enum_dedup(ps, "dedup").is_some()
        && get_bool(ps, "devices").is_some()
        && get_enum_dnode_size(ps, "dnodesize").is_some()
        && get_bool(ps, "exec").is_some()
        && get_enum_log_bias(ps, "logbias").is_some()
        && get_u64(ps, "logicalreferenced").is_some()
        && get_u64(ps, "logicalused").is_some()
        && get_bool(ps, "mounted").is_some()
        && get_bool(ps, "nbmand").is_some()
        && get_enum_normalization(ps, "normalization").is_some()
        && get_enum_cache_mode(ps, "primarycache").is_some()
        && get_u64(ps, "quota").is_some()
        && get_bool(ps, "readonly").is_some()
        && get_u64(ps, "recordsize").is_some()
        && get_enum_redundant_metadata(ps, "redundant_metadata").is_some()
        && get_ratio(ps, "refcompressratio").is_some()
        && get_u64(ps, "referenced").is_some()
        && get_u64(ps, "refquota").is_some()
        && get_u64(ps, "refreservation").is_some()
        && get_u64(ps, "reservation").is_some()
        && get_enum_cache_mode(ps, "secondarycache").is_some()
        && get_bool(ps, "setuid").is_some()
        && get_enum_snap_dir(ps, "snapdir").is_some()
        && get_enum_sync_mode(ps, "sync").is_some()
        && get_u64(ps, "used").is_some()
        && get_u64(ps, "usedbychildren").is_some()
        && get_u64(ps, "usedbydataset").is_some()
        && get_u64(ps, "usedbyrefreservation").is_some()
        && get_u64(ps, "usedbysnapshots").is_some()
        && get_u64(ps, "version").is_some()
        && get_bool(ps, "vscan").is_some()
        && get_u64(ps, "written").is_some()
        && get_bool(ps, "xattr").is_some()
}

/// The properties that a filesystem has no field for, later values winning.
fn filesystem_unknown(ps: &Vec<(Vec<char>, Vec<char>)>) -> (m: StringMap)
    ensures
        m.spec_map() == filesystem_unknown_map(pairs_chars(ps@)),
{
    let ghost pv = pairs_chars(ps@);
    let mut m = StringMap::new();
    assert(pv.take(0) =~= Seq::<(Seq<char>, Seq<char>)>::empty());
    assert(m.spec_map() =~= Map::<Seq<char>, Seq<char>>::empty());
    let mut i: usize = 0;
    while i < ps.len()
        invariant
            i <= ps@.len(),
            pv == pairs_chars(ps@),
            m.spec_map() == filesystem_unknown_map(pv.take(i as int)),
        decreases ps@.len() - i,
    {
        assert(pv.take(i + 1).drop_last() =~= pv.take(i as int));
        assert(pv.take(i + 1).last() == pv[i as int]);
        if !filesystem_is_known(ps[i].0.as_slice()) {
            m.insert(text_of(ps[i].0.as_slice()), text_of(ps[i].1.as_slice()));
        }
        i += 1;
    }
    assert(pv.take(ps@.len() as int) =~= pv);
    m
}

/// The properties of the filesystem `name` that the pairs `ps` give.
#[verifier::rlimit(50)]
fn filesystem_build(name: &str, ps: &Vec<(Vec<char>, Vec<char>)>) -> (r: FilesystemProperties)
    requires
        filesystem_required_ok(pairs_chars(ps@)),
    ensures
        r@ == filesystem_view(name@, pairs_chars(ps@)),
{
    let acl_inherit = get_enum_acl_inherit_mode(ps, "aclinherit").unwrap();
    let acl_mode = get_enum_acl_mode(ps, "aclmode");
    let atime = get_bool(ps, "atime").unwrap();
    let available = get_i64(ps, "available").unwrap();
    let can_mount = get_enum_can_mount(ps, "canmount").unwrap();
    let case_sensitivity = get_enum_case_sensitivity(ps, "casesensitivity").unwrap();
    let checksum = get_enum_checksum(ps, "checksum").unwrap();
    let compression = get_enum_compression(ps, "compression").unwrap();
    let compression_ratio = get_ratio(ps, "compressratio").unwrap();
    let copies = get_enum_copies(ps, "copies").unwrap();
    let create_txg = get_u64(ps, "createtxg");
    let creation = get_i64(ps, "creation").unwrap();
    let dedup = get_enum_dedup(ps, "dedup").unwrap();
    let devices = get_bool(ps, "devices").unwrap();
    let dnode_size = get_enum_dnode_size(ps, "dnodesize").unwrap();
    let executable = get_bool(ps, "exec").unwrap();
    let filesystem_count = match get_opt_num(ps, "filesystem_count") {
        Some(x) => x,
        None => None,
    };
    let filesystem_limit = match get_opt_num(ps, "filesystem_limit") {
        Some(x) => x,
        None => None,
    };
    let guid = get_u64(ps, "guid");
    let jailed = get_bool(ps, "jailed");
    let log_bias = get_enum_log_bias(ps, "logbias").unwrap();
    let logical_referenced = get_u64(ps, "logicalreferenced").unwrap();
    let logical_used = get_u64(ps, "logicalused").unwrap();
    let mls_label = match get_mls(ps, "mlslabel") {
        Some(x) => x,
        None => None,
    };
    let mounted = get_bool(ps, "mounted").unwrap();
    let mount_point = match get_mount(ps, "mountpoint") {
        Some(x) => x,
        None => None,
    };
    let nbmand = get_bool(ps, "nbmand").unwrap();
    let normalization = get_enum_normalization(ps, "normalization").unwrap();
    let origin = match get_origin(ps, "origin") {
        Some(x) => x,
        None => None,
    };
    let primary_cache = get_enum_cache_mode(ps, "primarycache").unwrap();
    let quota = get_u64(ps, "quota").unwrap();
    let readonly = get_bool(ps, "readonly").unwrap();
    let record_size = get_u64(ps, "recordsize").unwrap();
    let redundant_metadata = get_enum_redundant_metadata(ps, "redundant_metadata").unwrap();
    let ref_compression_ratio = get_ratio(ps, "refcompressratio").unwrap();
    let referenced = get_u64(ps, "referenced").unwrap();
    let ref_quota = get_u64(ps, "refquota").unwrap();
    let ref_reservation = get_u64(ps, "refreservation").unwrap();
    let reservation = get_u64(ps, "reservation").unwrap();
    let secondary_cache = get_enum_cache_mode(ps, "secondarycache").unwrap();
    let setuid = get_bool(ps, "setuid").unwrap();
    let snap_dir = get_enum_snap_dir(ps, "snapdir").unwrap();
    let snapshot_count = match get_opt_num(ps, "snapshot_count") {
        Some(x) => x,
        None => None,
    };
    let snapshot_limit = match get_opt_num(ps, "snapshot_limit") {
        Some(x) => x,
        None => None,
    };
    let sync = get_enum_sync_mode(ps, "sync").unwrap();
    let used = get_u64(ps, "used").unwrap();
    let used_by_children = get_u64(ps, "usedbychildren").unwrap();
    let used_by_dataset = get_u64(ps, "usedbydataset").unwrap();
    let used_by_ref_reservation = get_u64(ps, "usedbyrefreservation").unwrap();
    let used_by_snapshots = get_u64(ps, "usedbysnapshots").unwrap();
    let utf8_only = get_bool(ps, "utf8only");
    let version = get_u64(ps, "version").unwrap();
    let volume_mode = get_enum_volume_mode(ps, "volmode");
    let vscan = get_bool(ps, "vscan").unwrap();
    let written = get_u64(ps, "written").unwrap();
    let xattr = get_bool(ps, "xattr").unwrap();
    let unknown_properties = filesystem_unknown(ps);
    FilesystemProperties {
        name: name.to_owned(),
        acl_inherit,
        acl_mode,
        atime,
        available,
        can_mount,
        case_sensitivity,
        checksum,
        compression,
        compression_ratio,
        copies,
        create_txg,
        creation,
        dedup,
        devices,
        dnode_size,
        executable,
        filesystem_count,
        filesystem_limit,
        guid,
        jailed,
        log_bias,
        logical_referenced,
        logical_used,
        mls_label,
        mounted,
        mount_point,
        nbmand,
        normalization,
        origin,
        primary_cache,
        quota,
        readonly,
        record_size,
        redundant_metadata,
        ref_compression_ratio,
        referenced,
        ref_quota,
        ref_reservation,
        reservation,
        secondary_cache,
        setuid,
        snap_dir,
        snapshot_count,
        snapshot_limit,
        sync,
        used,
        used_by_children,
        used_by_dataset,
        used_by_ref_reservation,
        used_by_snapshots,
        utf8_only,
        version,
        volume_mode,
        vscan,
        written,
        xattr,
        unknown_properties,
    }
}

/// The properties of the filesystem `name` that the pairs `ps` give; `None` when
/// a property it cannot do without is missing, or when the value of a
/// property it has a field for does not read (a number that is not a
/// number, an unknown name, a malformed date).
pub fn parse_filesystem_pairs(name: &str, ps: &Vec<(Vec<char>, Vec<char>)>) -> (r: Option<FilesystemProperties>)
    ensures
        match spec_filesystem(name@, pairs_chars(ps@)) {
            Some(v) => r matches Some(p) && p@ == v,
            None => r is None,
        },
{
    if filesystem_values_read(ps) && filesystem_required_present(ps) {
        Some(filesystem_build(name, ps))
    } else {
        None
    }
}

/// Whether `k` is a property that a volume has a field for (`type` included).
pub open spec fn volume_known(k: Seq<char>) -> bool {
    k == "available"@ || k == "checksum"@ || k == "compression"@ || k == "compressratio"@ || k == "copies"@ || k == "createtxg"@ || k == "creation"@ || k == "dedup"@ || k == "guid"@ || k == "logbias"@ || k == "logicalreferenced"@ || k == "logicalused"@ || k == "mlslabel"@ || k == "primarycache"@ || k == "readonly"@ || k == "redundant_metadata"@ || k == "refcompressratio"@ || k == "referenced"@ || k == "refreservation"@ || k == "reservation"@ || k == "secondarycache"@ || k == "snapshot_count"@ || k == "snapshot_limit"@ || k == "sync"@ || k == "used"@ || k == "usedbychildren"@ || k == "usedbydataset"@ || k == "usedbyrefreservation"@ || k == "usedbysnapshots"@ || k == "volblocksize"@ || k == "volmode"@ || k == "volsize"@ || k == "written"@ || k == "type"@
}

/// Whether `v` reads as a value of the property `k` of a volume.
pub open spec fn volume_value_ok(k: Seq<char>, v: Seq<char>) -> bool {
    if k == "available"@ {
        spec_parse_i64(v) is Some
    } else if k == "checksum"@ {
        Checksum::spec_from_name(v) is Some
    } else if k == "compression"@ {
        Compression::spec_from_name(v) is Some
    } else if k == "compressratio"@ {
        is_float_literal(strip_last(v, 'x'))
    } else if k == "copies"@ {
        Copies::spec_from_name(v) is Some
    } else if k == "createtxg"@ {
        spec_parse_u64(v) is Some
    } else if k == "creation"@ {
        spec_parse_i64(v) is Some
    } else if k == "dedup"@ {
        Dedup::spec_from_name(v) is Some
    } else if k == "guid"@ {
        spec_parse_u64(v) is Some
    } else if k == "logbias"@ {
        LogBias::spec_from_name(v) is Some
    } else if k == "logicalreferenced"@ {
        spec_parse_u64(v) is Some
    } else if k == "logicalused"@ {
        spec_parse_u64(v) is Some
    } else if k == "primarycache"@ {
        CacheMode::spec_from_name(v) is Some
    } else if k == "redundant_metadata"@ {
        RedundantMetadata::spec_from_name(v) is Some
    } else if k == "refcompressratio"@ {
        is_float_literal(strip_last(v, 'x'))
    } else if k == "referenced"@ {
        spec_parse_u64(v) is Some
    } else if k == "refreservation"@ {
        spec_parse_u64(v) is Some
    } else if k == "reservation"@ {
        spec_parse_u64(v) is Some
    } else if k == "secondarycache"@ {
        CacheMode::spec_from_name(v) is Some
    } else if k == "snapshot_count"@ {
        spec_opt_num(v) is Some
    } else if k == "snapshot_limit"@ {
        spec_opt_num(v) is Some
    } else if k == "sync"@ {
        SyncMode::spec_from_name(v) is Some
    } else if k == "used"@ {
        spec_parse_u64(v) is Some
    } else if k == "usedbychildren"@ {
        spec_parse_u64(v) is Some
    } else if k == "usedbydataset"@ {
        spec_parse_u64(v) is Some
    } else if k == "usedbyrefreservation"@ {
        spec_parse_u64(v) is Some
    } else if k == "usedbysnapshots"@ {
        spec_parse_u64(v) is Some
    } else if k == "volblocksize"@ {
        spec_parse_u64(v) is Some
    } else if k == "volmode"@ {
        VolumeMode::spec_from_name(v) is Some
    } else if k == "volsize"@ {
        spec_parse_u64(v) is Some
    } else if k == "written"@ {
        spec_parse_u64(v) is Some
    } else {
        true
    }
}

/// Whether every value of a known property of a volume reads.
pub open spec fn volume_all_ok(ps: Seq<(Seq<char>, Seq<char>)>) -> bool {
    forall|j: int| 0 <= j < ps.len() ==> #[trigger] volume_value_ok(ps[j].0, ps[j].1)
}

/// Whether every property that a volume cannot do without is there and reads.
pub open spec fn volume_required_ok(ps: Seq<(Seq<char>, Seq<char>)>) -> bool {
    field_i64(ps, "available"@) is Some
    && field_enum_checksum(ps, "checksum"@) is Some
    && field_enum_compression(ps, "compression"@) is Some
    && field_ratio(ps, "compressratio"@) is Some
    && field_enum_copies(ps, "copies"@) is Some
    && field_i64(ps, "creation"@) is Some
    && field_enum_dedup(ps, "dedup"@) is Some
    && field_enum_log_bias(ps, "logbias"@) is Some
    && field_u64(ps, "logicalreferenced"@) is Some
    && field_u64(ps, "logicalused"@) is Some
    && field_enum_cache_mode(ps, "primarycache"@) is Some
    && field_bool(ps, "readonly"@) is Some
    && field_enum_redundant_metadata(ps, "redundant_metadata"@) is Some
    && field_ratio(ps, "refcompressratio"@) is Some
    && field_u64(ps, "referenced"@) is Some
    && field_u64(ps, "refreservation"@) is Some
    && field_u64(ps, "reservation"@) is Some
    && field_enum_cache_mode(ps, "secondarycache"@) is Some
    && field_enum_sync_mode(ps, "sync"@) is Some
    && field_u64(ps, "used"@) is Some
    && field_u64(ps, "usedbychildren"@) is Some
    && field_u64(ps, "usedbydataset"@) is Some
    && field_u64(ps, "usedbyrefreservation"@) is Some
    && field_u64(ps, "usedbysnapshots"@) is Some
    && field_u64(ps, "volblocksize"@) is Some
    && field_u64(ps, "volsize"@) is Some
    && field_u64(ps, "written"@) is Some
}

/// The properties that a volume has no field for, later values winning.
pub open spec fn volume_unknown_map(ps: Seq<(Seq<char>, Seq<char>)>) -> Map<Seq<char>, Seq<char>>
    decreases ps.len(),
{
    if ps.len() == 0 {
        Map::empty()
    } else if volume_known(ps.last().0) {
        volume_unknown_map(ps.drop_last())
    } else {
        volume_unknown_map(ps.drop_last()).insert(ps.last().0, ps.last().1)
    }
}

/// The properties of the volume `name` that the pairs `ps` give, the last value
/// of each property counting.
pub open spec fn volume_view(name: Seq<char>, ps: Seq<(Seq<char>, Seq<char>)>) -> VolumePropertiesView {
    VolumePropertiesView {
        name,
        available: field_i64(ps, "available"@)->0,
        checksum: field_enum_checksum(ps, "checksum"@)->0,
        compression: field_enum_compression(ps, "compression"@)->0,
        compression_ratio: field_ratio(ps, "compressratio"@)->0,
        copies: field_enum_copies(ps, "copies"@)->0,
        create_txg: field_u64(ps, "createtxg"@),
        creation: field_i64(ps, "creation"@)->0,
        dedup: field_enum_dedup(ps, "dedup"@)->0,
        guid: field_u64(ps, "guid"@),
        log_bias: field_enum_log_bias(ps, "logbias"@)->0,
        logical_referenced: field_u64(ps, "logicalreferenced"@)->0,
        logical_used: field_u64(ps, "logicalused"@)->0,
        mls_label: match field_mls(ps, "mlslabel"@) { Some(x) => x, None => None },
        primary_cache: field_enum_cache_mode(ps, "primarycache"@)->0,
        readonly: field_bool(ps, "readonly"@)->0,
        redundant_metadata: field_enum_redundant_metadata(ps, "redundant_metadata"@)->0,
        ref_compression_ratio: field_ratio(ps, "refcompressratio"@)->0,
        referenced: field_u64(ps, "referenced"@)->0,
        ref_reservation: field_u64(ps, "refreservation"@)->0,
        reservation: field_u64(ps, "reservation"@)->0,
        secondary_cache: field_enum_cache_mode(ps, "secondarycache"@)->0,
        snapshot_count: match field_opt_num(ps, "snapshot_count"@) { Some(x) => x, None => None },
        snapshot_limit: match field_opt_num(ps, "snapshot_limit"@) { Some(x) => x, None => None },
        sync: field_enum_sync_mode(ps, "sync"@)->0,
        used: field_u64(ps, "used"@)->0,
        used_by_children: field_u64(ps, "usedbychildren"@)->0,
        used_by_dataset: field_u64(ps, "usedbydataset"@)->0,
        used_by_ref_reservation: field_u64(ps, "usedbyrefreservation"@)->0,
        used_by_snapshots: field_u64(ps, "usedbysnapshots"@)->0,
        volume_block_size: field_u64(ps, "volblocksize"@)->0,
        volume_mode: field_enum_volume_mode(ps, "volmode"@),
        volume_size: field_u64(ps, "volsize"@)->0,
        written: field_u64(ps, "written"@)->0,
        unknown_properties: volume_unknown_map(ps),
    }
}

/// The properties of the volume `name` that the `key`/`value` pairs `ps` give: the last value of
/// each property counts; `None` when a value of a known property does not read, or a property
/// that is not optional is missing. The other properties are kept as text.
pub open spec fn spec_volume(name: Seq<char>, ps: Seq<(Seq<char>, Seq<char>)>) -> Option<VolumePropertiesView> {
    if volume_all_ok(ps) && volume_required_ok(ps) {
        Some(volume_view(name, ps))
    } else {
        None
    }
}

/// Whether `v` reads as a value of the property `k` of a volume.
fn volume_value_is_ok(k: &[char], v: &[char]) -> (r: bool)
    ensures
        r == volume_value_ok(k@, v@),
{
    if all_eq_str(k, "available") {
        parse_i64(v).is_some()
    } else if all_eq_str(k, "checksum") {
        Checksum::from_chars(v).is_some()
    } else if all_eq_str(k, "compression") {
        Compression::from_chars(v).is_some()
    } else if all_eq_str(k, "compressratio") {
        ratio_ok(v)
    } else if all_eq_str(k, "copies") {
        Copies::from_chars(v).is_some()
    } else if all_eq_str(k, "createtxg") {
        parse_u64(v).is_some()
    } else if all_eq_str(k, "creation") {
        parse_i64(v).is_some()
    } else if all_eq_str(k, "dedup") {
        Dedup::from_chars(v).is_some()
    } else if all_eq_str(k, "guid") {
        parse_u64(v).is_some()
    } else if all_eq_str(k, "logbias") {
        LogBias::from_chars(v).is_some()
    } else if all_eq_str(k, "logicalreferenced") {
        parse_u64(v).is_some()
    } else if all_eq_str(k, "logicalused") {
        parse_u64(v).is_some()
    } else if all_eq_str(k, "primarycache") {
        CacheMode::from_chars(v).is_some()
    } else if all_eq_str(k, "redundant_metadata") {
        RedundantMetadata::from_chars(v).is_some()
    } else if all_eq_str(k, "refcompressratio") {
        ratio_ok(v)
    } else if all_eq_str(k, "referenced") {
        parse_u64(v).is_some()
    } else if all_eq_str(k, "refreservation") {
        parse_u64(v).is_some()
    } else if all_eq_str(k, "reservation") {
        parse_u64(v).is_some()
    } else if all_eq_str(k, "secondarycache") {
        CacheMode::from_chars(v).is_some()
    } else if all_eq_str(k, "snapshot_count") {
        opt_num(v).is_some()
    } else if all_eq_str(k, "snapshot_limit") {
        opt_num(v).is_some()
    } else if all_eq_str(k, "sync") {
        SyncMode::from_chars(v).is_some()
    } else if all_eq_str(k, "used") {
        parse_u64(v).is_some()
    } else if all_eq_str(k, "usedbychildren") {
        parse_u64(v).is_some()
    } else if all_eq_str(k, "usedbydataset") {
        parse_u64(v).is_some()
    } else if all_eq_str(k, "usedbyrefreservation") {
        parse_u64(v).is_some()
    } else if all_eq_str(k, "usedbysnapshots") {
        parse_u64(v).is_some()
    } else if all_eq_str(k, "volblocksize") {
        parse_u64(v).is_some()
    } else if all_eq_str(k, "volmode") {
        VolumeMode::from_chars(v).is_some()
    } else if all_eq_str(k, "volsize") {
        parse_u64(v).is_some()
    } else if all_eq_str(k, "written") {
        parse_u64(v).is_some()
    } else {
        true
    }
}

/// Whether `k` is a property that a volume has a field for.
fn volume_is_known(k: &[char]) -> (r: bool)
    ensures
        r == volume_known(k@),
{
    all_eq_str(k, "available") || all_eq_str(k, "checksum") || all_eq_str(k, "compression") || all_eq_str(k, "compressratio") || all_eq_str(k, "copies") || all_eq_str(k, "createtxg") || all_eq_str(k, "creation") || all_eq_str(k, "dedup") || all_eq_str(k, "guid") || all_eq_str(k, "logbias") || all_eq_str(k, "logicalreferenced") || all_eq_str(k, "logicalused") || all_eq_str(k, "mlslabel") || all_eq_str(k, "primarycache") || all_eq_str(k, "readonly") || all_eq_str(k, "redundant_metadata") || all_eq_str(k, "refcompressratio") || all_eq_str(k, "referenced") || all_eq_str(k, "refreservation") || all_eq_str(k, "reservation") || all_eq_str(k, "secondarycache") || all_eq_str(k, "snapshot_count") || all_eq_str(k, "snapshot_limit") || all_eq_str(k, "sync") || all_eq_str(k, "used") || all_eq_str(k, "usedbychildren") || all_eq_str(k, "usedbydataset") || all_eq_str(k, "usedbyrefreservation") || all_eq_str(k, "usedbysnapshots") || all_eq_str(k, "volblocksize") || all_eq_str(k, "volmode") || all_eq_str(k, "volsize") || all_eq_str(k, "written") || all_eq_str(k, "type")
}

/// Whether every value of a known property of a volume reads.
fn volume_values_read(ps: &Vec<(Vec<char>, Vec<char>)>) -> (r: bool)
    ensures
        r == volume_all_ok(pairs_chars(ps@)),
{
    let ghost pv = pairs_chars(ps@);
    let mut i: usize = 0;
    while i < ps.len()
        invariant
            i <= ps@.len(),
            pv == pairs_chars(ps@),
            forall|j: int| 0 <= j < i ==> #[trigger] volume_value_ok(pv[j].0, pv[j].1),
        decreases ps@.len() - i,
    {
        if !volume_value_is_ok(ps[i].0.as_slice(), ps[i].1.as_slice()) {
            assert(!volume_value_ok(pv[i as int].0, pv[i as int].1));
            return false;
        }
        i += 1;
    }
    true
}

/// Whether every property that a volume cannot do without is there and reads.
fn volume_required_present(ps: &Vec<(Vec<char>, Vec<char>)>) -> (r: bool)
    ensures
        r == volume_required_ok(pairs_chars(ps@)),
{
    get_i64(ps, "available").is_some()
        && get_enum_checksum(ps, "checksum").is_some()
        && get_enum_compression(ps, "compression").is_some()
        && get_ratio(ps, "compressratio").is_some()
        && get_enum_copies(ps, "copies").is_some()
        && get_i64(ps, "creation").is_some()
        && get_enum_dedup(ps, "dedup").is_some()
        && get_enum_log_bias(ps, "logbias").is_some()
        && get_u64(ps, "logicalreferenced").is_some()
        && get_u64(ps, "logicalused").is_some()
        && get_enum_cache_mode(ps, "primarycache").is_some()
        && get_bool(ps, "readonly").is_some()
        && get_enum_redundant_metadata(ps, "redundant_metadata").is_some()
        && get_ratio(ps, "refcompressratio").is_some()
        && get_u64(ps, "referenced").is_some()
        && get_u64(ps, "refreservation").is_some()
        && get_u64(ps, "reservation").is_some()
        && get_enum_cache_mode(ps, "secondarycache").is_some()
        && get_enum_sync_mode(ps, "sync").is_some()
        && get_u64(ps, "used").is_some()
        && get_u64(ps, "usedbychildren").is_some()
        && get_u64(ps, "usedbydataset").is_some()
        && get_u64(ps, "usedbyrefreservation").is_some()
        && get_u64(ps, "usedbysnapshots").is_some()
        && get_u64(ps, "volblocksize").is_some()
        && get_u64(ps, "volsize").is_some()
        && get_u64(ps, "written").is_some()
}

/// The properties that a volume has no field for, later values winning.
fn volume_unknown(ps: &Vec<(Vec<char>, Vec<char>)>) -> (m: StringMap)
    ensures
        m.spec_map() == volume_unknown_map(pairs_chars(ps@)),
{
    let ghost pv = pairs_chars(ps@);
    let mut m = StringMap::new();
    assert(pv.take(0) =~= Seq::<(Seq<char>, Seq<char>)>::empty());
    assert(m.spec_map() =~= Map::<Seq<char>, Seq<char>>::empty());
    let mut i: usize = 0;
    while i < ps.len()
        invariant
            i <= ps@.len(),
            pv == pairs_chars(ps@),
            m.spec_map() == volume_unknown_map(pv.take(i as int)),
        decreases ps@.len() - i,
    {
        assert(pv.take(i + 1).drop_last() =~= pv.take(i as int));
        assert(pv.take(i + 1).last() == pv[i as int]);
        if !volume_is_known(ps[i].0.as_slice()) {
            m.insert(text_of(ps[i].0.as_slice()), text_of(ps[i].1.as_slice()));
        }
        i += 1;
    }
    assert(pv.take(ps@.len() as int) =~= pv);
    m
}

/// The properties of the volume `name` that the pairs `ps` give.
#[verifier::rlimit(50)]
fn volume_build(name: &str, ps: &Vec<(Vec<char>, Vec<char>)>) -> (r: VolumeProperties)
    requires
        volume_required_ok(pairs_chars(ps@)),
    ensures
        r@ == volume_view(name@, pairs_chars(ps@)),
{
    let available = get_i64(ps, "available").unwrap();
    let checksum = get_enum_checksum(ps, "checksum").unwrap();
    let compression = get_enum_compression(ps, "compression").unwrap();
    let compression_ratio = get_ratio(ps, "compressratio").unwrap();
    let copies = get_enum_copies(ps, "copies").unwrap();
    let create_txg = get_u64(ps, "createtxg");
    let creation = get_i64(ps, "creation").unwrap();
    let dedup = get_enum_dedup(ps, "dedup").unwrap();
    let guid = get_u64(ps, "guid");
    let log_bias = get_enum_log_bias(ps, "logbias").unwrap();
    let logical_referenced = get_u64(ps, "logicalreferenced").unwrap();
    let logical_used = get_u64(ps, "logicalused").unwrap();
    let mls_label = match get_mls(ps, "mlslabel") {
        Some(x) => x,
        None => None,
    };
    let primary_cache = get_enum_cache_mode(ps, "primarycache").unwrap();
    let readonly = get_bool(ps, "readonly").unwrap();
    let redundant_metadata = get_enum_redundant_metadata(ps, "redundant_metadata").unwrap();
    let ref_compression_ratio = get_ratio(ps, "refcompressratio").unwrap();
    let referenced = get_u64(ps, "referenced").unwrap();
    let ref_reservation = get_u64(ps, "refreservation").unwrap();
    let reservation = get_u64(ps, "reservation").unwrap();
    let secondary_cache = get_enum_cache_mode(ps, "secondarycache").unwrap();
    let snapshot_count = match get_opt_num(ps, "snapshot_count") {
        Some(x) => x,
        None => None,
    };
    let snapshot_limit = match get_opt_num(ps, "snapshot_limit") {
        Some(x) => x,
        None => None,
    };
    let sync = get_enum_sync_mode(ps, "sync").unwrap();
    let used = get_u64(ps, "used").unwrap();
    let used_by_children = get_u64(ps, "usedbychildren").unwrap();
    let used_by_dataset = get_u64(ps, "usedbydataset").unwrap();
    let used_by_ref_reservation = get_u64(ps, "usedbyrefreservation").unwrap();
    let used_by_snapshots = get_u64(ps, "usedbysnapshots").unwrap();
    let volume_block_size = get_u64(ps, "volblocksize").unwrap();
    let volume_mode = get_enum_volume_mode(ps, "volmode");
    let volume_size = get_u64(ps, "volsize").unwrap();
    let written = get_u64(ps, "written").unwrap();
    let unknown_properties = volume_unknown(ps);
    VolumeProperties {
        name: name.to_owned(),
        available,
        checksum,
        compression,
        compression_ratio,
        copies,
        create_txg,
        creation,
        dedup,
        guid,
        log_bias,
        logical_referenced,
        logical_used,
        mls_label,
        primary_cache,
        readonly,
        redundant_metadata,
        ref_compression_ratio,
        referenced,
        ref_reservation,
        reservation,
        secondary_cache,
        snapshot_count,
        snapshot_limit,
        sync,
        used,
        used_by_children,
        used_by_dataset,
        used_by_ref_reservation,
        used_by_snapshots,
        volume_block_size,
        volume_mode,
        volume_size,
        written,
        unknown_properties,
    }
}

/// The properties of the volume `name` that the pairs `ps` give; `None` when
/// a property it cannot do without is missing, or when the value of a
/// property it has a field for does not read (a number that is not a
/// number, an unknown name, a malformed date).
pub fn parse_volume_pairs(name: &str, ps: &Vec<(Vec<char>, Vec<char>)>) -> (r: Option<VolumeProperties>)
    ensures
        match spec_volume(name@, pairs_chars(ps@)) {
            Some(v) => r matches Some(p) && p@ == v,
            None => r is None,
        },
{
    if volume_values_read(ps) && volume_required_present(ps) {
        Some(volume_build(name, ps))
    } else {
        None
    }
}

/// Whether `k` is a property that a snapshot has a field for (`type` included).
pub open spec fn snapshot_known(k: Seq<char>) -> bool {
    k == "casesensitivity"@ || k == "clones"@ || k == "compressratio"@ || k == "createtxg"@ || k == "creation"@ || k == "defer_destroy"@ || k == "devices"@ || k == "exec"@ || k == "guid"@ || k == "logicalreferenced"@ || k == "mlslabel"@ || k == "nbmand"@ || k == "normalization"@ || k == "primarycache"@ || k == "refcompressratio"@ || k == "referenced"@ || k == "secondarycache"@ || k == "setuid"@ || k == "used"@ || k == "userrefs"@ || k == "utf8only"@ || k == "version"@ || k == "volmode"@ || k == "written"@ || k == "xattr"@ || k == "type"@
}

/// Whether `v` reads as a value of the property `k` of a snapshot.
pub open spec fn snapshot_value_ok(k: Seq<char>, v: Seq<char>) -> bool {
    if k == "casesensitivity"@ {
        CaseSensitivity::spec_from_name(v) is Some
    } else if k == "compressratio"@ {
        is_float_literal(strip_last(v, 'x'))
    } else if k == "createtxg"@ {
        spec_parse_u64(v) is Some
    } else if k == "creation"@ {
        spec_creation(v) is Some
    } else if k == "guid"@ {
        spec_parse_u64(v) is Some
    } else if k == "logicalreferenced"@ {
        spec_parse_u64(v) is Some
    } else if k == "normalization"@ {
        Normalization::spec_from_name(v) is Some
    } else if k == "primarycache"@ {
        CacheMode::spec_from_name(v) is Some
    } else if k == "refcompressratio"@ {
        is_float_literal(strip_last(v, 'x'))
    } else if k == "referenced"@ {
        spec_parse_u64(v) is Some
    } else if k == "secondarycache"@ {
        CacheMode::spec_from_name(v) is Some
    } else if k == "used"@ {
        spec_parse_u64(v) is Some
    } else if k == "userrefs"@ {
        spec_parse_u64(v) is Some
    } else if k == "version"@ {
        spec_parse_u64(v) is Some
    } else if k == "volmode"@ {
        VolumeMode::spec_from_name(v) is Some
    } else if k == "written"@ {
        spec_parse_u64(v) is Some
    } else {
        true
    }
}

/// Whether every value of a known property of a snapshot reads.
pub open spec fn snapshot_all_ok(ps: Seq<(Seq<char>, Seq<char>)>) -> bool {
    forall|j: int| 0 <= j < ps.len() ==> #[trigger] snapshot_value_ok(ps[j].0, ps[j].1)
}

/// Whether every property that a snapshot cannot do without is there and reads.
pub open spec fn snapshot_required_ok(ps: Seq<(Seq<char>, Seq<char>)>) -> bool {
    field_enum_case_sensitivity(ps, "casesensitivity"@) is Some
    && field_ratio(ps, "compressratio"@) is Some
    && field_creation(ps, "creation"@) is Some
    && field_bool(ps, "defer_destroy"@) is Some
    && field_bool(ps, "devices"@) is Some
    && field_bool(ps, "exec"@) is Some
    && field_u64(ps, "logicalreferenced"@) is Some
    && field_bool(ps, "nbmand"@) is Some
    && field_enum_normalization(ps, "normalization"@) is Some
    && field_enum_cache_mode(ps, "primarycache"@) is Some
    && field_ratio(ps, "refcompressratio"@) is Some
    && field_u64(ps, "referenced"@) is Some
    && field_enum_cache_mode(ps, "secondarycache"@) is Some
    && field_bool(ps, "setuid"@) is Some
    && field_u64(ps, "used"@) is Some
    && field_u64(ps, "userrefs"@) is Some
    && field_u64(ps, "version"@) is Some
    && field_u64(ps, "written"@) is Some
    && field_bool(ps, "xattr"@) is Some
}

/// The properties that a snapshot has no field for, later values winning.
pub open spec fn snapshot_unknown_map(ps: Seq<(Seq<char>, Seq<char>)>) -> Map<Seq<char>, Seq<char>>
    decreases ps.len(),
{
    if ps.len() == 0 {
        Map::empty()
    } else if snapshot_known(ps.last().0) {
        snapshot_unknown_map(ps.drop_last())
    } else {
        snapshot_unknown_map(ps.drop_last()).insert(ps.last().0, ps.last().1)
    }
}

/// The properties of the snapshot `name` that the pairs `ps` give, the last value
/// of each property counting.
pub open spec fn snapshot_view(name: Seq<char>, ps: Seq<(Seq<char>, Seq<char>)>) -> SnapshotPropertiesView {
    SnapshotPropertiesView {
        name,
        case_sensitivity: field_enum_case_sensitivity(ps, "casesensitivity"@)->0,
        clones: match field_clones(ps, "clones"@) { Some(x) => x, None => None },
        compression_ratio: field_ratio(ps, "compressratio"@)->0,
        create_txg: field_u64(ps, "createtxg"@),
        creation: field_creation(ps, "creation"@)->0,
        defer_destroy: field_bool(ps, "defer_destroy"@)->0,
        devices: field_bool(ps, "devices"@)->0,
        executable: field_bool(ps, "exec"@)->0,
        guid: field_u64(ps, "guid"@),
        logically_referenced: field_u64(ps, "logicalreferenced"@)->0,
        mls_label: match field_mls(ps, "mlslabel"@) { Some(x) => x, None => None },
        nbmand: field_bool(ps, "nbmand"@)->0,
        normalization: field_enum_normalization(ps, "normalization"@)->0,
        primary_cache: field_enum_cache_mode(ps, "primarycache"@)->0,
        ref_compression_ratio: field_ratio(ps, "refcompressratio"@)->0,
        referenced: field_u64(ps, "referenced"@)->0,
        secondary_cache: field_enum_cache_mode(ps, "secondarycache"@)->0,
        setuid: field_bool(ps, "setuid"@)->0,
        used: field_u64(ps, "used"@)->0,
        user_refs: field_u64(ps, "userrefs"@)->0,
        utf8_only: field_bool(ps, "utf8only"@),
        version: field_u64(ps, "version"@)->0,
        volume_mode: field_enum_volume_mode(ps, "volmode"@),
        written: field_u64(ps, "written"@)->0,
        xattr: field_bool(ps, "xattr"@)->0,
        unknown_properties: snapshot_unknown_map(ps),
    }
}

/// The properties of the snapshot `name` that the `key`/`value` pairs `ps` give: the last value of
/// each property counts; `None` when a value of a known property does not read, or a property
/// that is not optional is missing. The other properties are kept as text.
pub open spec fn spec_snapshot(name: Seq<char>, ps: Seq<(Seq<char>, Seq<char>)>) -> Option<SnapshotPropertiesView> {
    if snapshot_all_ok(ps) && snapshot_required_ok(ps) {
        Some(snapshot_view(name, ps))
    } else {
        None
    }
}

/// Whether `v` reads as a value of the property `k` of a snapshot.
fn snapshot_value_is_ok(k: &[char], v: &[char]) -> (r: bool)
    ensures
        r == snapshot_value_ok(k@, v@),
{
    if all_eq_str(k, "casesensitivity") {
        CaseSensitivity::from_chars(v).is_some()
    } else if all_eq_str(k, "compressratio") {
        ratio_ok(v)
    } else if all_eq_str(k, "createtxg") {
        parse_u64(v).is_some()
    } else if all_eq_str(k, "creation") {
        creation_ok(v)
    } else if all_eq_str(k, "guid") {
        parse_u64(v).is_some()
    } else if all_eq_str(k, "logicalreferenced") {
        parse_u64(v).is_some()
    } else if all_eq_str(k, "normalization") {
        Normalization::from_chars(v).is_some()
    } else if all_eq_str(k, "primarycache") {
        CacheMode::from_chars(v).is_some()
    } else if all_eq_str(k, "refcompressratio") {
        ratio_ok(v)
    } else if all_eq_str(k, "referenced") {
        parse_u64(v).is_some()
    } else if all_eq_str(k, "secondarycache") {
        CacheMode::from_chars(v).is_some()
    } else if all_eq_str(k, "used") {
        parse_u64(v).is_some()
    } else if all_eq_str(k, "userrefs") {
        parse_u64(v).is_some()
    } else if all_eq_str(k, "version") {
        parse_u64(v).is_some()
    } else if all_eq_str(k, "volmode") {
        VolumeMode::from_chars(v).is_some()
    } else if all_eq_str(k, "written") {
        parse_u64(v).is_some()
    } else {
        true
    }
}

/// Whether `k` is a property that a snapshot has a field for.
fn snapshot_is_known(k: &[char]) -> (r: bool)
    ensures
        r == snapshot_known(k@),
{
    all_eq_str(k, "casesensitivity") || all_eq_str(k, "clones") || all_eq_str(k, "compressratio") || all_eq_str(k, "createtxg") || all_eq_str(k, "creation") || all_eq_str(k, "defer_destroy") || all_eq_str(k, "devices") || all_eq_str(k, "exec") || all_eq_str(k, "guid") || all_eq_str(k, "logicalreferenced") || all_eq_str(k, "mlslabel") || all_eq_str(k, "nbmand") || all_eq_str(k, "normalization") || all_eq_str(k, "primarycache") || all_eq_str(k, "refcompressratio") || all_eq_str(k, "referenced") || all_eq_str(k, "secondarycache") || all_eq_str(k, "setuid") || all_eq_str(k, "used") || all_eq_str(k, "userrefs") || all_eq_str(k, "utf8only") || all_eq_str(k, "version") || all_eq_str(k, "volmode") || all_eq_str(k, "written") || all_eq_str(k, "xattr") || all_eq_str(k, "type")
}

/// Whether every value of a known property of a snapshot reads.
fn snapshot_values_read(ps: &Vec<(Vec<char>, Vec<char>)>) -> (r: bool)
    ensures
        r == snapshot_all_ok(pairs_chars(ps@)),
{
    let ghost pv = pairs_chars(ps@);
    let mut i: usize = 0;
    while i < ps.len()
        invariant
            i <= ps@.len(),
            pv == pairs_chars(ps@),
            forall|j: int| 0 <= j < i ==> #[trigger] snapshot_value_ok(pv[j].0, pv[j].1),
        decreases ps@.len() - i,
    {
        if !snapshot_value_is_ok(ps[i].0.as_slice(), ps[i].1.as_slice()) {
            assert(!snapshot_value_ok(pv[i as int].0, pv[i as int].1));
            return false;
        }
        i += 1;
    }
    true
}

/// Whether every property that a snapshot cannot do without is there and reads.
fn snapshot_required_present(ps: &Vec<(Vec<char>, Vec<char>)>) -> (r: bool)
    ensures
        r == snapshot_required_ok(pairs_chars(ps@)),
{
    get_enum_case_sensitivity(ps, "casesensitivity").is_some()
        && get_ratio(ps, "compressratio").is_some()
        && get_creation(ps, "creation").is_some()
        && get_bool(ps, "defer_destroy").is_some()
        && get_bool(ps, "devices").is_some()
        && get_bool(ps, "exec").is_some()
        && get_u64(ps, "logicalreferenced").is_some()
        && get_bool(ps, "nbmand").is_some()
        && get_enum_normalization(ps, "normalization").is_some()
        && get_enum_cache_mode(ps, "primarycache").is_some()
        && get_ratio(ps, "refcompressratio").is_some()
        && get_u64(ps, "referenced").is_some()
        && get_enum_cache_mode(ps, "secondarycache").is_some()
        && get_bool(ps, "setuid").is_some()
        && get_u64(ps, "used").is_some()
        && get_u64(ps, "userrefs").is_some()
        && get_u64(ps, "version").is_some()
        && get_u64(ps, "written").is_some()
        && get_bool(ps, "xattr").is_some()
}

/// The properties that a snapshot has no field for, later values winning.
fn snapshot_unknown(ps: &Vec<(Vec<char>, Vec<char>)>) -> (m: StringMap)
    ensures
        m.spec_map() == snapshot_unknown_map(pairs_chars(ps@)),
{
    let ghost pv = pairs_chars(ps@);
    let mut m = StringMap::new();
    assert(pv.take(0) =~= Seq::<(Seq<char>, Seq<char>)>::empty());
    assert(m.spec_map() =~= Map::<Seq<char>, Seq<char>>::empty());
    let mut i: usize = 0;
    while i < ps.len()
        invariant
            i <= ps@.len(),
            pv == pairs_chars(ps@),
            m.spec_map() == snapshot_unknown_map(pv.take(i as int)),
        decreases ps@.len() - i,
    {
        assert(pv.take(i + 1).drop_last() =~= pv.take(i as int));
        assert(pv.take(i + 1).last() == pv[i as int]);
        if !snapshot_is_known(ps[i].0.as_slice()) {
            m.insert(text_of(ps[i].0.as_slice()), text_of(ps[i].1.as_slice()));
        }
        i += 1;
    }
    assert(pv.take(ps@.len() as int) =~= pv);
    m
}

/// The properties of the snapshot `name` that the pairs `ps` give.
#[verifier::rlimit(50)]
fn snapshot_build(name: &str, ps: &Vec<(Vec<char>, Vec<char>)>) -> (r: SnapshotProperties)
    requires
        snapshot_required_ok(pairs_chars(ps@)),
    ensures
        r@ == snapshot_view(name@, pairs_chars(ps@)),
{
    let case_sensitivity = get_enum_case_sensitivity(ps, "casesensitivity").unwrap();
    let clones = match get_clones(ps, "clones") {
        Some(x) => x,
        None => None,
    };
    let compression_ratio = get_ratio(ps, "compressratio").unwrap();
    let create_txg = get_u64(ps, "createtxg");
    let creation = get_creation(ps, "creation").unwrap();
    let defer_destroy = get_bool(ps, "defer_destroy").unwrap();
    let devices = get_bool(ps, "devices").unwrap();
    let executable = get_bool(ps, "exec").unwrap();
    let guid = get_u64(ps, "guid");
    let logically_referenced = get_u64(ps, "logicalreferenced").unwrap();
    let mls_label = match get_mls(ps, "mlslabel") {
        Some(x) => x,
        None => None,
    };
    let nbmand = get_bool(ps, "nbmand").unwrap();
    let normalization = get_enum_normalization(ps, "normalization").unwrap();
    let primary_cache = get_enum_cache_mode(ps, "primarycache").unwrap();
    let ref_compression_ratio = get_ratio(ps, "refcompressratio").unwrap();
    let referenced = get_u64(ps, "referenced").unwrap();
    let secondary_cache = get_enum_cache_mode(ps, "secondarycache").unwrap();
    let setuid = get_bool(ps, "setuid").unwrap();
    let used = get_u64(ps, "used").unwrap();
    let user_refs = get_u64(ps, "userrefs").unwrap();
    let utf8_only = get_bool(ps, "utf8only");
    let version = get_u64(ps, "version").unwrap();
    let volume_mode = get_enum_volume_mode(ps, "volmode");
    let written = get_u64(ps, "written").unwrap();
    let xattr = get_bool(ps, "xattr").unwrap();
    let unknown_properties = snapshot_unknown(ps);
    SnapshotProperties {
        name: name.to_owned(),
        case_sensitivity,
        clones,
        compression_ratio,
        create_txg,
        creation,
        defer_destroy,
        devices,
        executable,
        guid,
        logically_referenced,
        mls_label,
        nbmand,
        normalization,
        primary_cache,
        ref_compression_ratio,
        referenced,
        secondary_cache,
        setuid,
        used,
        user_refs,
        utf8_only,
        version,
        volume_mode,
        written,
        xattr,
        unknown_properties,
    }
}

/// The properties of the snapshot `name` that the pairs `ps` give; `None` when
/// a property it cannot do without is missing, or when the value of a
/// property it has a field for does not read (a number that is not a
/// number, an unknown name, a malformed date).
pub fn parse_snapshot_pairs(name: &str, ps: &Vec<(Vec<char>, Vec<char>)>) -> (r: Option<SnapshotProperties>)
    ensures
        match spec_snapshot(name@, pairs_chars(ps@)) {
            Some(v) => r matches Some(p) && p@ == v,
            None => r is None,
        },
{
    if snapshot_values_read(ps) && snapshot_required_present(ps) {
        Some(snapshot_build(name, ps))
    } else {
        None
    }
}

/// Whether `k` is a property that a bookmark has a field for (`type` included).
pub open spec fn bookmark_known(k: Seq<char>) -> bool {
    k == "createtxg"@ || k == "creation"@ || k == "guid"@ || k == "type"@
}

/// Whether `v` reads as a value of the property `k` of a bookmark.
pub open spec fn bookmark_value_ok(k: Seq<char>, v: Seq<char>) -> bool {
    if k == "createtxg"@ {
        spec_parse_u64(v) is Some
    } else if k == "creation"@ {
        spec_parse_i64(v) is Some
    } else if k == "guid"@ {
        spec_parse_u64(v) is Some
    } else {
        true
    }
}

/// Whether every value of a known property of a bookmark reads.
pub open spec fn bookmark_all_ok(ps: Seq<(Seq<char>, Seq<char>)>) -> bool {
    forall|j: int| 0 <= j < ps.len() ==> #[trigger] bookmark_value_ok(ps[j].0, ps[j].1)
}

/// Whether every property that a bookmark cannot do without is there and reads.
pub open spec fn bookmark_required_ok(ps: Seq<(Seq<char>, Seq<char>)>) -> bool {
    field_i64(ps, "creation"@) is Some
}

/// The properties that a bookmark has no field for, later values winning.
pub open spec fn bookmark_unknown_map(ps: Seq<(Seq<char>, Seq<char>)>) -> Map<Seq<char>, Seq<char>>
    decreases ps.len(),
{
    if ps.len() == 0 {
        Map::empty()
    } else if bookmark_known(ps.last().0) {
        bookmark_unknown_map(ps.drop_last())
    } else {
        bookmark_unknown_map(ps.drop_last()).insert(ps.last().0, ps.last().1)
    }
}

/// The properties of the bookmark `name` that the pairs `ps` give, the last value
/// of each property counting.
pub open spec fn bookmark_view(name: Seq<char>, ps: Seq<(Seq<char>, Seq<char>)>) -> BookmarkPropertiesView {
    BookmarkPropertiesView {
        name,
        create_txg: field_u64(ps, "createtxg"@),
        creation: field_i64(ps, "creation"@)->0,
        guid: field_u64(ps, "guid"@),
        unknown_properties: bookmark_unknown_map(ps),
    }
}

/// The properties of the bookmark `name` that the `key`/`value` pairs `ps` give: the last value of
/// each property counts; `None` when a value of a known property does not read, or a property
/// that is not optional is missing. The other properties are kept as text.
pub open spec fn spec_bookmark(name: Seq<char>, ps: Seq<(Seq<char>, Seq<char>)>) -> Option<BookmarkPropertiesView> {
    if bookmark_all_ok(ps) && bookmark_required_ok(ps) {
        Some(bookmark_view(name, ps))
    } else {
        None
    }
}

/// Whether `v` reads as a value of the property `k` of a bookmark.
fn bookmark_value_is_ok(k: &[char], v: &[char]) -> (r: bool)
    ensures
        r == bookmark_value_ok(k@, v@),
{
    if all_eq_str(k, "createtxg") {
        parse_u64(v).is_some()
    } else if all_eq_str(k, "creation") {
        parse_i64(v).is_some()
    } else if all_eq_str(k, "guid") {
        parse_u64(v).is_some()
    } else {
        true
    }
}

/// Whether `k` is a property that a bookmark has a field for.
fn bookmark_is_known(k: &[char]) -> (r: bool)
    ensures
        r == bookmark_known(k@),
{
    all_eq_str(k, "createtxg") || all_eq_str(k, "creation") || all_eq_str(k, "guid") || all_eq_str(k, "type")
}

/// Whether every value of a known property of a bookmark reads.
fn bookmark_values_read(ps: &Vec<(Vec<char>, Vec<char>)>) -> (r: bool)
    ensures
        r == bookmark_all_ok(pairs_chars(ps@)),
{
    let ghost pv = pairs_chars(ps@);
    let mut i: usize = 0;
    while i < ps.len()
        invariant
            i <= ps@.len(),
            pv == pairs_chars(ps@),
            forall|j: int| 0 <= j < i ==> #[trigger] bookmark_value_ok(pv[j].0, pv[j].1),
        decreases ps@.len() - i,
    {
        if !bookmark_value_is_ok(ps[i].0.as_slice(), ps[i].1.as_slice()) {
            assert(!bookmark_value_ok(pv[i as int].0, pv[i as int].1));
            return false;
        }
        i += 1;
    }
    true
}

/// Whether every property that a bookmark cannot do without is there and reads.
fn bookmark_required_present(ps: &Vec<(Vec<char>, Vec<char>)>) -> (r: bool)
    ensures
        r == bookmark_required_ok(pairs_chars(ps@)),
{
    get_i64(ps, "creation").is_some()
}

/// The properties that a bookmark has no field for, later values winning.
fn bookmark_unknown(ps: &Vec<(Vec<char>, Vec<char>)>) -> (m: StringMap)
    ensures
        m.spec_map() == bookmark_unknown_map(pairs_chars(ps@)),
{
    let ghost pv = pairs_chars(ps@);
    let mut m = StringMap::new();
    assert(pv.take(0) =~= Seq::<(Seq<char>, Seq<char>)>::empty());
    assert(m.spec_map() =~= Map::<Seq<char>, Seq<char>>::empty());
    let mut i: usize = 0;
    while i < ps.len()
        invariant
            i <= ps@.len(),
            pv == pairs_chars(ps@),
            m.spec_map() == bookmark_unknown_map(pv.take(i as int)),
        decreases ps@.len() - i,
    {
        assert(pv.take(i + 1).drop_last() =~= pv.take(i as int));
        assert(pv.take(i + 1).last() == pv[i as int]);
        if !bookmark_is_known(ps[i].0.as_slice()) {
            m.insert(text_of(ps[i].0.as_slice()), text_of(ps[i].1.as_slice()));
        }
        i += 1;
    }
    assert(pv.take(ps@.len() as int) =~= pv);
    m
}

/// The properties of the bookmark `name` that the pairs `ps` give.
#[verifier::rlimit(50)]
fn bookmark_build(name: &str, ps: &Vec<(Vec<char>, Vec<char>)>) -> (r: BookmarkProperties)
    requires
        bookmark_required_ok(pairs_chars(ps@)),
    ensures
        r@ == bookmark_view(name@, pairs_chars(ps@)),
{
    let create_txg = get_u64(ps, "createtxg");
    let creation = get_i64(ps, "creation").unwrap();
    let guid = get_u64(ps, "guid");
    let unknown_properties = bookmark_unknown(ps);
    BookmarkProperties {
        name: name.to_owned(),
        create_txg,
        creation,
        guid,
        unknown_properties,
    }
}

/// The properties of the bookmark `name` that the pairs `ps` give; `None` when
/// a property it cannot do without is missing, or when the value of a
/// property it has a field for does not read (a number that is not a
/// number, an unknown name, a malformed date).
pub fn parse_bookmark_pairs(name: &str, ps: &Vec<(Vec<char>, Vec<char>)>) -> (r: Option<BookmarkProperties>)
    ensures
        match spec_bookmark(name@, pairs_chars(ps@)) {
            Some(v) => r matches Some(p) && p@ == v,
            None => r is None,
        },
{
    if bookmark_values_read(ps) && bookmark_required_present(ps) {
        Some(bookmark_build(name, ps))
    } else {
        None
    }
}



/// The property and value of a line `dataset<TAB>property<TAB>value...` of
/// `zfs get -H`; `None` when the line has fewer than three fields.
pub open spec fn spec_prop_line(l: Seq<char>) -> Option<(Seq<char>, Seq<char>)> {
    let p = spec_split(strip_eol(l), '\t');
    if p.len() >= 3 {
        Some((p[1], p[2]))
    } else {
        None
    }
}

/// The properties of the dataset `name` that `zfs get -Hp all` prints as
/// `text`: the value of the first line is the kind of the dataset, and the
/// other lines are read as the properties of that kind (kept as text for a
/// kind this library does not know). `None` when there is no line, a line
/// has fewer than three fields, or the properties do not read.
pub open spec fn spec_properties(name: Seq<char>, text: Seq<char>) -> Option<PropertiesView> {
    let ls = spec_lines(text);
    if ls.len() > 0 && forall|i: int| 0 <= i < ls.len() ==> (#[trigger] spec_prop_line(ls[i])) is Some {
        let kind = (spec_prop_line(ls[0])->0).1;
        let ps = ls.skip(1).map_values(|l: Seq<char>| spec_prop_line(l)->0);
        if kind == "filesystem"@ {
            match spec_filesystem(name, ps) {
                Some(v) => Some(PropertiesView::Filesystem(v)),
                None => None,
            }
        } else if kind == "snapshot"@ {
            match spec_snapshot(name, ps) {
                Some(v) => Some(PropertiesView::Snapshot(v)),
                None => None,
            }
        } else if kind == "volume"@ {
            match spec_volume(name, ps) {
                Some(v) => Some(PropertiesView::Volume(v)),
                None => None,
            }
        } else if kind == "bookmark"@ {
            match spec_bookmark(name, ps) {
                Some(v) => Some(PropertiesView::Bookmark(v)),
                None => None,
            }
        } else {
            Some(PropertiesView::Unknown(entries_map(ps)))
        }
    } else {
        None
    }
}

/// The property and value of the line `l`.
fn prop_line_of(l: &[char]) -> (r: Option<(Vec<char>, Vec<char>)>)
    ensures
        match spec_prop_line(l@) {
            Some(p) => r matches Some(x) && x.0@ == p.0 && x.1@ == p.1,
            None => r is None,
        },
{
    let n = crate::text::eol_start(l);
    let body = crate::text::sub_chars(l, 0, n);
    let pieces = crate::text::split_chars(body.as_slice(), '\t');
    if pieces.len() >= 3 {
        assert(views(pieces@)[1] == pieces@[1]@);
        assert(views(pieces@)[2] == pieces@[2]@);
        Some((pieces[1].clone(), pieces[2].clone()))
    } else {
        None
    }
}

/// Every pair kept as text, later values winning.
fn all_pairs_map(ps: &Vec<(Vec<char>, Vec<char>)>) -> (m: StringMap)
    ensures
        m.spec_map() == entries_map(pairs_chars(ps@)),
{
    let ghost pv = pairs_chars(ps@);
    let mut m = StringMap::new();
    assert(pv.take(0) =~= Seq::<(Seq<char>, Seq<char>)>::empty());
    assert(m.spec_map() =~= Map::<Seq<char>, Seq<char>>::empty());
    let mut i: usize = 0;
    while i < ps.len()
        invariant
            i <= ps@.len(),
            pv == pairs_chars(ps@),
            m.spec_map() == entries_map(pv.take(i as int)),
        decreases ps@.len() - i,
    {
        assert(pv.take(i + 1).drop_last() =~= pv.take(i as int));
        assert(pv.take(i + 1).last() == pv[i as int]);
        m.insert(text_of(ps[i].0.as_slice()), text_of(ps[i].1.as_slice()));
        i += 1;
    }
    assert(pv.take(ps@.len() as int) =~= pv);
    m
}

/// The properties of the dataset `name` that `zfs get -Hp all` printed as
/// `stdout`; `None` when they do not read.
pub fn properties_from_stdout(name: &str, stdout: &str) -> (r: Option<Properties>)
    ensures
        match spec_properties(name@, stdout@) {
            Some(v) => r matches Some(p) && p@ == v,
            None => r is None,
        },
{
    let chars = chars_of(stdout);
    let lines = crate::text::lines_of(chars.as_slice());
    let ghost ls = views(lines@);
    if lines.len() == 0 {
        return None;
    }
    let first = match prop_line_of(lines[0].as_slice()) {
        Some(p) => p,
        None => {
            return None;
        },
    };
    let ghost spec_ps = ls.skip(1).map_values(|l: Seq<char>| spec_prop_line(l)->0);
    let mut ps: Vec<(Vec<char>, Vec<char>)> = Vec::new();
    let mut i: usize = 1;
    assert(pairs_chars(ps@) =~= spec_ps.take(0));
    while i < lines.len()
        invariant
            1 <= i <= lines@.len(),
            ls == views(lines@),
            ls == spec_lines(stdout@),
            spec_ps == ls.skip(1).map_values(|l: Seq<char>| spec_prop_line(l)->0),
            spec_prop_line(ls[0]) is Some,
            forall|j: int| 0 <= j < i ==> (#[trigger] spec_prop_line(ls[j])) is Some,
            pairs_chars(ps@) == spec_ps.take(i - 1),
        decreases lines@.len() - i,
    {
        match prop_line_of(lines[i].as_slice()) {
            Some(p) => {
                let ghost before = pairs_chars(ps@);
                ps.push(p);
                assert(spec_ps[i - 1] == spec_prop_line(ls[i as int])->0);
                assert(pairs_chars(ps@) =~= before.push(spec_ps[i - 1]));
                assert(spec_ps.take(i as int) =~= spec_ps.take(i - 1).push(spec_ps[i - 1]));
            },
            None => {
                assert(spec_prop_line(ls[i as int]) is None);
                return None;
            },
        }
        i += 1;
    }
    assert(spec_ps.take(lines@.len() - 1) =~= spec_ps);
    let kind = first.1.as_slice();
    if all_eq_str(kind, "filesystem") {
        match parse_filesystem_pairs(name, &ps) {
            Some(p) => Some(Properties::Filesystem(p)),
            None => None,
        }
    } else if all_eq_str(kind, "snapshot") {
        match parse_snapshot_pairs(name, &ps) {
            Some(p) => Some(Properties::Snapshot(p)),
            None => None,
        }
    } else if all_eq_str(kind, "volume") {
        match parse_volume_pairs(name, &ps) {
            Some(p) => Some(Properties::Volume(p)),
            None => None,
        }
    } else if all_eq_str(kind, "bookmark") {
        match parse_bookmark_pairs(name, &ps) {
            Some(p) => Some(Properties::Bookmark(p)),
            None => None,
        }
    } else {
        Some(Properties::Unknown(all_pairs_map(&ps)))
    }
}

/// The names that a successful `zfs list -o name` printed, or the error of a
/// failed one: output that does not read is an error that holds it.
pub fn datasets_from_output(success: bool, stdout: &[u8], stderr: &[u8]) -> (r: Result<Vec<String>, Error>)
    ensures
        success ==> match spec_datasets(utf8_lossy(stdout@)) {
            Some(v) => r matches Ok(names) && strings_view(names@) == v,
            None => r matches Err(Error::UnknownSoFar(t)) && t@ == utf8_lossy(stdout@),
        },
        !success ==> (r matches Err(e) && stderr_error(e, stderr@)),
{
    if success {
        let text = decode_lossy(stdout);
        match ZfsParser::parse_datasets(text.as_str()) {
            Some(v) => Ok(v),
            None => Err(Error::UnknownSoFar(text)),
        }
    } else {
        Err(Error::from_stderr(stderr))
    }
}

/// The kinds and names that a successful `zfs list -o type,name` printed,
/// or the error of a failed one: output that does not read is an error that
/// holds it.
pub fn typed_datasets_from_output(success: bool, stdout: &[u8], stderr: &[u8]) -> (r: Result<Vec<(DatasetKind, String)>, Error>)
    ensures
        success ==> match spec_datasets_with_type(utf8_lossy(stdout@)) {
            Some(v) => r matches Ok(list) && typed_view(list@) == v,
            None => r matches Err(Error::UnknownSoFar(t)) && t@ == utf8_lossy(stdout@),
        },
        !success ==> (r matches Err(e) && stderr_error(e, stderr@)),
{
    if success {
        let text = decode_lossy(stdout);
        match ZfsParser::parse_datasets_with_type(text.as_str()) {
            Some(v) => Ok(v),
            None => Err(Error::UnknownSoFar(text)),
        }
    } else {
        Err(Error::from_stderr(stderr))
    }
}

/// The properties that a successful `zfs get -Hp all` of the dataset `name`
/// printed, or the error of a failed one: output that does not read is an
/// error that holds it.
pub fn properties_from_output(success: bool, name: &str, stdout: &[u8], stderr: &[u8]) -> (r: Result<Properties, Error>)
    ensures
        success ==> match spec_properties(name@, utf8_lossy(stdout@)) {
            Some(v) => r matches Ok(p) && p@ == v,
            None => r matches Err(Error::UnknownSoFar(t)) && t@ == utf8_lossy(stdout@),
        },
        !success ==> (r matches Err(e) && stderr_error(e, stderr@)),
{
    if success {
        let text = decode_lossy(stdout);
        match properties_from_stdout(name, text.as_str()) {
            Some(p) => Ok(p),
            None => Err(Error::UnknownSoFar(text)),
        }
    } else {
        Err(Error::from_stderr(stderr))
    }
}

/// What a run of `zfs destroy` gives: success, or an unknown error.
pub fn destroy_result(success: bool) -> (r: Result<(), Error>)
    ensures
        success ==> r is Ok,
        !success ==> (r matches Err(e) && e is Unknown),
{
    if success {
        Ok(())
    } else {
        Err(Error::Unknown)
    }
}

/// Arguments of `zfs destroy`.
pub fn destroy_args(name: &str) -> (r: Vec<String>)
    ensures
        strings_view(r@) == seq!["destroy"@, name@],
{
    let r = vec!["destroy".to_owned(), name.to_owned()];
    assert(strings_view(r@) =~= seq!["destroy"@, name@]);
    r
}

/// Arguments of `zfs list` that list every dataset under `prefix` with its kind.
pub fn list_args(prefix: &str) -> (r: Vec<String>)
    ensures
        strings_view(r@) == seq!["list"@, "-t"@, "all"@, "-o"@, "type,name"@, "-Hpr"@, prefix@],
{
    let r = vec![
        "list".to_owned(),
        "-t".to_owned(),
        "all".to_owned(),
        "-o".to_owned(),
        "type,name".to_owned(),
        "-Hpr".to_owned(),
        prefix.to_owned(),
    ];
    assert(strings_view(r@) =~= seq!["list"@, "-t"@, "all"@, "-o"@, "type,name"@, "-Hpr"@, prefix@]);
    r
}

/// Arguments of `zfs list` that list the datasets of the type `kind`
/// (`filesystem`, `snapshot`, `bookmark` or `volume`) under `pool`.
pub fn list_kind_args(kind: &str, pool: &str) -> (r: Vec<String>)
    ensures
        strings_view(r@) == seq!["list"@, "-t"@, kind@, "-o"@, "name"@, "-Hpr"@, pool@],
{
    let r = vec![
        "list".to_owned(),
        "-t".to_owned(),
        kind.to_owned(),
        "-o".to_owned(),
        "name".to_owned(),
        "-Hpr".to_owned(),
        pool.to_owned(),
    ];
    assert(strings_view(r@) =~= seq!["list"@, "-t"@, kind@, "-o"@, "name"@, "-Hpr"@, pool@]);
    r
}

/// Arguments of `zfs get` that read every property of `path`.
pub fn read_properties_args(path: &str) -> (r: Vec<String>)
    ensures
        strings_view(r@) == seq!["get"@, "-Hp"@, "all"@, path@],
{
    let r = vec!["get".to_owned(), "-Hp".to_owned(), "all".to_owned(), path.to_owned()];
    assert(strings_view(r@) =~= seq!["get"@, "-Hp"@, "all"@, path@]);
    r
}

/// What a count reads as, none when it does not read.
pub open spec fn read_count(v: Seq<char>) -> Option<u64> {
    match spec_opt_num(v) {
        Some(x) => x,
        None => None,
    }
}

/// Whether the `j`-th pair is the last one whose key is `k`.
pub open spec fn last_at(ps: Seq<(Seq<char>, Seq<char>)>, k: Seq<char>, j: int) -> bool {
    &&& 0 <= j < ps.len()
    &&& ps[j].0 == k
    &&& forall|i: int| j < i < ps.len() ==> ps[i].0 != k
}

/// Whether no pair has the key `k`.
pub open spec fn absent(ps: Seq<(Seq<char>, Seq<char>)>, k: Seq<char>) -> bool {
    forall|i: int| 0 <= i < ps.len() ==> ps[i].0 != k
}

proof fn lemma_last_value_spots(ps: Seq<(Seq<char>, Seq<char>)>, k: Seq<char>)
    ensures
        forall|j: int| #[trigger] last_at(ps, k, j) ==> last_value(ps, k) == Some(ps[j].1),
        absent(ps, k) ==> last_value(ps, k) is None,
{
    assert forall|j: int| #[trigger] last_at(ps, k, j) implies last_value(ps, k) == Some(ps[j].1) by {
        lemma_last_value_found(ps, k, j);
    }
    if absent(ps, k) {
        lemma_last_value_none(ps, k);
    }
}

/// Each field of the filesystem properties read from the pairs `ps` is what
/// the value of the last pair named after that field's property reads as,
/// and an optional field whose property is missing is absent.
#[verifier::rlimit(100)]
pub proof fn lemma_filesystem_fields_come_from_their_properties(name: Seq<char>, ps: Seq<(Seq<char>, Seq<char>)>)
    requires
        spec_filesystem(name, ps) is Some,
    ensures
        ({
            let v = spec_filesystem(name, ps)->0;
            &&& v.name == name
            &&& forall|j: int| #[trigger] last_at(ps, "aclinherit"@, j) ==> AclInheritMode::spec_from_name(ps[j].1) == Some(v.acl_inherit)
            &&& absent(ps, "aclmode"@) ==> v.acl_mode is None
            &&& forall|j: int| #[trigger] last_at(ps, "aclmode"@, j) ==> v.acl_mode == AclMode::spec_from_name(ps[j].1)
            &&& forall|j: int| #[trigger] last_at(ps, "atime"@, j) ==> Some(spec_parse_bool(ps[j].1)) == Some(v.atime)
            &&& forall|j: int| #[trigger] last_at(ps, "available"@, j) ==> spec_parse_i64(ps[j].1) == Some(v.available)
            &&& forall|j: int| #[trigger] last_at(ps, "canmount"@, j) ==> CanMount::spec_from_name(ps[j].1) == Some(v.can_mount)
            &&& forall|j: int| #[trigger] last_at(ps, "casesensitivity"@, j) ==> CaseSensitivity::spec_from_name(ps[j].1) == Some(v.case_sensitivity)
            &&& forall|j: int| #[trigger] last_at(ps, "checksum"@, j) ==> Checksum::spec_from_name(ps[j].1) == Some(v.checksum)
            &&& forall|j: int| #[trigger] last_at(ps, "compression"@, j) ==> Compression::spec_from_name(ps[j].1) == Some(v.compression)
            &&& forall|j: int| #[trigger] last_at(ps, "compressratio"@, j) ==> Some(strip_last(ps[j].1, 'x')) == Some(v.compression_ratio)
            &&& forall|j: int| #[trigger] last_at(ps, "copies"@, j) ==> Copies::spec_from_name(ps[j].1) == Some(v.copies)
            &&& absent(ps, "createtxg"@) ==> v.create_txg is None
            &&& forall|j: int| #[trigger] last_at(ps, "createtxg"@, j) ==> v.create_txg == spec_parse_u64(ps[j].1)
            &&& forall|j: int| #[trigger] last_at(ps, "creation"@, j) ==> spec_parse_i64(ps[j].1) == Some(v.creation)
            &&& forall|j: int| #[trigger] last_at(ps, "dedup"@, j) ==> Dedup::spec_from_name(ps[j].1) == Some(v.dedup)
            &&& forall|j: int| #[trigger] last_at(ps, "devices"@, j) ==> Some(spec_parse_bool(ps[j].1)) == Some(v.devices)
            &&& forall|j: int| #[trigger] last_at(ps, "dnodesize"@, j) ==> DnodeSize::spec_from_name(ps[j].1) == Some(v.dnode_size)
            &&& forall|j: int| #[trigger] last_at(ps, "exec"@, j) ==> Some(spec_parse_bool(ps[j].1)) == Some(v.executable)
            &&& absent(ps, "filesystem_count"@) ==> v.filesystem_count is None
            &&& forall|j: int| #[trigger] last_at(ps, "filesystem_count"@, j) ==> v.filesystem_count == read_count(ps[j].1)
            &&& absent(ps, "filesystem_limit"@) ==> v.filesystem_limit is None
            &&& forall|j: int| #[trigger] last_at(ps, "filesystem_limit"@, j) ==> v.filesystem_limit == read_count(ps[j].1)
            &&& absent(ps, "guid"@) ==> v.guid is None
            &&& forall|j: int| #[trigger] last_at(ps, "guid"@, j) ==> v.guid == spec_parse_u64(ps[j].1)
            &&& absent(ps, "jailed"@) ==> v.jailed is None
            &&& forall|j: int| #[trigger] last_at(ps, "jailed"@, j) ==> v.jailed == Some(spec_parse_bool(ps[j].1))
            &&& forall|j: int| #[trigger] last_at(ps, "logbias"@, j) ==> LogBias::spec_from_name(ps[j].1) == Some(v.log_bias)
            &&& forall|j: int| #[trigger] last_at(ps, "logicalreferenced"@, j) ==> spec_parse_u64(ps[j].1) == Some(v.logical_referenced)
            &&& forall|j: int| #[trigger] last_at(ps, "logicalused"@, j) ==> spec_parse_u64(ps[j].1) == Some(v.logical_used)
            &&& absent(ps, "mlslabel"@) ==> v.mls_label is None
            &&& forall|j: int| #[trigger] last_at(ps, "mlslabel"@, j) ==> v.mls_label == spec_mls_label(ps[j].1)
            &&& forall|j: int| #[trigger] last_at(ps, "mounted"@, j) ==> Some(spec_parse_bool(ps[j].1)) == Some(v.mounted)
            &&& absent(ps, "mountpoint"@) ==> v.mount_point is None
            &&& forall|j: int| #[trigger] last_at(ps, "mountpoint"@, j) ==> v.mount_point == spec_mount_point(ps[j].1)
            &&& forall|j: int| #[trigger] last_at(ps, "nbmand"@, j) ==> Some(spec_parse_bool(ps[j].1)) == Some(v.nbmand)
            &&& forall|j: int| #[trigger] last_at(ps, "normalization"@, j) ==> Normalization::spec_from_name(ps[j].1) == Some(v.normalization)
            &&& absent(ps, "origin"@) ==> v.origin is None
            &&& forall|j: int| #[trigger] last_at(ps, "origin"@, j) ==> v.origin == Some(ps[j].1)
            &&& forall|j: int| #[trigger] last_at(ps, "primarycache"@, j) ==> CacheMode::spec_from_name(ps[j].1) == Some(v.primary_cache)
            &&& forall|j: int| #[trigger] last_at(ps, "quota"@, j) ==> spec_parse_u64(ps[j].1) == Some(v.quota)
            &&& forall|j: int| #[trigger] last_at(ps, "readonly"@, j) ==> Some(spec_parse_bool(ps[j].1)) == Some(v.readonly)
            &&& forall|j: int| #[trigger] last_at(ps, "recordsize"@, j) ==> spec_parse_u64(ps[j].1) == Some(v.record_size)
            &&& forall|j: int| #[trigger] last_at(ps, "redundant_metadata"@, j) ==> RedundantMetadata::spec_from_name(ps[j].1) == Some(v.redundant_metadata)
            &&& forall|j: int| #[trigger] last_at(ps, "refcompressratio"@, j) ==> Some(strip_last(ps[j].1, 'x')) == Some(v.ref_compression_ratio)
            &&& forall|j: int| #[trigger] last_at(ps, "referenced"@, j) ==> spec_parse_u64(ps[j].1) == Some(v.referenced)
            &&& forall|j: int| #[trigger] last_at(ps, "refquota"@, j) ==> spec_parse_u64(ps[j].1) == Some(v.ref_quota)
            &&& forall|j: int| #[trigger] last_at(ps, "refreservation"@, j) ==> spec_parse_u64(ps[j].1) == Some(v.ref_reservation)
            &&& forall|j: int| #[trigger] last_at(ps, "reservation"@, j) ==> spec_parse_u64(ps[j].1) == Some(v.reservation)
            &&& forall|j: int| #[trigger] last_at(ps, "secondarycache"@, j) ==> CacheMode::spec_from_name(ps[j].1) == Some(v.secondary_cache)
            &&& forall|j: int| #[trigger] last_at(ps, "setuid"@, j) ==> Some(spec_parse_bool(ps[j].1)) == Some(v.setuid)
            &&& forall|j: int| #[trigger] last_at(ps, "snapdir"@, j) ==> SnapDir::spec_from_name(ps[j].1) == Some(v.snap_dir)
            &&& absent(ps, "snapshot_count"@) ==> v.snapshot_count is None
            &&& forall|j: int| #[trigger] last_at(ps, "snapshot_count"@, j) ==> v.snapshot_count == read_count(ps[j].1)
            &&& absent(ps, "snapshot_limit"@) ==> v.snapshot_limit is None
            &&& forall|j: int| #[trigger] last_at(ps, "snapshot_limit"@, j) ==> v.snapshot_limit == read_count(ps[j].1)
            &&& forall|j: int| #[trigger] last_at(ps, "sync"@, j) ==> SyncMode::spec_from_name(ps[j].1) == Some(v.sync)
            &&& forall|j: int| #[trigger] last_at(ps, "used"@, j) ==> spec_parse_u64(ps[j].1) == Some(v.used)
            &&& forall|j: int| #[trigger] last_at(ps, "usedbychildren"@, j) ==> spec_parse_u64(ps[j].1) == Some(v.used_by_children)
            &&& forall|j: int| #[trigger] last_at(ps, "usedbydataset"@, j) ==> spec_parse_u64(ps[j].1) == Some(v.used_by_dataset)
            &&& forall|j: int| #[trigger] last_at(ps, "usedbyrefreservation"@, j) ==> spec_parse_u64(ps[j].1) == Some(v.used_by_ref_reservation)
            &&& forall|j: int| #[trigger] last_at(ps, "usedbysnapshots"@, j) ==> spec_parse_u64(ps[j].1) == Some(v.used_by_snapshots)
            &&& absent(ps, "utf8only"@) ==> v.utf8_only is None
            &&& forall|j: int| #[trigger] last_at(ps, "utf8only"@, j) ==> v.utf8_only == Some(spec_parse_bool(ps[j].1))
            &&& forall|j: int| #[trigger] last_at(ps, "version"@, j) ==> spec_parse_u64(ps[j].1) == Some(v.version)
            &&& absent(ps, "volmode"@) ==> v.volume_mode is None
            &&& forall|j: int| #[trigger] last_at(ps, "volmode"@, j) ==> v.volume_mode == VolumeMode::spec_from_name(ps[j].1)
            &&& forall|j: int| #[trigger] last_at(ps, "vscan"@, j) ==> Some(spec_parse_bool(ps[j].1)) == Some(v.vscan)
            &&& forall|j: int| #[trigger] last_at(ps, "written"@, j) ==> spec_parse_u64(ps[j].1) == Some(v.written)
            &&& forall|j: int| #[trigger] last_at(ps, "xattr"@, j) ==> Some(spec_parse_bool(ps[j].1)) == Some(v.xattr)
        }),
{
    let v = spec_filesystem(name, ps)->0;
    assert(v == filesystem_view(name, ps));
    assert forall|j: int| #[trigger] last_at(ps, "aclinherit"@, j) implies AclInheritMode::spec_from_name(ps[j].1) == Some(v.acl_inherit) by {
        lemma_last_value_found(ps, "aclinherit"@, j);
        assert(filesystem_value_ok(ps[j].0, ps[j].1));
    }
    if absent(ps, "aclmode"@) {
        lemma_last_value_none(ps, "aclmode"@);
    }
    assert forall|j: int| #[trigger] last_at(ps, "aclmode"@, j) implies v.acl_mode == AclMode::spec_from_name(ps[j].1) by {
        lemma_last_value_found(ps, "aclmode"@, j);
        assert(filesystem_value_ok(ps[j].0, ps[j].1));
    }
    assert forall|j: int| #[trigger] last_at(ps, "atime"@, j) implies Some(spec_parse_bool(ps[j].1)) == Some(v.atime) by {
        lemma_last_value_found(ps, "atime"@, j);
        assert(filesystem_value_ok(ps[j].0, ps[j].1));
    }
    assert forall|j: int| #[trigger] last_at(ps, "available"@, j) implies spec_parse_i64(ps[j].1) == Some(v.available) by {
        lemma_last_value_found(ps, "available"@, j);
        assert(filesystem_value_ok(ps[j].0, ps[j].1));
    }
    assert forall|j: int| #[trigger] last_at(ps, "canmount"@, j) implies CanMount::spec_from_name(ps[j].1) == Some(v.can_mount) by {
        lemma_last_value_found(ps, "canmount"@, j);
        assert(filesystem_value_ok(ps[j].0, ps[j].1));
    }
    assert forall|j: int| #[trigger] last_at(ps, "casesensitivity"@, j) implies CaseSensitivity::spec_from_name(ps[j].1) == Some(v.case_sensitivity) by {
        lemma_last_value_found(ps, "casesensitivity"@, j);
        assert(filesystem_value_ok(ps[j].0, ps[j].1));
    }
    assert forall|j: int| #[trigger] last_at(ps, "checksum"@, j) implies Checksum::spec_from_name(ps[j].1) == Some(v.checksum) by {
        lemma_last_value_found(ps, "checksum"@, j);
        assert(filesystem_value_ok(ps[j].0, ps[j].1));
    }
    assert forall|j: int| #[trigger] last_at(ps, "compression"@, j) implies Compression::spec_from_name(ps[j].1) == Some(v.compression) by {
        lemma_last_value_found(ps, "compression"@, j);
        assert(filesystem_value_ok(ps[j].0, ps[j].1));
    }
    assert forall|j: int| #[trigger] last_at(ps, "compressratio"@, j) implies Some(strip_last(ps[j].1, 'x')) == Some(v.compression_ratio) by {
        lemma_last_value_found(ps, "compressratio"@, j);
        assert(filesystem_value_ok(ps[j].0, ps[j].1));
    }
    assert forall|j: int| #[trigger] last_at(ps, "copies"@, j) implies Copies::spec_from_name(ps[j].1) == Some(v.copies) by {
        lemma_last_value_found(ps, "copies"@, j);
        assert(filesystem_value_ok(ps[j].0, ps[j].1));
    }
    if absent(ps, "createtxg"@) {
        lemma_last_value_none(ps, "createtxg"@);
    }
    assert forall|j: int| #[trigger] last_at(ps, "createtxg"@, j) implies v.create_txg == spec_parse_u64(ps[j].1) by {
        lemma_last_value_found(ps, "createtxg"@, j);
        assert(filesystem_value_ok(ps[j].0, ps[j].1));
    }
    assert forall|j: int| #[trigger] last_at(ps, "creation"@, j) implies spec_parse_i64(ps[j].1) == Some(v.creation) by {
        lemma_last_value_found(ps, "creation"@, j);
        assert(filesystem_value_ok(ps[j].0, ps[j].1));
    }
    assert forall|j: int| #[trigger] last_at(ps, "dedup"@, j) implies Dedup::spec_from_name(ps[j].1) == Some(v.dedup) by {
        lemma_last_value_found(ps, "dedup"@, j);
        assert(filesystem_value_ok(ps[j].0, ps[j].1));
    }
    assert forall|j: int| #[trigger] last_at(ps, "devices"@, j) implies Some(spec_parse_bool(ps[j].1)) == Some(v.devices) by {
        lemma_last_value_found(ps, "devices"@, j);
        assert(filesystem_value_ok(ps[j].0, ps[j].1));
    }
    assert forall|j: int| #[trigger] last_at(ps, "dnodesize"@, j) implies DnodeSize::spec_from_name(ps[j].1) == Some(v.dnode_size) by {
        lemma_last_value_found(ps, "dnodesize"@, j);
        assert(filesystem_value_ok(ps[j].0, ps[j].1));
    }
    assert forall|j: int| #[trigger] last_at(ps, "exec"@, j) implies Some(spec_parse_bool(ps[j].1)) == Some(v.executable) by {
        lemma_last_value_found(ps, "exec"@, j);
        assert(filesystem_value_ok(ps[j].0, ps[j].1));
    }
    if absent(ps, "filesystem_count"@) {
        lemma_last_value_none(ps, "filesystem_count"@);
    }
    assert forall|j: int| #[trigger] last_at(ps, "filesystem_count"@, j) implies v.filesystem_count == read_count(ps[j].1) by {
        lemma_last_value_found(ps, "filesystem_count"@, j);
        assert(filesystem_value_ok(ps[j].0, ps[j].1));
    }
    if absent(ps, "filesystem_limit"@) {
        lemma_last_value_none(ps, "filesystem_limit"@);
    }
    assert forall|j: int| #[trigger] last_at(ps, "filesystem_limit"@, j) implies v.filesystem_limit == read_count(ps[j].1) by {
        lemma_last_value_found(ps, "filesystem_limit"@, j);
        assert(filesystem_value_ok(ps[j].0, ps[j].1));
    }
    if absent(ps, "guid"@) {
        lemma_last_value_none(ps, "guid"@);
    }
    assert forall|j: int| #[trigger] last_at(ps, "guid"@, j) implies v.guid == spec_parse_u64(ps[j].1) by {
        lemma_last_value_found(ps, "guid"@, j);
        assert(filesystem_value_ok(ps[j].0, ps[j].1));
    }
    if absent(ps, "jailed"@) {
        lemma_last_value_none(ps, "jailed"@);
    }
    assert forall|j: int| #[trigger] last_at(ps, "jailed"@, j) implies v.jailed == Some(spec_parse_bool(ps[j].1)) by {
        lemma_last_value_found(ps, "jailed"@, j);
        assert(filesystem_value_ok(ps[j].0, ps[j].1));
    }
    assert forall|j: int| #[trigger] last_at(ps, "logbias"@, j) implies LogBias::spec_from_name(ps[j].1) == Some(v.log_bias) by {
        lemma_last_value_found(ps, "logbias"@, j);
        assert(filesystem_value_ok(ps[j].0, ps[j].1));
    }
    assert forall|j: int| #[trigger] last_at(ps, "logicalreferenced"@, j) implies spec_parse_u64(ps[j].1) == Some(v.logical_referenced) by {
        lemma_last_value_found(ps, "logicalreferenced"@, j);
        assert(filesystem_value_ok(ps[j].0, ps[j].1));
    }
    assert forall|j: int| #[trigger] last_at(ps, "logicalused"@, j) implies spec_parse_u64(ps[j].1) == Some(v.logical_used) by {
        lemma_last_value_found(ps, "logicalused"@, j);
        assert(filesystem_value_ok(ps[j].0, ps[j].1));
    }
    if absent(ps, "mlslabel"@) {
        lemma_last_value_none(ps, "mlslabel"@);
    }
    assert forall|j: int| #[trigger] last_at(ps, "mlslabel"@, j) implies v.mls_label == spec_mls_label(ps[j].1) by {
        lemma_last_value_found(ps, "mlslabel"@, j);
        assert(filesystem_value_ok(ps[j].0, ps[j].1));
    }
    assert forall|j: int| #[trigger] last_at(ps, "mounted"@, j) implies Some(spec_parse_bool(ps[j].1)) == Some(v.mounted) by {
        lemma_last_value_found(ps, "mounted"@, j);
        assert(filesystem_value_ok(ps[j].0, ps[j].1));
    }
    if absent(ps, "mountpoint"@) {
        lemma_last_value_none(ps, "mountpoint"@);
    }
    assert forall|j: int| #[trigger] last_at(ps, "mountpoint"@, j) implies v.mount_point == spec_mount_point(ps[j].1) by {
        lemma_last_value_found(ps, "mountpoint"@, j);
        assert(filesystem_value_ok(ps[j].0, ps[j].1));
    }
    assert forall|j: int| #[trigger] last_at(ps, "nbmand"@, j) implies Some(spec_parse_bool(ps[j].1)) == Some(v.nbmand) by {
        lemma_last_value_found(ps, "nbmand"@, j);
        assert(filesystem_value_ok(ps[j].0, ps[j].1));
    }
    assert forall|j: int| #[trigger] last_at(ps, "normalization"@, j) implies Normalization::spec_from_name(ps[j].1) == Some(v.normalization) by {
        lemma_last_value_found(ps, "normalization"@, j);
        assert(filesystem_value_ok(ps[j].0, ps[j].1));
    }
    if absent(ps, "origin"@) {
        lemma_last_value_none(ps, "origin"@);
    }
    assert forall|j: int| #[trigger] last_at(ps, "origin"@, j) implies v.origin == Some(ps[j].1) by {
        lemma_last_value_found(ps, "origin"@, j);
        assert(filesystem_value_ok(ps[j].0, ps[j].1));
    }
    assert forall|j: int| #[trigger] last_at(ps, "primarycache"@, j) implies CacheMode::spec_from_name(ps[j].1) == Some(v.primary_cache) by {
        lemma_last_value_found(ps, "primarycache"@, j);
        assert(filesystem_value_ok(ps[j].0, ps[j].1));
    }
    assert forall|j: int| #[trigger] last_at(ps, "quota"@, j) implies spec_parse_u64(ps[j].1) == Some(v.quota) by {
        lemma_last_value_found(ps, "quota"@, j);
        assert(filesystem_value_ok(ps[j].0, ps[j].1));
    }
    assert forall|j: int| #[trigger] last_at(ps, "readonly"@, j) implies Some(spec_parse_bool(ps[j].1)) == Some(v.readonly) by {
        lemma_last_value_found(ps, "readonly"@, j);
        assert(filesystem_value_ok(ps[j].0, ps[j].1));
    }
    assert forall|j: int| #[trigger] last_at(ps, "recordsize"@, j) implies spec_parse_u64(ps[j].1) == Some(v.record_size) by {
        lemma_last_value_found(ps, "recordsize"@, j);
        assert(filesystem_value_ok(ps[j].0, ps[j].1));
    }
    assert forall|j: int| #[trigger] last_at(ps, "redundant_metadata"@, j) implies RedundantMetadata::spec_from_name(ps[j].1) == Some(v.redundant_metadata) by {
        lemma_last_value_found(ps, "redundant_metadata"@, j);
        assert(filesystem_value_ok(ps[j].0, ps[j].1));
    }
    assert forall|j: int| #[trigger] last_at(ps, "refcompressratio"@, j) implies Some(strip_last(ps[j].1, 'x')) == Some(v.ref_compression_ratio) by {
        lemma_last_value_found(ps, "refcompressratio"@, j);
        assert(filesystem_value_ok(ps[j].0, ps[j].1));
    }
    assert forall|j: int| #[trigger] last_at(ps, "referenced"@, j) implies spec_parse_u64(ps[j].1) == Some(v.referenced) by {
        lemma_last_value_found(ps, "referenced"@, j);
        assert(filesystem_value_ok(ps[j].0, ps[j].1));
    }
    assert forall|j: int| #[trigger] last_at(ps, "refquota"@, j) implies spec_parse_u64(ps[j].1) == Some(v.ref_quota) by {
        lemma_last_value_found(ps, "refquota"@, j);
        assert(filesystem_value_ok(ps[j].0, ps[j].1));
    }
    assert forall|j: int| #[trigger] last_at(ps, "refreservation"@, j) implies spec_parse_u64(ps[j].1) == Some(v.ref_reservation) by {
        lemma_last_value_found(ps, "refreservation"@, j);
        assert(filesystem_value_ok(ps[j].0, ps[j].1));
    }
    assert forall|j: int| #[trigger] last_at(ps, "reservation"@, j) implies spec_parse_u64(ps[j].1) == Some(v.reservation) by {
        lemma_last_value_found(ps, "reservation"@, j);
        assert(filesystem_value_ok(ps[j].0, ps[j].1));
    }
    assert forall|j: int| #[trigger] last_at(ps, "secondarycache"@, j) implies CacheMode::spec_from_name(ps[j].1) == Some(v.secondary_cache) by {
        lemma_last_value_found(ps, "secondarycache"@, j);
        assert(filesystem_value_ok(ps[j].0, ps[j].1));
    }
    assert forall|j: int| #[trigger] last_at(ps, "setuid"@, j) implies Some(spec_parse_bool(ps[j].1)) == Some(v.setuid) by {
        lemma_last_value_found(ps, "setuid"@, j);
        assert(filesystem_value_ok(ps[j].0, ps[j].1));
    }
    assert forall|j: int| #[trigger] last_at(ps, "snapdir"@, j) implies SnapDir::spec_from_name(ps[j].1) == Some(v.snap_dir) by {
        lemma_last_value_found(ps, "snapdir"@, j);
        assert(filesystem_value_ok(ps[j].0, ps[j].1));
    }
    if absent(ps, "snapshot_count"@) {
        lemma_last_value_none(ps, "snapshot_count"@);
    }
    assert forall|j: int| #[trigger] last_at(ps, "snapshot_count"@, j) implies v.snapshot_count == read_count(ps[j].1) by {
        lemma_last_value_found(ps, "snapshot_count"@, j);
        assert(filesystem_value_ok(ps[j].0, ps[j].1));
    }
    if absent(ps, "snapshot_limit"@) {
        lemma_last_value_none(ps, "snapshot_limit"@);
    }
    assert forall|j: int| #[trigger] last_at(ps, "snapshot_limit"@, j) implies v.snapshot_limit == read_count(ps[j].1) by {
        lemma_last_value_found(ps, "snapshot_limit"@, j);
        assert(filesystem_value_ok(ps[j].0, ps[j].1));
    }
    assert forall|j: int| #[trigger] last_at(ps, "sync"@, j) implies SyncMode::spec_from_name(ps[j].1) == Some(v.sync) by {
        lemma_last_value_found(ps, "sync"@, j);
        assert(filesystem_value_ok(ps[j].0, ps[j].1));
    }
    assert forall|j: int| #[trigger] last_at(ps, "used"@, j) implies spec_parse_u64(ps[j].1) == Some(v.used) by {
        lemma_last_value_found(ps, "used"@, j);
        assert(filesystem_value_ok(ps[j].0, ps[j].1));
    }
    assert forall|j: int| #[trigger] last_at(ps, "usedbychildren"@, j) implies spec_parse_u64(ps[j].1) == Some(v.used_by_children) by {
        lemma_last_value_found(ps, "usedbychildren"@, j);
        assert(filesystem_value_ok(ps[j].0, ps[j].1));
    }
    assert forall|j: int| #[trigger] last_at(ps, "usedbydataset"@, j) implies spec_parse_u64(ps[j].1) == Some(v.used_by_dataset) by {
        lemma_last_value_found(ps, "usedbydataset"@, j);
        assert(filesystem_value_ok(ps[j].0, ps[j].1));
    }
    assert forall|j: int| #[trigger] last_at(ps, "usedbyrefreservation"@, j) implies spec_parse_u64(ps[j].1) == Some(v.used_by_ref_reservation) by {
        lemma_last_value_found(ps, "usedbyrefreservation"@, j);
        assert(filesystem_value_ok(ps[j].0, ps[j].1));
    }
    assert forall|j: int| #[trigger] last_at(ps, "usedbysnapshots"@, j) implies spec_parse_u64(ps[j].1) == Some(v.used_by_snapshots) by {
        lemma_last_value_found(ps, "usedbysnapshots"@, j);
        assert(filesystem_value_ok(ps[j].0, ps[j].1));
    }
    if absent(ps, "utf8only"@) {
        lemma_last_value_none(ps, "utf8only"@);
    }
    assert forall|j: int| #[trigger] last_at(ps, "utf8only"@, j) implies v.utf8_only == Some(spec_parse_bool(ps[j].1)) by {
        lemma_last_value_found(ps, "utf8only"@, j);
        assert(filesystem_value_ok(ps[j].0, ps[j].1));
    }
    assert forall|j: int| #[trigger] last_at(ps, "version"@, j) implies spec_parse_u64(ps[j].1) == Some(v.version) by {
        lemma_last_value_found(ps, "version"@, j);
        assert(filesystem_value_ok(ps[j].0, ps[j].1));
    }
    if absent(ps, "volmode"@) {
        lemma_last_value_none(ps, "volmode"@);
    }
    assert forall|j: int| #[trigger] last_at(ps, "volmode"@, j) implies v.volume_mode == VolumeMode::spec_from_name(ps[j].1) by {
        lemma_last_value_found(ps, "volmode"@, j);
        assert(filesystem_value_ok(ps[j].0, ps[j].1));
    }
    assert forall|j: int| #[trigger] last_at(ps, "vscan"@, j) implies Some(spec_parse_bool(ps[j].1)) == Some(v.vscan) by {
        lemma_last_value_found(ps, "vscan"@, j);
        assert(filesystem_value_ok(ps[j].0, ps[j].1));
    }
    assert forall|j: int| #[trigger] last_at(ps, "written"@, j) implies spec_parse_u64(ps[j].1) == Some(v.written) by {
        lemma_last_value_found(ps, "written"@, j);
        assert(filesystem_value_ok(ps[j].0, ps[j].1));
    }
    assert forall|j: int| #[trigger] last_at(ps, "xattr"@, j) implies Some(spec_parse_bool(ps[j].1)) == Some(v.xattr) by {
        lemma_last_value_found(ps, "xattr"@, j);
        assert(filesystem_value_ok(ps[j].0, ps[j].1));
    }
}

/// Each field of the volume properties read from the pairs `ps` is what
/// the value of the last pair named after that field's property reads as,
/// and an optional field whose property is missing is absent.
#[verifier::rlimit(100)]
pub proof fn lemma_volume_fields_come_from_their_properties(name: Seq<char>, ps: Seq<(Seq<char>, Seq<char>)>)
    requires
        spec_volume(name, ps) is Some,
    ensures
        ({
            let v = spec_volume(name, ps)->0;
            &&& v.name == name
            &&& forall|j: int| #[trigger] last_at(ps, "available"@, j) ==> spec_parse_i64(ps[j].1) == Some(v.available)
            &&& forall|j: int| #[trigger] last_at(ps, "checksum"@, j) ==> Checksum::spec_from_name(ps[j].1) == Some(v.checksum)
            &&& forall|j: int| #[trigger] last_at(ps, "compression"@, j) ==> Compression::spec_from_name(ps[j].1) == Some(v.compression)
            &&& forall|j: int| #[trigger] last_at(ps, "compressratio"@, j) ==> Some(strip_last(ps[j].1, 'x')) == Some(v.compression_ratio)
            &&& forall|j: int| #[trigger] last_at(ps, "copies"@, j) ==> Copies::spec_from_name(ps[j].1) == Some(v.copies)
            &&& absent(ps, "createtxg"@) ==> v.create_txg is None
            &&& forall|j: int| #[trigger] last_at(ps, "createtxg"@, j) ==> v.create_txg == spec_parse_u64(ps[j].1)
            &&& forall|j: int| #[trigger] last_at(ps, "creation"@, j) ==> spec_parse_i64(ps[j].1) == Some(v.creation)
            &&& forall|j: int| #[trigger] last_at(ps, "dedup"@, j) ==> Dedup::spec_from_name(ps[j].1) == Some(v.dedup)
            &&& absent(ps, "guid"@) ==> v.guid is None
            &&& forall|j: int| #[trigger] last_at(ps, "guid"@, j) ==> v.guid == spec_parse_u64(ps[j].1)
            &&& forall|j: int| #[trigger] last_at(ps, "logbias"@, j) ==> LogBias::spec_from_name(ps[j].1) == Some(v.log_bias)
            &&& forall|j: int| #[trigger] last_at(ps, "logicalreferenced"@, j) ==> spec_parse_u64(ps[j].1) == Some(v.logical_referenced)
            &&& forall|j: int| #[trigger] last_at(ps, "logicalused"@, j) ==> spec_parse_u64(ps[j].1) == Some(v.logical_used)
            &&& absent(ps, "mlslabel"@) ==> v.mls_label is None
            &&& forall|j: int| #[trigger] last_at(ps, "mlslabel"@, j) ==> v.mls_label == spec_mls_label(ps[j].1)
            &&& forall|j: int| #[trigger] last_at(ps, "primarycache"@, j) ==> CacheMode::spec_from_name(ps[j].1) == Some(v.primary_cache)
            &&& forall|j: int| #[trigger] last_at(ps, "readonly"@, j) ==> Some(spec_parse_bool(ps[j].1)) == Some(v.readonly)
            &&& forall|j: int| #[trigger] last_at(ps, "redundant_metadata"@, j) ==> RedundantMetadata::spec_from_name(ps[j].1) == Some(v.redundant_metadata)
            &&& forall|j: int| #[trigger] last_at(ps, "refcompressratio"@, j) ==> Some(strip_last(ps[j].1, 'x')) == Some(v.ref_compression_ratio)
            &&& forall|j: int| #[trigger] last_at(ps, "referenced"@, j) ==> spec_parse_u64(ps[j].1) == Some(v.referenced)
            &&& forall|j: int| #[trigger] last_at(ps, "refreservation"@, j) ==> spec_parse_u64(ps[j].1) == Some(v.ref_reservation)
            &&& forall|j: int| #[trigger] last_at(ps, "reservation"@, j) ==> spec_parse_u64(ps[j].1) == Some(v.reservation)
            &&& forall|j: int| #[trigger] last_at(ps, "secondarycache"@, j) ==> CacheMode::spec_from_name(ps[j].1) == Some(v.secondary_cache)
            &&& absent(ps, "snapshot_count"@) ==> v.snapshot_count is None
            &&& forall|j: int| #[trigger] last_at(ps, "snapshot_count"@, j) ==> v.snapshot_count == read_count(ps[j].1)
            &&& absent(ps, "snapshot_limit"@) ==> v.snapshot_limit is None
            &&& forall|j: int| #[trigger] last_at(ps, "snapshot_limit"@, j) ==> v.snapshot_limit == read_count(ps[j].1)
            &&& forall|j: int| #[trigger] last_at(ps, "sync"@, j) ==> SyncMode::spec_from_name(ps[j].1) == Some(v.sync)
            &&& forall|j: int| #[trigger] last_at(ps, "used"@, j) ==> spec_parse_u64(ps[j].1) == Some(v.used)
            &&& forall|j: int| #[trigger] last_at(ps, "usedbychildren"@, j) ==> spec_parse_u64(ps[j].1) == Some(v.used_by_children)
            &&& forall|j: int| #[trigger] last_at(ps, "usedbydataset"@, j) ==> spec_parse_u64(ps[j].1) == Some(v.used_by_dataset)
            &&& forall|j: int| #[trigger] last_at(ps, "usedbyrefreservation"@, j) ==> spec_parse_u64(ps[j].1) == Some(v.used_by_ref_reservation)
            &&& forall|j: int| #[trigger] last_at(ps, "usedbysnapshots"@, j) ==> spec_parse_u64(ps[j].1) == Some(v.used_by_snapshots)
            &&& forall|j: int| #[trigger] last_at(ps, "volblocksize"@, j) ==> spec_parse_u64(ps[j].1) == Some(v.volume_block_size)
            &&& absent(ps, "volmode"@) ==> v.volume_mode is None
            &&& forall|j: int| #[trigger] last_at(ps, "volmode"@, j) ==> v.volume_mode == VolumeMode::spec_from_name(ps[j].1)
            &&& forall|j: int| #[trigger] last_at(ps, "volsize"@, j) ==> spec_parse_u64(ps[j].1) == Some(v.volume_size)
            &&& forall|j: int| #[trigger] last_at(ps, "written"@, j) ==> spec_parse_u64(ps[j].1) == Some(v.written)
        }),
{
    let v = spec_volume(name, ps)->0;
    assert(v == volume_view(name, ps));
    assert forall|j: int| #[trigger] last_at(ps, "available"@, j) implies spec_parse_i64(ps[j].1) == Some(v.available) by {
        lemma_last_value_found(ps, "available"@, j);
        assert(volume_value_ok(ps[j].0, ps[j].1));
    }
    assert forall|j: int| #[trigger] last_at(ps, "checksum"@, j) implies Checksum::spec_from_name(ps[j].1) == Some(v.checksum) by {
        lemma_last_value_found(ps, "checksum"@, j);
        assert(volume_value_ok(ps[j].0, ps[j].1));
    }
    assert forall|j: int| #[trigger] last_at(ps, "compression"@, j) implies Compression::spec_from_name(ps[j].1) == Some(v.compression) by {
        lemma_last_value_found(ps, "compression"@, j);
        assert(volume_value_ok(ps[j].0, ps[j].1));
    }
    assert forall|j: int| #[trigger] last_at(ps, "compressratio"@, j) implies Some(strip_last(ps[j].1, 'x')) == Some(v.compression_ratio) by {
        lemma_last_value_found(ps, "compressratio"@, j);
        assert(volume_value_ok(ps[j].0, ps[j].1));
    }
    assert forall|j: int| #[trigger] last_at(ps, "copies"@, j) implies Copies::spec_from_name(ps[j].1) == Some(v.copies) by {
        lemma_last_value_found(ps, "copies"@, j);
        assert(volume_value_ok(ps[j].0, ps[j].1));
    }
    if absent(ps, "createtxg"@) {
        lemma_last_value_none(ps, "createtxg"@);
    }
    assert forall|j: int| #[trigger] last_at(ps, "createtxg"@, j) implies v.create_txg == spec_parse_u64(ps[j].1) by {
        lemma_last_value_found(ps, "createtxg"@, j);
        assert(volume_value_ok(ps[j].0, ps[j].1));
    }
    assert forall|j: int| #[trigger] last_at(ps, "creation"@, j) implies spec_parse_i64(ps[j].1) == Some(v.creation) by {
        lemma_last_value_found(ps, "creation"@, j);
        assert(volume_value_ok(ps[j].0, ps[j].1));
    }
    assert forall|j: int| #[trigger] last_at(ps, "dedup"@, j) implies Dedup::spec_from_name(ps[j].1) == Some(v.dedup) by {
        lemma_last_value_found(ps, "dedup"@, j);
        assert(volume_value_ok(ps[j].0, ps[j].1));
    }
    if absent(ps, "guid"@) {
        lemma_last_value_none(ps, "guid"@);
    }
    assert forall|j: int| #[trigger] last_at(ps, "guid"@, j) implies v.guid == spec_parse_u64(ps[j].1) by {
        lemma_last_value_found(ps, "guid"@, j);
        assert(volume_value_ok(ps[j].0, ps[j].1));
    }
    assert forall|j: int| #[trigger] last_at(ps, "logbias"@, j) implies LogBias::spec_from_name(ps[j].1) == Some(v.log_bias) by {
        lemma_last_value_found(ps, "logbias"@, j);
        assert(volume_value_ok(ps[j].0, ps[j].1));
    }
    assert forall|j: int| #[trigger] last_at(ps, "logicalreferenced"@, j) implies spec_parse_u64(ps[j].1) == Some(v.logical_referenced) by {
        lemma_last_value_found(ps, "logicalreferenced"@, j);
        assert(volume_value_ok(ps[j].0, ps[j].1));
    }
    assert forall|j: int| #[trigger] last_at(ps, "logicalused"@, j) implies spec_parse_u64(ps[j].1) == Some(v.logical_used) by {
        lemma_last_value_found(ps, "logicalused"@, j);
        assert(volume_value_ok(ps[j].0, ps[j].1));
    }
    if absent(ps, "mlslabel"@) {
        lemma_last_value_none(ps, "mlslabel"@);
    }
    assert forall|j: int| #[trigger] last_at(ps, "mlslabel"@, j) implies v.mls_label == spec_mls_label(ps[j].1) by {
        lemma_last_value_found(ps, "mlslabel"@, j);
        assert(volume_value_ok(ps[j].0, ps[j].1));
    }
    assert forall|j: int| #[trigger] last_at(ps, "primarycache"@, j) implies CacheMode::spec_from_name(ps[j].1) == Some(v.primary_cache) by {
        lemma_last_value_found(ps, "primarycache"@, j);
        assert(volume_value_ok(ps[j].0, ps[j].1));
    }
    assert forall|j: int| #[trigger] last_at(ps, "readonly"@, j) implies Some(spec_parse_bool(ps[j].1)) == Some(v.readonly) by {
        lemma_last_value_found(ps, "readonly"@, j);
        assert(volume_value_ok(ps[j].0, ps[j].1));
    }
    assert forall|j: int| #[trigger] last_at(ps, "redundant_metadata"@, j) implies RedundantMetadata::spec_from_name(ps[j].1) == Some(v.redundant_metadata) by {
        lemma_last_value_found(ps, "redundant_metadata"@, j);
        assert(volume_value_ok(ps[j].0, ps[j].1));
    }
    assert forall|j: int| #[trigger] last_at(ps, "refcompressratio"@, j) implies Some(strip_last(ps[j].1, 'x')) == Some(v.ref_compression_ratio) by {
        lemma_last_value_found(ps, "refcompressratio"@, j);
        assert(volume_value_ok(ps[j].0, ps[j].1));
    }
    assert forall|j: int| #[trigger] last_at(ps, "referenced"@, j) implies spec_parse_u64(ps[j].1) == Some(v.referenced) by {
        lemma_last_value_found(ps, "referenced"@, j);
        assert(volume_value_ok(ps[j].0, ps[j].1));
    }
    assert forall|j: int| #[trigger] last_at(ps, "refreservation"@, j) implies spec_parse_u64(ps[j].1) == Some(v.ref_reservation) by {
        lemma_last_value_found(ps, "refreservation"@, j);
        assert(volume_value_ok(ps[j].0, ps[j].1));
    }
    assert forall|j: int| #[trigger] last_at(ps, "reservation"@, j) implies spec_parse_u64(ps[j].1) == Some(v.reservation) by {
        lemma_last_value_found(ps, "reservation"@, j);
        assert(volume_value_ok(ps[j].0, ps[j].1));
    }
    assert forall|j: int| #[trigger] last_at(ps, "secondarycache"@, j) implies CacheMode::spec_from_name(ps[j].1) == Some(v.secondary_cache) by {
        lemma_last_value_found(ps, "secondarycache"@, j);
        assert(volume_value_ok(ps[j].0, ps[j].1));
    }
    if absent(ps, "snapshot_count"@) {
        lemma_last_value_none(ps, "snapshot_count"@);
    }
    assert forall|j: int| #[trigger] last_at(ps, "snapshot_count"@, j) implies v.snapshot_count == read_count(ps[j].1) by {
        lemma_last_value_found(ps, "snapshot_count"@, j);
        assert(volume_value_ok(ps[j].0, ps[j].1));
    }
    if absent(ps, "snapshot_limit"@) {
        lemma_last_value_none(ps, "snapshot_limit"@);
    }
    assert forall|j: int| #[trigger] last_at(ps, "snapshot_limit"@, j) implies v.snapshot_limit == read_count(ps[j].1) by {
        lemma_last_value_found(ps, "snapshot_limit"@, j);
        assert(volume_value_ok(ps[j].0, ps[j].1));
    }
    assert forall|j: int| #[trigger] last_at(ps, "sync"@, j) implies SyncMode::spec_from_name(ps[j].1) == Some(v.sync) by {
        lemma_last_value_found(ps, "sync"@, j);
        assert(volume_value_ok(ps[j].0, ps[j].1));
    }
    assert forall|j: int| #[trigger] last_at(ps, "used"@, j) implies spec_parse_u64(ps[j].1) == Some(v.used) by {
        lemma_last_value_found(ps, "used"@, j);
        assert(volume_value_ok(ps[j].0, ps[j].1));
    }
    assert forall|j: int| #[trigger] last_at(ps, "usedbychildren"@, j) implies spec_parse_u64(ps[j].1) == Some(v.used_by_children) by {
        lemma_last_value_found(ps, "usedbychildren"@, j);
        assert(volume_value_ok(ps[j].0, ps[j].1));
    }
    assert forall|j: int| #[trigger] last_at(ps, "usedbydataset"@, j) implies spec_parse_u64(ps[j].1) == Some(v.used_by_dataset) by {
        lemma_last_value_found(ps, "usedbydataset"@, j);
        assert(volume_value_ok(ps[j].0, ps[j].1));
    }
    assert forall|j: int| #[trigger] last_at(ps, "usedbyrefreservation"@, j) implies spec_parse_u64(ps[j].1) == Some(v.used_by_ref_reservation) by {
        lemma_last_value_found(ps, "usedbyrefreservation"@, j);
        assert(volume_value_ok(ps[j].0, ps[j].1));
    }
    assert forall|j: int| #[trigger] last_at(ps, "usedbysnapshots"@, j) implies spec_parse_u64(ps[j].1) == Some(v.used_by_snapshots) by {
        lemma_last_value_found(ps, "usedbysnapshots"@, j);
        assert(volume_value_ok(ps[j].0, ps[j].1));
    }
    assert forall|j: int| #[trigger] last_at(ps, "volblocksize"@, j) implies spec_parse_u64(ps[j].1) == Some(v.volume_block_size) by {
        lemma_last_value_found(ps, "volblocksize"@, j);
        assert(volume_value_ok(ps[j].0, ps[j].1));
    }
    if absent(ps, "volmode"@) {
        lemma_last_value_none(ps, "volmode"@);
    }
    assert forall|j: int| #[trigger] last_at(ps, "volmode"@, j) implies v.volume_mode == VolumeMode::spec_from_name(ps[j].1) by {
        lemma_last_value_found(ps, "volmode"@, j);
        assert(volume_value_ok(ps[j].0, ps[j].1));
    }
    assert forall|j: int| #[trigger] last_at(ps, "volsize"@, j) implies spec_parse_u64(ps[j].1) == Some(v.volume_size) by {
        lemma_last_value_found(ps, "volsize"@, j);
        assert(volume_value_ok(ps[j].0, ps[j].1));
    }
    assert forall|j: int| #[trigger] last_at(ps, "written"@, j) implies spec_parse_u64(ps[j].1) == Some(v.written) by {
        lemma_last_value_found(ps, "written"@, j);
        assert(volume_value_ok(ps[j].0, ps[j].1));
    }
}

/// Each field of the snapshot properties read from the pairs `ps` is what
/// the value of the last pair named after that field's property reads as,
/// and an optional field whose property is missing is absent.
#[verifier::rlimit(100)]
pub proof fn lemma_snapshot_fields_come_from_their_properties(name: Seq<char>, ps: Seq<(Seq<char>, Seq<char>)>)
    requires
        spec_snapshot(name, ps) is Some,
    ensures
        ({
            let v = spec_snapshot(name, ps)->0;
            &&& v.name == name
            &&& forall|j: int| #[trigger] last_at(ps, "casesensitivity"@, j) ==> CaseSensitivity::spec_from_name(ps[j].1) == Some(v.case_sensitivity)
            &&& absent(ps, "clones"@) ==> v.clones is None
            &&& forall|j: int| #[trigger] last_at(ps, "clones"@, j) ==> v.clones == spec_clones(ps[j].1)
            &&& forall|j: int| #[trigger] last_at(ps, "compressratio"@, j) ==> Some(strip_last(ps[j].1, 'x')) == Some(v.compression_ratio)
            &&& absent(ps, "createtxg"@) ==> v.create_txg is None
            &&& forall|j: int| #[trigger] last_at(ps, "createtxg"@, j) ==> v.create_txg == spec_parse_u64(ps[j].1)
            &&& forall|j: int| #[trigger] last_at(ps, "creation"@, j) ==> spec_creation(ps[j].1) == Some(v.creation)
            &&& forall|j: int| #[trigger] last_at(ps, "defer_destroy"@, j) ==> Some(spec_parse_bool(ps[j].1)) == Some(v.defer_destroy)
            &&& forall|j: int| #[trigger] last_at(ps, "devices"@, j) ==> Some(spec_parse_bool(ps[j].1)) == Some(v.devices)
            &&& forall|j: int| #[trigger] last_at(ps, "exec"@, j) ==> Some(spec_parse_bool(ps[j].1)) == Some(v.executable)
            &&& absent(ps, "guid"@) ==> v.guid is None
            &&& forall|j: int| #[trigger] last_at(ps, "guid"@, j) ==> v.guid == spec_parse_u64(ps[j].1)
            &&& forall|j: int| #[trigger] last_at(ps, "logicalreferenced"@, j) ==> spec_parse_u64(ps[j].1) == Some(v.logically_referenced)
            &&& absent(ps, "mlslabel"@) ==> v.mls_label is None
            &&& forall|j: int| #[trigger] last_at(ps, "mlslabel"@, j) ==> v.mls_label == spec_mls_label(ps[j].1)
            &&& forall|j: int| #[trigger] last_at(ps, "nbmand"@, j) ==> Some(spec_parse_bool(ps[j].1)) == Some(v.nbmand)
            &&& forall|j: int| #[trigger] last_at(ps, "normalization"@, j) ==> Normalization::spec_from_name(ps[j].1) == Some(v.normalization)
            &&& forall|j: int| #[trigger] last_at(ps, "primarycache"@, j) ==> CacheMode::spec_from_name(ps[j].1) == Some(v.primary_cache)
            &&& forall|j: int| #[trigger] last_at(ps, "refcompressratio"@, j) ==> Some(strip_last(ps[j].1, 'x')) == Some(v.ref_compression_ratio)
            &&& forall|j: int| #[trigger] last_at(ps, "referenced"@, j) ==> spec_parse_u64(ps[j].1) == Some(v.referenced)
            &&& forall|j: int| #[trigger] last_at(ps, "secondarycache"@, j) ==> CacheMode::spec_from_name(ps[j].1) == Some(v.secondary_cache)
            &&& forall|j: int| #[trigger] last_at(ps, "setuid"@, j) ==> Some(spec_parse_bool(ps[j].1)) == Some(v.setuid)
            &&& forall|j: int| #[trigger] last_at(ps, "used"@, j) ==> spec_parse_u64(ps[j].1) == Some(v.used)
            &&& forall|j: int| #[trigger] last_at(ps, "userrefs"@, j) ==> spec_parse_u64(ps[j].1) == Some(v.user_refs)
            &&& absent(ps, "utf8only"@) ==> v.utf8_only is None
            &&& forall|j: int| #[trigger] last_at(ps, "utf8only"@, j) ==> v.utf8_only == Some(spec_parse_bool(ps[j].1))
            &&& forall|j: int| #[trigger] last_at(ps, "version"@, j) ==> spec_parse_u64(ps[j].1) == Some(v.version)
            &&& absent(ps, "volmode"@) ==> v.volume_mode is None
            &&& forall|j: int| #[trigger] last_at(ps, "volmode"@, j) ==> v.volume_mode == VolumeMode::spec_from_name(ps[j].1)
            &&& forall|j: int| #[trigger] last_at(ps, "written"@, j) ==> spec_parse_u64(ps[j].1) == Some(v.written)
            &&& forall|j: int| #[trigger] last_at(ps, "xattr"@, j) ==> Some(spec_parse_bool(ps[j].1)) == Some(v.xattr)
        }),
{
    let v = spec_snapshot(name, ps)->0;
    assert(v == snapshot_view(name, ps));
    assert forall|j: int| #[trigger] last_at(ps, "casesensitivity"@, j) implies CaseSensitivity::spec_from_name(ps[j].1) == Some(v.case_sensitivity) by {
        lemma_last_value_found(ps, "casesensitivity"@, j);
        assert(snapshot_value_ok(ps[j].0, ps[j].1));
    }
    if absent(ps, "clones"@) {
        lemma_last_value_none(ps, "clones"@);
    }
    assert forall|j: int| #[trigger] last_at(ps, "clones"@, j) implies v.clones == spec_clones(ps[j].1) by {
        lemma_last_value_found(ps, "clones"@, j);
        assert(snapshot_value_ok(ps[j].0, ps[j].1));
    }
    assert forall|j: int| #[trigger] last_at(ps, "compressratio"@, j) implies Some(strip_last(ps[j].1, 'x')) == Some(v.compression_ratio) by {
        lemma_last_value_found(ps, "compressratio"@, j);
        assert(snapshot_value_ok(ps[j].0, ps[j].1));
    }
    if absent(ps, "createtxg"@) {
        lemma_last_value_none(ps, "createtxg"@);
    }
    assert forall|j: int| #[trigger] last_at(ps, "createtxg"@, j) implies v.create_txg == spec_parse_u64(ps[j].1) by {
        lemma_last_value_found(ps, "createtxg"@, j);
        assert(snapshot_value_ok(ps[j].0, ps[j].1));
    }
    assert forall|j: int| #[trigger] last_at(ps, "creation"@, j) implies spec_creation(ps[j].1) == Some(v.creation) by {
        lemma_last_value_found(ps, "creation"@, j);
        assert(snapshot_value_ok(ps[j].0, ps[j].1));
    }
    assert forall|j: int| #[trigger] last_at(ps, "defer_destroy"@, j) implies Some(spec_parse_bool(ps[j].1)) == Some(v.defer_destroy) by {
        lemma_last_value_found(ps, "defer_destroy"@, j);
        assert(snapshot_value_ok(ps[j].0, ps[j].1));
    }
    assert forall|j: int| #[trigger] last_at(ps, "devices"@, j) implies Some(spec_parse_bool(ps[j].1)) == Some(v.devices) by {
        lemma_last_value_found(ps, "devices"@, j);
        assert(snapshot_value_ok(ps[j].0, ps[j].1));
    }
    assert forall|j: int| #[trigger] last_at(ps, "exec"@, j) implies Some(spec_parse_bool(ps[j].1)) == Some(v.executable) by {
        lemma_last_value_found(ps, "exec"@, j);
        assert(snapshot_value_ok(ps[j].0, ps[j].1));
    }
    if absent(ps, "guid"@) {
        lemma_last_value_none(ps, "guid"@);
    }
    assert forall|j: int| #[trigger] last_at(ps, "guid"@, j) implies v.guid == spec_parse_u64(ps[j].1) by {
        lemma_last_value_found(ps, "guid"@, j);
        assert(snapshot_value_ok(ps[j].0, ps[j].1));
    }
    assert forall|j: int| #[trigger] last_at(ps, "logicalreferenced"@, j) implies spec_parse_u64(ps[j].1) == Some(v.logically_referenced) by {
        lemma_last_value_found(ps, "logicalreferenced"@, j);
        assert(snapshot_value_ok(ps[j].0, ps[j].1));
    }
    if absent(ps, "mlslabel"@) {
        lemma_last_value_none(ps, "mlslabel"@);
    }
    assert forall|j: int| #[trigger] last_at(ps, "mlslabel"@, j) implies v.mls_label == spec_mls_label(ps[j].1) by {
        lemma_last_value_found(ps, "mlslabel"@, j);
        assert(snapshot_value_ok(ps[j].0, ps[j].1));
    }
    assert forall|j: int| #[trigger] last_at(ps, "nbmand"@, j) implies Some(spec_parse_bool(ps[j].1)) == Some(v.nbmand) by {
        lemma_last_value_found(ps, "nbmand"@, j);
        assert(snapshot_value_ok(ps[j].0, ps[j].1));
    }
    assert forall|j: int| #[trigger] last_at(ps, "normalization"@, j) implies Normalization::spec_from_name(ps[j].1) == Some(v.normalization) by {
        lemma_last_value_found(ps, "normalization"@, j);
        assert(snapshot_value_ok(ps[j].0, ps[j].1));
    }
    assert forall|j: int| #[trigger] last_at(ps, "primarycache"@, j) implies CacheMode::spec_from_name(ps[j].1) == Some(v.primary_cache) by {
        lemma_last_value_found(ps, "primarycache"@, j);
        assert(snapshot_value_ok(ps[j].0, ps[j].1));
    }
    assert forall|j: int| #[trigger] last_at(ps, "refcompressratio"@, j) implies Some(strip_last(ps[j].1, 'x')) == Some(v.ref_compression_ratio) by {
        lemma_last_value_found(ps, "refcompressratio"@, j);
        assert(snapshot_value_ok(ps[j].0, ps[j].1));
    }
    assert forall|j: int| #[trigger] last_at(ps, "referenced"@, j) implies spec_parse_u64(ps[j].1) == Some(v.referenced) by {
        lemma_last_value_found(ps, "referenced"@, j);
        assert(snapshot_value_ok(ps[j].0, ps[j].1));
    }
    assert forall|j: int| #[trigger] last_at(ps, "secondarycache"@, j) implies CacheMode::spec_from_name(ps[j].1) == Some(v.secondary_cache) by {
        lemma_last_value_found(ps, "secondarycache"@, j);
        assert(snapshot_value_ok(ps[j].0, ps[j].1));
    }
    assert forall|j: int| #[trigger] last_at(ps, "setuid"@, j) implies Some(spec_parse_bool(ps[j].1)) == Some(v.setuid) by {
        lemma_last_value_found(ps, "setuid"@, j);
        assert(snapshot_value_ok(ps[j].0, ps[j].1));
    }
    assert forall|j: int| #[trigger] last_at(ps, "used"@, j) implies spec_parse_u64(ps[j].1) == Some(v.used) by {
        lemma_last_value_found(ps, "used"@, j);
        assert(snapshot_value_ok(ps[j].0, ps[j].1));
    }
    assert forall|j: int| #[trigger] last_at(ps, "userrefs"@, j) implies spec_parse_u64(ps[j].1) == Some(v.user_refs) by {
        lemma_last_value_found(ps, "userrefs"@, j);
        assert(snapshot_value_ok(ps[j].0, ps[j].1));
    }
    if absent(ps, "utf8only"@) {
        lemma_last_value_none(ps, "utf8only"@);
    }
    assert forall|j: int| #[trigger] last_at(ps, "utf8only"@, j) implies v.utf8_only == Some(spec_parse_bool(ps[j].1)) by {
        lemma_last_value_found(ps, "utf8only"@, j);
        assert(snapshot_value_ok(ps[j].0, ps[j].1));
    }
    assert forall|j: int| #[trigger] last_at(ps, "version"@, j) implies spec_parse_u64(ps[j].1) == Some(v.version) by {
        lemma_last_value_found(ps, "version"@, j);
        assert(snapshot_value_ok(ps[j].0, ps[j].1));
    }
    if absent(ps, "volmode"@) {
        lemma_last_value_none(ps, "volmode"@);
    }
    assert forall|j: int| #[trigger] last_at(ps, "volmode"@, j) implies v.volume_mode == VolumeMode::spec_from_name(ps[j].1) by {
        lemma_last_value_found(ps, "volmode"@, j);
        assert(snapshot_value_ok(ps[j].0, ps[j].1));
    }
    assert forall|j: int| #[trigger] last_at(ps, "written"@, j) implies spec_parse_u64(ps[j].1) == Some(v.written) by {
        lemma_last_value_found(ps, "written"@, j);
        assert(snapshot_value_ok(ps[j].0, ps[j].1));
    }
    assert forall|j: int| #[trigger] last_at(ps, "xattr"@, j) implies Some(spec_parse_bool(ps[j].1)) == Some(v.xattr) by {
        lemma_last_value_found(ps, "xattr"@, j);
        assert(snapshot_value_ok(ps[j].0, ps[j].1));
    }
}

/// Each field of the bookmark properties read from the pairs `ps` is what
/// the value of the last pair named after that field's property reads as,
/// and an optional field whose property is missing is absent.
#[verifier::rlimit(100)]
pub proof fn lemma_bookmark_fields_come_from_their_properties(name: Seq<char>, ps: Seq<(Seq<char>, Seq<char>)>)
    requires
        spec_bookmark(name, ps) is Some,
    ensures
        ({
            let v = spec_bookmark(name, ps)->0;
            &&& v.name == name
            &&& absent(ps, "createtxg"@) ==> v.create_txg is None
            &&& forall|j: int| #[trigger] last_at(ps, "createtxg"@, j) ==> v.create_txg == spec_parse_u64(ps[j].1)
            &&& forall|j: int| #[trigger] last_at(ps, "creation"@, j) ==> spec_parse_i64(ps[j].1) == Some(v.creation)
            &&& absent(ps, "guid"@) ==> v.guid is None
            &&& forall|j: int| #[trigger] last_at(ps, "guid"@, j) ==> v.guid == spec_parse_u64(ps[j].1)
        }),
{
    let v = spec_bookmark(name, ps)->0;
    assert(v == bookmark_view(name, ps));
    if absent(ps, "createtxg"@) {
        lemma_last_value_none(ps, "createtxg"@);
    }
    assert forall|j: int| #[trigger] last_at(ps, "createtxg"@, j) implies v.create_txg == spec_parse_u64(ps[j].1) by {
        lemma_last_value_found(ps, "createtxg"@, j);
        assert(bookmark_value_ok(ps[j].0, ps[j].1));
    }
    assert forall|j: int| #[trigger] last_at(ps, "creation"@, j) implies spec_parse_i64(ps[j].1) == Some(v.creation) by {
        lemma_last_value_found(ps, "creation"@, j);
        assert(bookmark_value_ok(ps[j].0, ps[j].1));
    }
    if absent(ps, "guid"@) {
        lemma_last_value_none(ps, "guid"@);
    }
    assert forall|j: int| #[trigger] last_at(ps, "guid"@, j) implies v.guid == spec_parse_u64(ps[j].1) by {
        lemma_last_value_found(ps, "guid"@, j);
        assert(bookmark_value_ok(ps[j].0, ps[j].1));
    }
}

} // verus!
