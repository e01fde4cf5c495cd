//! Pool properties: the values `zpool(8)` reports and the ones that can be set.
use vstd::prelude::*;

use super::{ZpoolError, ZpoolResult};
use crate::outside::{decode_lossy, utf8_lossy};
use crate::text::{
    all_eq_str, chars_of, is_float, is_float_literal, parse_i64, parse_i8, parse_u64, parse_u8,
    parse_usize, push_char, spec_parse_i64, spec_parse_i8, spec_parse_u64, spec_parse_u8,
    spec_parse_usize, spec_split, split_chars, string_of, views,
};

verus! {

/// A property that is written as `key=value` on the command line.
pub trait PropPair {
    /// The text of the value.
    spec fn pair_value(&self) -> Seq<char>;

    /// `key=value`.
    fn to_pair(&self, key: &str) -> (r: String)
        ensures
            r@ == key@ + seq!['='] + self.pair_value(),
    ;
}

/// `key` followed by `=` and `value`.
fn key_value(key: &str, value: &str) -> (r: String)
    ensures
        r@ == key@ + seq!['='] + value@,
{
    let mut r = key.to_owned();
    push_char(&mut r, '=');
    r.append(value);
    r
}

/// Represent state of zpool or vdev.
#[derive(Debug, Clone, Copy, Eq, PartialEq, Structural)]
pub enum Health {
    /// Healthy and operational
    Online,
    /// Unhealthy, but operational,
    Degraded,
    /// Not operational
    Faulted,
    /// Taken offline by admin
    Offline,
    /// Can't open device.
    Unavailable,
    /// Physically removed while the system was running.
    Removed,
}

/// The health that `zpool(8)` prints as `s`.
pub open spec fn spec_health(s: Seq<char>) -> Option<Health> {
    if s == "ONLINE"@ {
        Some(Health::Online)
    } else if s == "DEGRADED"@ {
        Some(Health::Degraded)
    } else if s == "FAULTED"@ {
        Some(Health::Faulted)
    } else if s == "OFFLINE"@ {
        Some(Health::Offline)
    } else if s == "UNAVAIL"@ {
        Some(Health::Unavailable)
    } else if s == "REMOVED"@ {
        Some(Health::Removed)
    } else {
        None
    }
}

impl Health {
    /// The health spelled by the characters `v`.
    pub fn from_chars(v: &[char]) -> (r: Option<Health>)
        ensures
            r == spec_health(v@),
    {
        if all_eq_str(v, "ONLINE") {
            Some(Health::Online)
        } else if all_eq_str(v, "DEGRADED") {
            Some(Health::Degraded)
        } else if all_eq_str(v, "FAULTED") {
            Some(Health::Faulted)
        } else if all_eq_str(v, "OFFLINE") {
            Some(Health::Offline)
        } else if all_eq_str(v, "UNAVAIL") {
            Some(Health::Unavailable)
        } else if all_eq_str(v, "REMOVED") {
            Some(Health::Removed)
        } else {
            None
        }
    }

    /// parse str to Health.
    pub fn try_from_str(val: Option<&str>) -> (r: ZpoolResult<Health>)
        ensures
            r is Ok <==> (val is Some && spec_health(val->0@) is Some),
            r matches Ok(h) ==> spec_health(val->0@) == Some(h),
            r matches Err(e) ==> e is ParseError,
    {
        match val {
            None => Err(ZpoolError::ParseError),
            Some(s) => {
                let v = chars_of(s);
                match Health::from_chars(&v) {
                    Some(h) => Ok(h),
                    None => Err(ZpoolError::ParseError),
                }
            },
        }
    }
}

/// Controls the system behavior in the event of catastrophic pool failure.
#[derive(Debug, Clone, Copy, Eq, PartialEq, Structural)]
pub enum FailMode {
    /// Blocks all I/O access until the device connectivity is recovered and the errors are cleared.
    Wait,
    /// Returns EIO to any new write I/O requests but allows reads to any of the remaining healthy devices.
    Continue,
    /// Prints out a message to the console and generates a system crash dump.
    Panic,
}

pub open spec fn spec_fail_mode(s: Seq<char>) -> Option<FailMode> {
    if s == "wait"@ {
        Some(FailMode::Wait)
    } else if s == "continue"@ {
        Some(FailMode::Continue)
    } else if s == "panic"@ {
        Some(FailMode::Panic)
    } else {
        None
    }
}

pub open spec fn spec_fail_mode_str(m: FailMode) -> Seq<char> {
    match m {
        FailMode::Wait => "wait"@,
        FailMode::Continue => "continue"@,
        FailMode::Panic => "panic"@,
    }
}

impl FailMode {
    /// parse str to FailMode.
    pub fn try_from_str(val: Option<&str>) -> (r: ZpoolResult<FailMode>)
        ensures
            r is Ok <==> (val is Some && spec_fail_mode(val->0@) is Some),
            r matches Ok(m) ==> spec_fail_mode(val->0@) == Some(m),
            r matches Err(e) ==> e is ParseError,
    {
        match val {
            None => Err(ZpoolError::ParseError),
            Some(s) => {
                let v = chars_of(s);
                if all_eq_str(&v, "wait") {
                    Ok(FailMode::Wait)
                } else if all_eq_str(&v, "continue") {
                    Ok(FailMode::Continue)
                } else if all_eq_str(&v, "panic") {
                    Ok(FailMode::Panic)
                } else {
                    Err(ZpoolError::ParseError)
                }
            },
        }
    }

    /// The name `zpool(8)` uses for this mode.
    pub fn as_str(&self) -> (r: &str)
        ensures
            r@ == spec_fail_mode_str(*self),
    {
        match *self {
            FailMode::Wait => "wait",
            FailMode::Continue => "continue",
            FailMode::Panic => "panic",
        }
    }
}

/// Where to store cache for zpool.
#[derive(Debug, Clone)]
pub enum CacheType {
    /// Default location.
    Default,
    /// No cache.
    Disabled,
    /// Custom location.
    Custom(String),
}

/// What a `CacheType` holds.
pub enum CacheTypeView {
    Default,
    Disabled,
    Custom(Seq<char>),
}

impl View for CacheType {
    type V = CacheTypeView;

    open spec fn view(&self) -> CacheTypeView {
        match self {
            CacheType::Default => CacheTypeView::Default,
            CacheType::Disabled => CacheTypeView::Disabled,
            CacheType::Custom(s) => CacheTypeView::Custom(s@),
        }
    }
}

pub open spec fn spec_cache_type(s: Seq<char>) -> CacheTypeView {
    if s == "-"@ || s == ""@ {
        CacheTypeView::Default
    } else if s == "none"@ {
        CacheTypeView::Disabled
    } else {
        CacheTypeView::Custom(s)
    }
}

pub open spec fn spec_cache_type_str(c: CacheTypeView) -> Seq<char> {
    match c {
        CacheTypeView::Default => ""@,
        CacheTypeView::Disabled => "none"@,
        CacheTypeView::Custom(s) => s,
    }
}

impl CacheType {
    /// parse str to CacheType.
    pub fn try_from_str(val: Option<&str>) -> (r: ZpoolResult<CacheType>)
        ensures
            r is Ok <==> val is Some,
            r matches Ok(c) ==> c@ == spec_cache_type(val->0@),
            r matches Err(e) ==> e is ParseError,
    {
        match val {
            None => Err(ZpoolError::ParseError),
            Some(s) => {
                let v = chars_of(s);
                Ok(CacheType::from_chars(&v))
            },
        }
    }

    /// The cache location spelled by `v`.
    pub fn from_chars(v: &[char]) -> (r: CacheType)
        ensures
            r@ == spec_cache_type(v@),
    {
        if all_eq_str(v, "-") || all_eq_str(v, "") {
            CacheType::Default
        } else if all_eq_str(v, "none") {
            CacheType::Disabled
        } else {
            assert(v@.subrange(0, v@.len() as int) =~= v@);
            CacheType::Custom(string_of(v, 0, v.len()))
        }
    }

    /// The value `zpool(8)` takes for this location.
    pub fn as_str(&self) -> (r: &str)
        ensures
            r@ == spec_cache_type_str(self@),
    {
        match self {
            CacheType::Default => "",
            CacheType::Disabled => "none",
            CacheType::Custom(e) => e.as_str(),
        }
    }

    /// A copy of this location.
    pub fn copy(&self) -> (r: CacheType)
        ensures
            r@ == self@,
    {
        match self {
            CacheType::Default => CacheType::Default,
            CacheType::Disabled => CacheType::Disabled,
            CacheType::Custom(e) => CacheType::Custom(e.clone()),
        }
    }

    /// Whether two locations are the same.
    pub fn same_as(&self, other: &CacheType) -> (r: bool)
        ensures
            r == (self@ == other@),
    {
        match (self, other) {
            (CacheType::Default, CacheType::Default) => true,
            (CacheType::Disabled, CacheType::Disabled) => true,
            (CacheType::Custom(a), CacheType::Custom(b)) => a.eq(b),
            _ => false,
        }
    }
}

impl PartialEq for CacheType {
    fn eq(&self, other: &CacheType) -> (r: bool) {
        self.same_as(other)
    }
}

impl vstd::std_specs::cmp::PartialEqSpecImpl for CacheType {
    open spec fn obeys_eq_spec() -> bool {
        true
    }

    open spec fn eq_spec(&self, other: &CacheType) -> bool {
        self@ == other@
    }
}

impl Eq for CacheType {}

/// Reading the name that `as_str` gives a fail mode gives that mode back.
pub proof fn lemma_fail_mode_text_round_trip(m: FailMode)
    ensures
        spec_fail_mode(spec_fail_mode_str(m)) == Some(m),
{
    reveal_strlit("wait");
    reveal_strlit("continue");
    reveal_strlit("panic");
    match m {
        FailMode::Wait => {},
        FailMode::Continue => {
            assert("continue"@.len() != "wait"@.len());
        },
        FailMode::Panic => {
            assert("panic"@.len() != "wait"@.len());
            assert("panic"@.len() != "continue"@.len());
        },
    }
}

/// Reading the text that `as_str` gives a cache location gives that location
/// back, unless it is a custom location whose text reads as another one
/// (empty, `-` or `none`).
pub proof fn lemma_cache_type_text_round_trip(c: CacheTypeView)
    requires
        c matches CacheTypeView::Custom(s) ==> (s != ""@ && s != "-"@ && s != "none"@),
    ensures
        spec_cache_type(spec_cache_type_str(c)) == c,
{
    reveal_strlit("");
    reveal_strlit("-");
    reveal_strlit("none");
    if c is Disabled {
        assert("none"@.len() != "-"@.len());
        assert("none"@.len() != ""@.len());
    }
}

impl PropPair for FailMode {
    open spec fn pair_value(&self) -> Seq<char> {
        spec_fail_mode_str(*self)
    }

    fn to_pair(&self, key: &str) -> (r: String) {
        key_value(key, self.as_str())
    }
}

pub open spec fn spec_on_off(b: bool) -> Seq<char> {
    if b { "on"@ } else { "off"@ }
}

impl PropPair for bool {
    open spec fn pair_value(&self) -> Seq<char> {
        spec_on_off(*self)
    }

    fn to_pair(&self, key: &str) -> (r: String) {
        let val = if *self { "on" } else { "off" };
        key_value(key, val)
    }
}

impl PropPair for CacheType {
    open spec fn pair_value(&self) -> Seq<char> {
        spec_cache_type_str(self@)
    }

    fn to_pair(&self, key: &str) -> (r: String) {
        key_value(key, self.as_str())
    }
}

impl PropPair for String {
    open spec fn pair_value(&self) -> Seq<char> {
        self@
    }

    fn to_pair(&self, key: &str) -> (r: String) {
        key_value(key, self.as_str())
    }
}

} // verus!

verus! {

/// Available properties for write at run time. This doesn't include properties
/// that are writable only during creation/import of zpool.
#[derive(Debug, Clone)]
pub struct ZpoolPropertiesWrite {
    /// Make zpool readonly. This can only be changed during import.
    pub read_only: bool,
    /// Controls automatic pool expansion when the underlying LUN is grown.
    pub auto_expand: bool,
    /// Controls automatic device replacement.
    pub auto_replace: bool,
    /// Identifies the default bootable dataset for the root pool.
    pub boot_fs: Option<String>,
    /// Controls the location of where the pool configuration is cached.
    pub cache_file: CacheType,
    /// Additional information about the pool.
    pub comment: String,
    /// Whether a non-privileged user is granted access based on the dataset permissions.
    pub delegation: bool,
    /// Behavior in the event of catastrophic pool failure.
    pub fail_mode: FailMode,
}

pub open spec fn opt_view(o: Option<String>) -> Option<Seq<char>> {
    match o {
        Some(s) => Some(s@),
        None => None,
    }
}

/// What the writable properties hold.
pub struct ZpoolPropertiesWriteView {
    pub read_only: bool,
    pub auto_expand: bool,
    pub auto_replace: bool,
    pub boot_fs: Option<Seq<char>>,
    pub cache_file: CacheTypeView,
    pub comment: Seq<char>,
    pub delegation: bool,
    pub fail_mode: FailMode,
}

impl View for ZpoolPropertiesWrite {
    type V = ZpoolPropertiesWriteView;

    open spec fn view(&self) -> ZpoolPropertiesWriteView {
        ZpoolPropertiesWriteView {
            read_only: self.read_only,
            auto_expand: self.auto_expand,
            auto_replace: self.auto_replace,
            boot_fs: opt_view(self.boot_fs),
            cache_file: self.cache_file@,
            comment: self.comment@,
            delegation: self.delegation,
            fail_mode: self.fail_mode,
        }
    }
}

/// A copy of an optional string.
pub fn copy_opt_string(o: &Option<String>) -> (r: Option<String>)
    ensures
        opt_view(r) == opt_view(*o),
{
    match o {
        Some(s) => Some(s.clone()),
        None => None,
    }
}

/// Whether two optional strings are equal.
pub fn same_opt_string(a: &Option<String>, b: &Option<String>) -> (r: bool)
    ensures
        r == (opt_view(*a) == opt_view(*b)),
{
    match (a, b) {
        (Some(x), Some(y)) => x.eq(y),
        (None, None) => true,
        _ => false,
    }
}

impl ZpoolPropertiesWrite {
    /// Properties with the same values.
    pub fn copy(&self) -> (r: ZpoolPropertiesWrite)
        ensures
            r@ == self@,
    {
        ZpoolPropertiesWrite {
            read_only: self.read_only,
            auto_expand: self.auto_expand,
            auto_replace: self.auto_replace,
            boot_fs: copy_opt_string(&self.boot_fs),
            cache_file: self.cache_file.copy(),
            comment: self.comment.clone(),
            delegation: self.delegation,
            fail_mode: self.fail_mode,
        }
    }

    /// Whether two sets of properties hold the same values.
    pub fn same_as(&self, other: &ZpoolPropertiesWrite) -> (r: bool)
        ensures
            r == (self@ == other@),
    {
        self.read_only == other.read_only && self.auto_expand == other.auto_expand
            && self.auto_replace == other.auto_replace && same_opt_string(
            &self.boot_fs,
            &other.boot_fs,
        ) && self.cache_file.same_as(&other.cache_file) && self.comment.eq(&other.comment)
            && self.delegation == other.delegation && self.fail_mode == other.fail_mode
    }
}

impl PartialEq for ZpoolPropertiesWrite {
    fn eq(&self, other: &ZpoolPropertiesWrite) -> (r: bool) {
        self.same_as(other)
    }
}

impl vstd::std_specs::cmp::PartialEqSpecImpl for ZpoolPropertiesWrite {
    open spec fn obeys_eq_spec() -> bool {
        true
    }

    open spec fn eq_spec(&self, other: &ZpoolPropertiesWrite) -> bool {
        self@ == other@
    }
}

impl Eq for ZpoolPropertiesWrite {}

impl ZpoolPropertiesWrite {
    pub fn read_only(&self) -> (r: &bool)
        ensures
            *r == self.read_only,
    {
        &self.read_only
    }

    pub fn auto_expand(&self) -> (r: &bool)
        ensures
            *r == self.auto_expand,
    {
        &self.auto_expand
    }

    pub fn auto_replace(&self) -> (r: &bool)
        ensures
            *r == self.auto_replace,
    {
        &self.auto_replace
    }

    pub fn boot_fs(&self) -> (r: &Option<String>)
        ensures
            *r == self.boot_fs,
    {
        &self.boot_fs
    }

    pub fn cache_file(&self) -> (r: &CacheType)
        ensures
            *r == self.cache_file,
    {
        &self.cache_file
    }

    pub fn comment(&self) -> (r: &String)
        ensures
            *r == self.comment,
    {
        &self.comment
    }

    pub fn delegation(&self) -> (r: &bool)
        ensures
            *r == self.delegation,
    {
        &self.delegation
    }

    pub fn fail_mode(&self) -> (r: &FailMode)
        ensures
            *r == self.fail_mode,
    {
        &self.fail_mode
    }

    /// The `key=value` arguments for `zpool create -o`, in this order:
    /// autoexpand, autoreplace, cachefile, comment, delegation, failmode, and
    /// bootfs when it is set.
    pub fn into_args(self) -> (r: Vec<String>)
        ensures
            r@.map_values(|a: String| a@) == seq![
                "autoexpand="@ + spec_on_off(self.auto_expand),
                "autoreplace="@ + spec_on_off(self.auto_replace),
                "cachefile="@ + spec_cache_type_str(self.cache_file@),
                "comment="@ + self.comment@,
                "delegation="@ + spec_on_off(self.delegation),
                "failmode="@ + spec_fail_mode_str(self.fail_mode),
            ] + match self.boot_fs {
                Some(b) => seq!["bootfs="@ + b@],
                None => Seq::empty(),
            },
    {
        proof {
            reveal_strlit("autoexpand");
            reveal_strlit("autoexpand=");
            reveal_strlit("autoreplace");
            reveal_strlit("autoreplace=");
            reveal_strlit("cachefile");
            reveal_strlit("cachefile=");
            reveal_strlit("comment");
            reveal_strlit("comment=");
            reveal_strlit("delegation");
            reveal_strlit("delegation=");
            reveal_strlit("failmode");
            reveal_strlit("failmode=");
            reveal_strlit("bootfs");
            reveal_strlit("bootfs=");
        }
        assert("autoexpand"@ + seq!['='] =~= "autoexpand="@);
        assert("autoreplace"@ + seq!['='] =~= "autoreplace="@);
        assert("cachefile"@ + seq!['='] =~= "cachefile="@);
        assert("comment"@ + seq!['='] =~= "comment="@);
        assert("delegation"@ + seq!['='] =~= "delegation="@);
        assert("failmode"@ + seq!['='] =~= "failmode="@);
        assert("bootfs"@ + seq!['='] =~= "bootfs="@);
        let mut ret: Vec<String> = Vec::new();
        ret.push(self.auto_expand.to_pair("autoexpand"));
        ret.push(self.auto_replace.to_pair("autoreplace"));
        ret.push(self.cache_file.to_pair("cachefile"));
        ret.push(self.comment.to_pair("comment"));
        ret.push(self.delegation.to_pair("delegation"));
        ret.push(self.fail_mode.to_pair("failmode"));
        let ghost six = ret@.map_values(|a: String| a@);
        assert(six =~= seq![
            "autoexpand="@ + spec_on_off(self.auto_expand),
            "autoreplace="@ + spec_on_off(self.auto_replace),
            "cachefile="@ + spec_cache_type_str(self.cache_file@),
            "comment="@ + self.comment@,
            "delegation="@ + spec_on_off(self.delegation),
            "failmode="@ + spec_fail_mode_str(self.fail_mode),
        ]);
        if let Some(btfs) = &self.boot_fs {
            ret.push(btfs.to_pair("bootfs"));
            assert(ret@.map_values(|a: String| a@) =~= six + seq!["bootfs="@ + btfs@]);
        } else {
            assert(ret@.map_values(|a: String| a@) =~= six + Seq::empty());
        }
        ret
    }
}

/// Builder of `ZpoolPropertiesWrite`; every property left unset takes its default.
#[derive(Debug, Clone)]
pub struct ZpoolPropertiesWriteBuilder {
    pub read_only: Option<bool>,
    pub auto_expand: Option<bool>,
    pub auto_replace: Option<bool>,
    pub boot_fs: Option<Option<String>>,
    pub cache_file: Option<CacheType>,
    pub comment: Option<String>,
    pub delegation: Option<bool>,
    pub fail_mode: Option<FailMode>,
}

impl Default for ZpoolPropertiesWriteBuilder {
    fn default() -> (r: ZpoolPropertiesWriteBuilder)
        ensures
            r.read_only is None,
            r.auto_expand is None,
            r.auto_replace is None,
            r.boot_fs is None,
            r.cache_file is None,
            r.comment is None,
            r.delegation is None,
            r.fail_mode is None,
    {
        ZpoolPropertiesWriteBuilder {
            read_only: None,
            auto_expand: None,
            auto_replace: None,
            boot_fs: None,
            cache_file: None,
            comment: None,
            delegation: None,
            fail_mode: None,
        }
    }
}

impl ZpoolPropertiesWriteBuilder {
    pub fn read_only(&mut self, value: bool) -> (r: &mut ZpoolPropertiesWriteBuilder)
        ensures
            *r == (ZpoolPropertiesWriteBuilder { read_only: Some(value), ..*old(self) }),
            *final(self) == *final(r),
    {
        self.read_only = Some(value);
        self
    }

    pub fn auto_expand(&mut self, value: bool) -> (r: &mut ZpoolPropertiesWriteBuilder)
        ensures
            *r == (ZpoolPropertiesWriteBuilder { auto_expand: Some(value), ..*old(self) }),
            *final(self) == *final(r),
    {
        self.auto_expand = Some(value);
        self
    }

    pub fn auto_replace(&mut self, value: bool) -> (r: &mut ZpoolPropertiesWriteBuilder)
        ensures
            *r == (ZpoolPropertiesWriteBuilder { auto_replace: Some(value), ..*old(self) }),
            *final(self) == *final(r),
    {
        self.auto_replace = Some(value);
        self
    }

    pub fn boot_fs(&mut self, value: Option<String>) -> (r: &mut ZpoolPropertiesWriteBuilder)
        ensures
            *r == (ZpoolPropertiesWriteBuilder { boot_fs: Some(value), ..*old(self) }),
            *final(self) == *final(r),
    {
        self.boot_fs = Some(value);
        self
    }

    pub fn cache_file(&mut self, value: CacheType) -> (r: &mut ZpoolPropertiesWriteBuilder)
        ensures
            *r == (ZpoolPropertiesWriteBuilder { cache_file: Some(value), ..*old(self) }),
            *final(self) == *final(r),
    {
        self.cache_file = Some(value);
        self
    }

    pub fn comment(&mut self, value: &str) -> (r: &mut ZpoolPropertiesWriteBuilder)
        ensures
            r.comment matches Some(c) && c@ == value@,
            *r == (ZpoolPropertiesWriteBuilder { comment: r.comment, ..*old(self) }),
            *final(self) == *final(r),
    {
        self.comment = Some(value.to_owned());
        self
    }

    pub fn delegation(&mut self, value: bool) -> (r: &mut ZpoolPropertiesWriteBuilder)
        ensures
            *r == (ZpoolPropertiesWriteBuilder { delegation: Some(value), ..*old(self) }),
            *final(self) == *final(r),
    {
        self.delegation = Some(value);
        self
    }

    pub fn fail_mode(&mut self, value: FailMode) -> (r: &mut ZpoolPropertiesWriteBuilder)
        ensures
            *r == (ZpoolPropertiesWriteBuilder { fail_mode: Some(value), ..*old(self) }),
            *final(self) == *final(r),
    {
        self.fail_mode = Some(value);
        self
    }

    /// The properties, each one unset taking its default: off for the flags,
    /// no boot dataset, the default cache file, an empty comment and `wait`.
    pub fn build(&self) -> (r: Result<ZpoolPropertiesWrite, String>)
        ensures
            r matches Ok(p) && {
                &&& p.read_only == self.read_only.unwrap_or(false)
                &&& p.auto_expand == self.auto_expand.unwrap_or(false)
                &&& p.auto_replace == self.auto_replace.unwrap_or(false)
                &&& opt_view(p.boot_fs) == match self.boot_fs {
                    Some(b) => opt_view(b),
                    None => None,
                }
                &&& p.cache_file@ == match self.cache_file {
                    Some(c) => c@,
                    None => CacheTypeView::Default,
                }
                &&& p.comment@ == match self.comment {
                    Some(c) => c@,
                    None => Seq::empty(),
                }
                &&& p.delegation == self.delegation.unwrap_or(false)
                &&& p.fail_mode == self.fail_mode.unwrap_or(FailMode::Wait)
            },
    {
        let boot_fs = match &self.boot_fs {
            Some(Some(b)) => Some(b.clone()),
            _ => None,
        };
        let cache_file = match &self.cache_file {
            Some(c) => c.copy(),
            None => CacheType::Default,
        };
        let comment = match &self.comment {
            Some(c) => c.clone(),
            None => String::new(),
        };
        Ok(ZpoolPropertiesWrite {
            read_only: self.read_only.unwrap_or(false),
            auto_expand: self.auto_expand.unwrap_or(false),
            auto_replace: self.auto_replace.unwrap_or(false),
            boot_fs,
            cache_file,
            comment,
            delegation: self.delegation.unwrap_or(false),
            fail_mode: self.fail_mode.unwrap_or(FailMode::Wait),
        })
    }
}

} // verus!

verus! {

/// The properties of a pool as `zpool list -p -H -o ...` reports them.
#[derive(Debug, Clone)]
pub struct ZpoolProperties {
    /// Amount of storage space within the pool that has been physically allocated.
    pub alloc: usize,
    /// Percentage of pool space used.
    pub capacity: u8,
    /// Additional information about the pool.
    pub comment: Option<String>,
    /// The deduplication ratio as `zpool(8)` prints it, without its trailing
    /// `x`; it is text that reads as an `f64`.
    pub dedup_ratio: String,
    /// Amount of uninitialized space within the pool that can be used to increase its capacity.
    pub expand_size: Option<usize>,
    /// The amount of fragmentation in the pool, in percent.
    pub fragmentation: i8,
    /// Number of blocks within the pool that are not allocated.
    pub free: i64,
    /// Space remaining to be reclaimed after destroyed datasets.
    pub freeing: i64,
    /// A unique identifier for the pool.
    pub guid: u64,
    /// The current health of the pool.
    pub health: Health,
    /// Total size of the storage pool.
    pub size: usize,
    /// Leaked space.
    pub leaked: usize,
    /// Alternate root directory.
    pub alt_root: Option<String>,
    /// Pool is read only
    pub read_only: bool,
    /// Controls automatic pool expansion when the underlying LUN is grown.
    pub auto_expand: bool,
    /// Controls automatic device replacement.
    pub auto_replace: bool,
    /// Identifies the default bootable dataset for the root pool.
    pub boot_fs: Option<String>,
    /// Controls the location of where the pool configuration is cached.
    pub cache_file: CacheType,
    /// Threshold for the number of block ditto copies.
    pub dedup_ditto: usize,
    /// Whether a non-privileged user is granted access based on the dataset permissions.
    pub delegation: bool,
    /// Behavior in the event of catastrophic pool failure.
    pub fail_mode: FailMode,
}

/// Two property sets are equal when every field is, the alternate roots
/// compared as paths (so `/mnt/` and `/mnt` are the same root).
pub open spec fn same_properties(a: ZpoolProperties, b: ZpoolProperties) -> bool {
    &&& a.alloc == b.alloc
    &&& a.capacity == b.capacity
    &&& opt_view(a.comment) == opt_view(b.comment)
    &&& a.dedup_ratio@ == b.dedup_ratio@
    &&& a.expand_size == b.expand_size
    &&& a.fragmentation == b.fragmentation
    &&& a.free == b.free
    &&& a.freeing == b.freeing
    &&& a.guid == b.guid
    &&& a.health == b.health
    &&& a.size == b.size
    &&& a.leaked == b.leaked
    &&& super::topology::same_opt_path(opt_view(a.alt_root), opt_view(b.alt_root))
    &&& a.read_only == b.read_only
    &&& a.auto_expand == b.auto_expand
    &&& a.auto_replace == b.auto_replace
    &&& opt_view(a.boot_fs) == opt_view(b.boot_fs)
    &&& a.cache_file@ == b.cache_file@
    &&& a.dedup_ditto == b.dedup_ditto
    &&& a.delegation == b.delegation
    &&& a.fail_mode == b.fail_mode
}

impl PartialEq for ZpoolProperties {
    fn eq(&self, other: &ZpoolProperties) -> (r: bool) {
        let same_expand = match (self.expand_size, other.expand_size) {
            (Some(a), Some(b)) => a == b,
            (None, None) => true,
            _ => false,
        };
        self.alloc == other.alloc && self.capacity == other.capacity
            && same_opt_string(&self.comment, &other.comment)
            && self.dedup_ratio.eq(&other.dedup_ratio) && same_expand
            && self.fragmentation == other.fragmentation && self.free == other.free
            && self.freeing == other.freeing && self.guid == other.guid
            && self.health == other.health && self.size == other.size
            && self.leaked == other.leaked
            && super::topology::same_opt_paths(&self.alt_root, &other.alt_root)
            && self.read_only == other.read_only && self.auto_expand == other.auto_expand
            && self.auto_replace == other.auto_replace
            && same_opt_string(&self.boot_fs, &other.boot_fs)
            && self.cache_file.same_as(&other.cache_file)
            && self.dedup_ditto == other.dedup_ditto && self.delegation == other.delegation
            && self.fail_mode == other.fail_mode
    }
}

impl vstd::std_specs::cmp::PartialEqSpecImpl for ZpoolProperties {
    open spec fn obeys_eq_spec() -> bool {
        true
    }

    open spec fn eq_spec(&self, other: &ZpoolProperties) -> bool {
        same_properties(*self, *other)
    }
}

/// `s` without its last character when that is `c`.
pub open spec fn strip_last(s: Seq<char>, c: char) -> Seq<char> {
    if s.len() > 0 && s.last() == c { s.drop_last() } else { s }
}

/// `-` stands for no value.
pub open spec fn dash_none(s: Seq<char>) -> Option<Seq<char>> {
    if s == "-"@ { None } else { Some(s) }
}

/// `-` and the empty text stand for no value.
pub open spec fn blank_none(s: Seq<char>) -> Option<Seq<char>> {
    if s == "-"@ || s == ""@ { None } else { Some(s) }
}

/// `on` and `off`.
pub open spec fn spec_on_off_value(s: Seq<char>) -> Option<bool> {
    if s == "off"@ {
        Some(false)
    } else if s == "on"@ {
        Some(true)
    } else {
        None
    }
}

/// The tab separated columns of `zpool list -p -H` output: the bytes read as
/// UTF-8 (lossily), without their last character (the newline).
pub open spec fn property_columns(out: Seq<u8>) -> Seq<Seq<char>> {
    let text = utf8_lossy(out);
    spec_split(if text.len() > 0 { text.drop_last() } else { text }, '\t')
}

pub open spec fn spec_expand_size(s: Seq<char>) -> Option<Option<usize>> {
    if s == "-"@ {
        Some(None)
    } else {
        match spec_parse_usize(s) {
            Some(n) => Some(Some(n)),
            None => None,
        }
    }
}

/// Whether every column that the properties need is there and reads.
pub open spec fn property_columns_ok(c: Seq<Seq<char>>) -> bool {
    &&& c.len() >= 21
    &&& spec_parse_usize(c[0]) is Some
    &&& spec_parse_u8(c[1]) is Some
    &&& is_float_literal(strip_last(c[3], 'x'))
    &&& spec_expand_size(c[4]) is Some
    &&& spec_parse_i8(strip_last(c[5], '%')) is Some
    &&& spec_parse_i64(c[6]) is Some
    &&& spec_parse_i64(c[7]) is Some
    &&& spec_parse_u64(c[8]) is Some
    &&& spec_health(c[9]) is Some
    &&& spec_parse_usize(c[10]) is Some
    &&& spec_parse_usize(c[11]) is Some
    &&& spec_on_off_value(c[13]) is Some
    &&& spec_on_off_value(c[14]) is Some
    &&& spec_on_off_value(c[15]) is Some
    &&& spec_parse_usize(c[18]) is Some
    &&& spec_on_off_value(c[19]) is Some
    &&& spec_fail_mode(c[20]) is Some
}

/// The properties that the columns `c` hold, in the order alloc, capacity,
/// comment, dedupratio, expandsize, fragmentation, free, freeing, guid,
/// health, size, leaked, altroot, readonly, autoexpand, autoreplace, bootfs,
/// cachefile, dedupditto, delegation, failmode.
pub open spec fn properties_from_columns(p: ZpoolProperties, c: Seq<Seq<char>>) -> bool {
    &&& Some(p.alloc) == spec_parse_usize(c[0])
    &&& Some(p.capacity) == spec_parse_u8(c[1])
    &&& opt_view(p.comment) == blank_none(c[2])
    &&& p.dedup_ratio@ == strip_last(c[3], 'x')
    &&& Some(p.expand_size) == spec_expand_size(c[4])
    &&& Some(p.fragmentation) == spec_parse_i8(strip_last(c[5], '%'))
    &&& Some(p.free) == spec_parse_i64(c[6])
    &&& Some(p.freeing) == spec_parse_i64(c[7])
    &&& Some(p.guid) == spec_parse_u64(c[8])
    &&& Some(p.health) == spec_health(c[9])
    &&& Some(p.size) == spec_parse_usize(c[10])
    &&& Some(p.leaked) == spec_parse_usize(c[11])
    &&& opt_view(p.alt_root) == dash_none(c[12])
    &&& Some(p.read_only) == spec_on_off_value(c[13])
    &&& Some(p.auto_expand) == spec_on_off_value(c[14])
    &&& Some(p.auto_replace) == spec_on_off_value(c[15])
    &&& opt_view(p.boot_fs) == dash_none(c[16])
    &&& p.cache_file@ == spec_cache_type(c[17])
    &&& Some(p.dedup_ditto) == spec_parse_usize(c[18])
    &&& Some(p.delegation) == spec_on_off_value(c[19])
    &&& Some(p.fail_mode) == spec_fail_mode(c[20])
}

/// `v` without its last character when that is `c`.
fn without_last(v: &Vec<char>, c: char) -> (r: &[char])
    ensures
        r@ == strip_last(v@, c),
{
    let n = v.len();
    if n > 0 && v[n - 1] == c {
        let r = &v.as_slice()[0..n - 1];
        assert(r@ =~= v@.drop_last());
        r
    } else {
        v.as_slice()
    }
}

/// The text of `v`, or no value when `v` is `-`.
fn dash_none_string(v: &Vec<char>) -> (r: Option<String>)
    ensures
        opt_view(r) == dash_none(v@),
{
    if all_eq_str(v.as_slice(), "-") {
        None
    } else {
        assert(v@.subrange(0, v@.len() as int) =~= v@);
        Some(string_of(v.as_slice(), 0, v.len()))
    }
}

/// The text of `v`, or no value when `v` is `-` or empty.
fn blank_none_string(v: &Vec<char>) -> (r: Option<String>)
    ensures
        opt_view(r) == blank_none(v@),
{
    if all_eq_str(v.as_slice(), "-") || all_eq_str(v.as_slice(), "") {
        None
    } else {
        assert(v@.subrange(0, v@.len() as int) =~= v@);
        Some(string_of(v.as_slice(), 0, v.len()))
    }
}

/// Reads `on` or `off`.
pub fn on_off(v: &[char]) -> (r: Option<bool>)
    ensures
        r == spec_on_off_value(v@),
{
    if all_eq_str(v, "off") {
        Some(false)
    } else if all_eq_str(v, "on") {
        Some(true)
    } else {
        None
    }
}

/// A column that must read, or the parse error.
fn need<T>(v: Option<T>) -> (r: ZpoolResult<T>)
    ensures
        v matches Some(x) ==> (r matches Ok(y) && y == x),
        v is None ==> (r matches Err(e) && e is ParseError),
{
    match v {
        Some(x) => Ok(x),
        None => Err(ZpoolError::ParseError),
    }
}

impl ZpoolProperties {
    /// The properties in the columns `cols`, or the parse error.
    pub fn from_columns(cols: &Vec<Vec<char>>) -> (r: ZpoolResult<ZpoolProperties>)
        ensures
            r is Ok <==> property_columns_ok(views(cols@)),
            r matches Ok(p) ==> properties_from_columns(p, views(cols@)),
            r matches Err(e) ==> e is ParseError,
    {
        let ghost c = views(cols@);
        if cols.len() < 21 {
            return Err(ZpoolError::ParseError);
        }
        let alloc = need(parse_usize(cols[0].as_slice()))?;
        let capacity = need(parse_u8(cols[1].as_slice()))?;
        let comment = blank_none_string(&cols[2]);
        let ratio = without_last(&cols[3], 'x');
        if !is_float(ratio) {
            return Err(ZpoolError::ParseError);
        }
        let dedup_ratio = string_of(ratio, 0, ratio.len());
        assert(ratio@.subrange(0, ratio@.len() as int) =~= ratio@);
        let expand_size = if all_eq_str(cols[4].as_slice(), "-") {
            None
        } else {
            Some(need(parse_usize(cols[4].as_slice()))?)
        };
        let fragmentation = need(parse_i8(without_last(&cols[5], '%')))?;
        let free = need(parse_i64(cols[6].as_slice()))?;
        let freeing = need(parse_i64(cols[7].as_slice()))?;
        let guid = need(parse_u64(cols[8].as_slice()))?;
        let health = need(Health::from_chars(cols[9].as_slice()))?;
        let size = need(parse_usize(cols[10].as_slice()))?;
        let leaked = need(parse_usize(cols[11].as_slice()))?;
        let alt_root = dash_none_string(&cols[12]);
        let read_only = need(on_off(cols[13].as_slice()))?;
        let auto_expand = need(on_off(cols[14].as_slice()))?;
        let auto_replace = need(on_off(cols[15].as_slice()))?;
        let boot_fs = dash_none_string(&cols[16]);
        let cache_file = CacheType::from_chars(cols[17].as_slice());
        let dedup_ditto = need(parse_usize(cols[18].as_slice()))?;
        let delegation = need(on_off(cols[19].as_slice()))?;
        let fail_mode = need(ZpoolProperties::fail_mode_of(cols[20].as_slice()))?;
        Ok(ZpoolProperties {
            alloc,
            capacity,
            comment,
            dedup_ratio,
            expand_size,
            fragmentation,
            free,
            freeing,
            guid,
            health,
            size,
            leaked,
            alt_root,
            read_only,
            auto_expand,
            auto_replace,
            boot_fs,
            cache_file,
            dedup_ditto,
            delegation,
            fail_mode,
        })
    }

    /// The fail mode spelled by `v`.
    fn fail_mode_of(v: &[char]) -> (r: Option<FailMode>)
        ensures
            r == spec_fail_mode(v@),
    {
        if all_eq_str(v, "wait") {
            Some(FailMode::Wait)
        } else if all_eq_str(v, "continue") {
            Some(FailMode::Continue)
        } else if all_eq_str(v, "panic") {
            Some(FailMode::Panic)
        } else {
            None
        }
    }

    /// Reads the output of `zpool list -p -H -o alloc,cap,comment,dedupratio,
    /// expandsize,fragmentation,free,freeing,guid,health,size,leaked,altroot,
    /// readonly,autoexpand,autoreplace,bootfs,cachefile,dedupditto,delegation,failmode`.
    pub fn try_from_stdout(out: &[u8]) -> (r: ZpoolResult<ZpoolProperties>)
        ensures
            r is Ok <==> property_columns_ok(property_columns(out@)),
            r matches Ok(p) ==> properties_from_columns(p, property_columns(out@)),
            r matches Err(e) ==> e is ParseError,
    {
        let text = decode_lossy(out);
        let chars = chars_of(text.as_str());
        let n = chars.len();
        let line: &[char] = if n > 0 {
            &chars.as_slice()[0..n - 1]
        } else {
            chars.as_slice()
        };
        assert(line@ =~= (if chars@.len() > 0 { chars@.drop_last() } else { chars@ }));
        let cols = split_chars(line, '\t');
        ZpoolProperties::from_columns(&cols)
    }
}

impl ZpoolPropertiesWriteBuilder {
    /// Construct new builder given existing properties. Useful for updates.
    pub fn from_props(props: &ZpoolProperties) -> (r: ZpoolPropertiesWriteBuilder)
        ensures
            r.read_only == Some(props.read_only),
            r.auto_expand == Some(props.auto_expand),
            r.auto_replace == Some(props.auto_replace),
            r.boot_fs matches Some(b) && opt_view(b) == opt_view(props.boot_fs),
            r.cache_file matches Some(c) && c@ == props.cache_file@,
            r.delegation == Some(props.delegation),
            r.fail_mode == Some(props.fail_mode),
            match props.comment {
                Some(c) => r.comment matches Some(rc) && rc@ == c@,
                None => r.comment is None,
            },
    {
        let mut b = ZpoolPropertiesWriteBuilder::default();
        b.read_only(props.read_only);
        b.auto_expand(props.auto_expand);
        b.auto_replace(props.auto_replace);
        let boot_fs = match &props.boot_fs {
            Some(s) => Some(s.clone()),
            None => None,
        };
        b.boot_fs(boot_fs);
        b.cache_file(props.cache_file.copy());
        b.delegation(props.delegation);
        b.fail_mode(props.fail_mode);
        if let Some(comment) = &props.comment {
            b.comment(comment.as_str());
        }
        b
    }
}

} // verus!
