//! The `zpool(8)` command lines behind each pool operation, and what their
//! output means: the arguments are computed here, the command is run by the
//! caller, which hands the exit status and the output back.
use vstd::prelude::*;

use super::description::{zpools_view, Zpool};
use super::properties::{
    opt_view, properties_from_columns, property_columns, property_columns_ok, spec_cache_type_str,
    spec_fail_mode_str, spec_on_off, PropPair, ZpoolProperties, ZpoolPropertiesWrite,
    ZpoolPropertiesWriteView,
};
use super::topology::{request_args, suitable_for_create, CreateZpoolRequest};
use super::vdev::{extend_strings, strings_view, vdev_args, CreateVdevRequest};
use super::{
    stderr_error, CreateMode, DestroyMode, ExportMode, OfflineMode, OnlineMode, ZpoolError,
    ZpoolResult,
};
use crate::outside::{decode_lossy, utf8_lossy};
use crate::parsers::status::{spec_parse_zpools, StdoutParser};

verus! {

/// The properties that `zpool list -o` is asked for, in the order
/// `ZpoolProperties::try_from_stdout` reads them.
pub const ZPOOL_PROP_ARG: &'static str = "alloc,cap,comment,dedupratio,expandsize,fragmentation,free,freeing,guid,health,size,leaked,altroot,readonly,autoexpand,autoreplace,bootfs,cachefile,dedupditto,delegation,failmode";

/// Options of `zpool status`.
#[derive(Debug, Clone, Copy, PartialEq, Eq, Structural)]
pub struct StatusOptions {
    /// Display full paths of vdevs (`-P`).
    pub full_paths: bool,
    /// Resolve the links of vdevs to their real devices (`-L`).
    pub resolve_links: bool,
}

impl Default for StatusOptions {
    fn default() -> (r: StatusOptions)
        ensures
            r == (StatusOptions { full_paths: false, resolve_links: false }),
    {
        StatusOptions { full_paths: false, resolve_links: false }
    }
}

impl StatusOptions {
    /// Create a builder.
    pub fn builder() -> (r: StatusOptionsBuilder)
        ensures
            r == (StatusOptionsBuilder { full_paths: None, resolve_links: None }),
    {
        StatusOptionsBuilder::default()
    }

    /// Whether full paths are asked for.
    pub fn full_paths(&self) -> (r: &bool)
        ensures
            *r == self.full_paths,
    {
        &self.full_paths
    }

    /// Whether links are resolved.
    pub fn resolve_links(&self) -> (r: &bool)
        ensures
            *r == self.resolve_links,
    {
        &self.resolve_links
    }
}

/// Builder of `StatusOptions`; both options default to off.
#[derive(Debug, Clone, Copy, PartialEq, Eq, Structural)]
pub struct StatusOptionsBuilder {
    pub full_paths: Option<bool>,
    pub resolve_links: Option<bool>,
}

impl Default for StatusOptionsBuilder {
    fn default() -> (r: StatusOptionsBuilder)
        ensures
            r == (StatusOptionsBuilder { full_paths: None, resolve_links: None }),
    {
        StatusOptionsBuilder { full_paths: None, resolve_links: None }
    }
}

impl StatusOptionsBuilder {
    pub fn full_paths(&mut self, value: bool) -> (r: &mut StatusOptionsBuilder)
        ensures
            *r == (StatusOptionsBuilder { full_paths: Some(value), ..*old(self) }),
            *final(self) == *final(r),
    {
        self.full_paths = Some(value);
        self
    }

    pub fn resolve_links(&mut self, value: bool) -> (r: &mut StatusOptionsBuilder)
        ensures
            *r == (StatusOptionsBuilder { resolve_links: Some(value), ..*old(self) }),
            *final(self) == *final(r),
    {
        self.resolve_links = Some(value);
        self
    }

    /// The options, off where not given.
    pub fn build(&self) -> (r: Result<StatusOptions, String>)
        ensures
            r matches Ok(o) && o == (StatusOptions {
                full_paths: self.full_paths.unwrap_or(false),
                resolve_links: self.resolve_links.unwrap_or(false),
            }),
    {
        Ok(
            StatusOptions {
                full_paths: self.full_paths.unwrap_or(false),
                resolve_links: self.resolve_links.unwrap_or(false),
            },
        )
    }
}

/// `flag` when `on`, else nothing.
pub open spec fn flag_if(on: bool, flag: Seq<char>) -> Seq<Seq<char>> {
    if on {
        seq![flag]
    } else {
        Seq::empty()
    }
}

/// `-o key=value` for each property.
pub open spec fn option_args(pairs: Seq<Seq<char>>) -> Seq<Seq<char>>
    decreases pairs.len(),
{
    if pairs.len() == 0 {
        Seq::empty()
    } else {
        option_args(pairs.drop_last()) + seq!["-o"@, pairs.last()]
    }
}

/// The `key=value` arguments of pool properties, in the order of
/// `ZpoolPropertiesWrite::into_args`.
pub open spec fn props_pairs(p: ZpoolPropertiesWriteView) -> Seq<Seq<char>> {
    seq![
        "autoexpand="@ + spec_on_off(p.auto_expand),
        "autoreplace="@ + spec_on_off(p.auto_replace),
        "cachefile="@ + spec_cache_type_str(p.cache_file),
        "comment="@ + p.comment,
        "delegation="@ + spec_on_off(p.delegation),
        "failmode="@ + spec_fail_mode_str(p.fail_mode),
    ] + match p.boot_fs {
        Some(b) => seq!["bootfs="@ + b],
        None => Seq::empty(),
    }
}

/// `flag` followed by the value, when there is one.
pub open spec fn opt_flag(flag: Seq<char>, v: Option<Seq<char>>) -> Seq<Seq<char>> {
    match v {
        Some(x) => seq![flag, x],
        None => Seq::empty(),
    }
}

/// The arguments of `zpool create` for `request`: `create`, `-f` when
/// forced, `-o key=value` for each property, `-m` and the mount point,
/// `-R` and the altroot, the name, and the devices.
pub open spec fn spec_create_args(r: super::topology::CreateZpoolRequestView) -> Seq<Seq<char>> {
    seq!["create"@] + flag_if(r.create_mode == CreateMode::Force, "-f"@) + match r.props {
        Some(p) => option_args(props_pairs(p)),
        None => Seq::empty(),
    } + opt_flag("-m"@, r.mount) + opt_flag("-R"@, r.altroot) + seq![r.name] + request_args(r)
}

/// Whether the text `s` holds a `=`.
pub open spec fn has_equals(s: Seq<char>) -> bool {
    exists|i: int| 0 <= i < s.len() && s[i] == '='
}

proof fn lemma_props_pairs_have_equals(p: ZpoolPropertiesWriteView)
    ensures
        forall|i: int| 0 <= i < props_pairs(p).len() ==> has_equals(#[trigger] props_pairs(p)[i]),
{
    reveal_strlit("autoexpand=");
    reveal_strlit("autoreplace=");
    reveal_strlit("cachefile=");
    reveal_strlit("comment=");
    reveal_strlit("delegation=");
    reveal_strlit("failmode=");
    reveal_strlit("bootfs=");
    let ps = props_pairs(p);
    assert forall|i: int| 0 <= i < ps.len() implies has_equals(#[trigger] ps[i]) by {
        if i == 0 {
            assert(ps[i][10] == '=');
        } else if i == 1 {
            assert(ps[i][11] == '=');
        } else if i == 2 {
            assert(ps[i][9] == '=');
        } else if i == 3 {
            assert(ps[i][7] == '=');
        } else if i == 4 {
            assert(ps[i][10] == '=');
        } else if i == 5 {
            assert(ps[i][8] == '=');
        } else {
            assert(ps[i][6] == '=');
        }
    }
}

proof fn lemma_option_args_items(pairs: Seq<Seq<char>>)
    ensures
        forall|i: int| 0 <= i < option_args(pairs).len() ==> (#[trigger] option_args(pairs)[i] == "-o"@
            || exists|j: int| 0 <= j < pairs.len() && pairs[j] == option_args(pairs)[i]),
    decreases pairs.len(),
{
    if pairs.len() > 0 {
        let front = pairs.drop_last();
        lemma_option_args_items(front);
        let o = option_args(pairs);
        let of = option_args(front);
        assert forall|i: int| 0 <= i < o.len() implies (#[trigger] o[i] == "-o"@
            || exists|j: int| 0 <= j < pairs.len() && pairs[j] == o[i]) by {
            if i < of.len() {
                assert(o[i] == of[i]);
                if of[i] != "-o"@ {
                    let j = choose|j: int| 0 <= j < front.len() && front[j] == of[i];
                    assert(pairs[j] == front[j]);
                }
            } else if i == of.len() + 1 {
                assert(pairs[pairs.len() - 1] == o[i]);
            }
        }
    }
}

/// In the arguments of `zpool create`, before the pool's name: `-m` is
/// followed by the mount point and `-R` by the altroot, each there exactly
/// when the request has one; neither flag stands for anything else. The
/// name is followed by the devices. (Mount points and altroots that are
/// themselves the text `-m` or `-R` are left out.)
pub proof fn lemma_create_args_flags(r: super::topology::CreateZpoolRequestView)
    requires
        r.mount != Some("-m"@),
        r.mount != Some("-R"@),
        r.altroot != Some("-m"@),
        r.altroot != Some("-R"@),
    ensures
        ({
            let a = spec_create_args(r);
            let k = a.len() - request_args(r).len() - 1;
            &&& 0 <= k < a.len()
            &&& a[k] == r.name
            &&& a.skip(k + 1) == request_args(r)
            &&& a[0] == "create"@
            &&& forall|j: int| 0 <= j < k && #[trigger] a[j] == "-m"@ ==> j + 1 < k && r.mount == Some(a[j + 1])
            &&& forall|j: int| 0 <= j < k && #[trigger] a[j] == "-R"@ ==> j + 1 < k && r.altroot == Some(a[j + 1])
            &&& r.mount is Some ==> exists|j: int| 0 <= j && j + 1 < k && #[trigger] a[j] == "-m"@
            &&& r.altroot is Some ==> exists|j: int| 0 <= j && j + 1 < k && #[trigger] a[j] == "-R"@
        }),
{
    reveal_strlit("-m");
    reveal_strlit("-R");
    reveal_strlit("-o");
    reveal_strlit("-f");
    reveal_strlit("create");
    let f = flag_if(r.create_mode == CreateMode::Force, "-f"@);
    let pairs = match r.props {
        Some(p) => props_pairs(p),
        None => Seq::empty(),
    };
    let o = match r.props {
        Some(p) => option_args(props_pairs(p)),
        None => Seq::empty(),
    };
    let m = opt_flag("-m"@, r.mount);
    let rr = opt_flag("-R"@, r.altroot);
    let pre = seq!["create"@] + f + o + m + rr;
    let a = spec_create_args(r);
    assert(a =~= pre + seq![r.name] + request_args(r));
    let k = pre.len() as int;
    assert(a.len() - request_args(r).len() - 1 == k);
    assert(a.skip(k + 1) =~= request_args(r));
    lemma_option_args_items(pairs);
    match r.props {
        Some(p) => {
            lemma_props_pairs_have_equals(p);
        },
        None => {
            assert(option_args(pairs) =~= Seq::<Seq<char>>::empty());
        },
    }
    assert(o == option_args(pairs));
    let om: int = (1 + f.len() + o.len()) as int;
    // every option item is `-o` or holds a `=`, so it is no flag we look for
    assert forall|i: int| 0 <= i < o.len() implies #[trigger] o[i] != "-m"@ && o[i] != "-R"@ by {
        if o[i] != "-o"@ {
            let j = choose|j: int| 0 <= j < pairs.len() && pairs[j] == o[i];
            assert(has_equals(pairs[j]));
            let q = choose|q: int| 0 <= q < pairs[j].len() && pairs[j][q] == '=';
            if o[i] == "-m"@ {
                assert("-m"@[q] == '=');
                assert(false);
            }
            if o[i] == "-R"@ {
                assert("-R"@[q] == '=');
                assert(false);
            }
        } else {
            assert("-o"@[1] != "-m"@[1]);
            assert("-o"@[1] != "-R"@[1]);
        }
    }
    assert forall|j: int| 0 <= j < k && #[trigger] a[j] == "-m"@ implies j + 1 < k && r.mount == Some(a[j + 1]) by {
        assert(a[j] == pre[j]);
        if j == 0 {
            assert("create"@.len() != "-m"@.len());
        } else if j < 1 + f.len() {
            assert(pre[j] == f[j - 1]);
            assert("-f"@[1] != "-m"@[1]);
        } else if j < om {
            assert(pre[j] == o[j - 1 - f.len()]);
        } else if j < om + m.len() {
            assert(pre[j] == m[j - om]);
            if j == om {
                assert(a[j + 1] == pre[j + 1]);
                assert(pre[j + 1] == m[1]);
            } else {
                assert(m[1] == r.mount->0);
            }
        } else {
            assert(pre[j] == rr[j - om - m.len()]);
            assert("-R"@[1] != "-m"@[1]);
        }
    }
    assert forall|j: int| 0 <= j < k && #[trigger] a[j] == "-R"@ implies j + 1 < k && r.altroot == Some(a[j + 1]) by {
        assert(a[j] == pre[j]);
        if j == 0 {
            assert("create"@.len() != "-R"@.len());
        } else if j < 1 + f.len() {
            assert(pre[j] == f[j - 1]);
            assert("-f"@[1] != "-R"@[1]);
        } else if j < om {
            assert(pre[j] == o[j - 1 - f.len()]);
        } else if j < om + m.len() {
            assert(pre[j] == m[j - om]);
            assert("-R"@[1] != "-m"@[1]);
        } else {
            assert(pre[j] == rr[j - om - m.len()]);
            if j == om + m.len() {
                assert(a[j + 1] == pre[j + 1]);
                assert(pre[j + 1] == rr[1]);
            } else {
                assert(rr[1] == r.altroot->0);
            }
        }
    }
    if r.mount is Some {
        assert(a[om] == "-m"@);
    }
    if r.altroot is Some {
        assert(a[om + m.len()] == "-R"@);
    }
}

/// Arguments that ask whether the pool `name` exists.
pub fn exists_args(name: &str) -> (r: Vec<String>)
    ensures
        strings_view(r@) == seq!["list"@, name@],
{
    let r = vec!["list".to_owned(), name.to_owned()];
    assert(strings_view(r@) =~= seq!["list"@, name@]);
    r
}

/// Appends `-o` and each of `pairs`.
fn push_options(out: &mut Vec<String>, pairs: &Vec<String>)
    ensures
        strings_view(final(out)@) == strings_view(old(out)@) + option_args(strings_view(pairs@)),
{
    let ghost start = strings_view(out@);
    let mut i: usize = 0;
    assert(strings_view(pairs@).take(0) =~= Seq::<Seq<char>>::empty());
    assert(start + Seq::<Seq<char>>::empty() =~= start);
    while i < pairs.len()
        invariant
            i <= pairs@.len(),
            strings_view(out@) == start + option_args(strings_view(pairs@).take(i as int)),
        decreases pairs@.len() - i,
    {
        let ghost before = strings_view(out@);
        out.push("-o".to_owned());
        out.push(pairs[i].clone());
        assert(strings_view(pairs@).take(i + 1).drop_last() =~= strings_view(pairs@).take(i as int));
        assert(strings_view(out@) =~= before + seq!["-o"@, pairs@[i as int]@]);
        assert(strings_view(out@) =~= start + option_args(strings_view(pairs@).take(i + 1)));
        i += 1;
    }
    assert(strings_view(pairs@).take(pairs@.len() as int) =~= strings_view(pairs@));
}

/// Arguments of `zpool create` for `request`; an invalid topology when the
/// request is not suitable for a new pool.
pub fn create_args(request: CreateZpoolRequest) -> (r: ZpoolResult<Vec<String>>)
    ensures
        suitable_for_create(request@) ==> (r matches Ok(a) && strings_view(a@) == spec_create_args(request@)),
        !suitable_for_create(request@) ==> (r matches Err(e) && e is InvalidTopology),
{
    if !request.is_suitable_for_create() {
        return Err(ZpoolError::InvalidTopology);
    }
    let ghost rv = request@;
    let mut z: Vec<String> = Vec::new();
    z.push("create".to_owned());
    if request.create_mode == CreateMode::Force {
        z.push("-f".to_owned());
    }
    assert(strings_view(z@) =~= seq!["create"@] + flag_if(rv.create_mode == CreateMode::Force, "-f"@));
    let ghost s1 = strings_view(z@);
    match &request.props {
        Some(p) => {
            let pairs = p.copy().into_args();
            assert(strings_view(pairs@) =~= props_pairs(p@));
            push_options(&mut z, &pairs);
        },
        None => {
            assert(strings_view(z@) =~= s1 + Seq::<Seq<char>>::empty());
        },
    }
    let ghost s2 = strings_view(z@);
    match &request.mount {
        Some(m) => {
            z.push("-m".to_owned());
            z.push(m.clone());
            assert(strings_view(z@) =~= s2 + seq!["-m"@, m@]);
        },
        None => {
            assert(strings_view(z@) =~= s2 + Seq::<Seq<char>>::empty());
        },
    }
    let ghost s3 = strings_view(z@);
    match &request.altroot {
        Some(a) => {
            z.push("-R".to_owned());
            z.push(a.clone());
            assert(strings_view(z@) =~= s3 + seq!["-R"@, a@]);
        },
        None => {
            assert(strings_view(z@) =~= s3 + Seq::<Seq<char>>::empty());
        },
    }
    let ghost s4 = strings_view(z@);
    z.push(request.name.clone());
    assert(strings_view(z@) =~= s4 + seq![rv.name]);
    let rest = request.into_args();
    extend_strings(&mut z, &rest);
    assert(strings_view(z@) =~= spec_create_args(rv));
    Ok(z)
}

/// Arguments of `zpool destroy`.
pub fn destroy_args(name: &str, mode: DestroyMode) -> (r: Vec<String>)
    ensures
        strings_view(r@) == seq!["destroy"@] + flag_if(mode == DestroyMode::Force, "-f"@) + seq![name@],
{
    let mut r: Vec<String> = Vec::new();
    r.push("destroy".to_owned());
    if mode == DestroyMode::Force {
        r.push("-f".to_owned());
    }
    r.push(name.to_owned());
    assert(strings_view(r@) =~= seq!["destroy"@] + flag_if(mode == DestroyMode::Force, "-f"@)
        + seq![name@]);
    r
}

/// Arguments of `zpool list` that read the properties of the pool `name`.
pub fn read_properties_args(name: &str) -> (r: Vec<String>)
    ensures
        strings_view(r@) == seq!["list"@, "-p"@, "-H"@, "-o"@, ZPOOL_PROP_ARG@, name@],
{
    let r = vec![
        "list".to_owned(),
        "-p".to_owned(),
        "-H".to_owned(),
        "-o".to_owned(),
        ZPOOL_PROP_ARG.to_owned(),
        name.to_owned(),
    ];
    assert(strings_view(r@) =~= seq!["list"@, "-p"@, "-H"@, "-o"@, ZPOOL_PROP_ARG@, name@]);
    r
}

/// Arguments of `zpool set` that give the property `key` of the pool `name`
/// the value `value`.
pub fn set_property_args<P: PropPair>(name: &str, key: &str, value: &P) -> (r: Vec<String>)
    ensures
        strings_view(r@) == seq!["set"@, key@ + seq!['='] + value.pair_value(), name@],
{
    let r = vec!["set".to_owned(), value.to_pair(key), name.to_owned()];
    assert(strings_view(r@) =~= seq!["set"@, key@ + seq!['='] + value.pair_value(), name@]);
    r
}

/// Arguments of `zpool set` that set a property given as `key=value` on the
/// pool `name`.
pub fn set_pair_args(name: &str, pair: &str) -> (r: Vec<String>)
    ensures
        strings_view(r@) == seq!["set"@, pair@, name@],
{
    let r = vec!["set".to_owned(), pair.to_owned(), name.to_owned()];
    assert(strings_view(r@) =~= seq!["set"@, pair@, name@]);
    r
}

/// What the answer to whether a pool exists means for an operation on it:
/// go on when it does, `PoolNotFound` when it does not.
pub fn pool_presence(exists: bool) -> (r: ZpoolResult<()>)
    ensures
        exists ==> r is Ok,
        !exists ==> (r matches Err(e) && e is PoolNotFound),
{
    if exists {
        Ok(())
    } else {
        Err(ZpoolError::PoolNotFound)
    }
}

/// The properties that a successful `zpool list -p -H -o ...` printed, or
/// the error its stderr describes.
pub fn properties_from_output(success: bool, stdout: &[u8], stderr: &[u8]) -> (r: ZpoolResult<ZpoolProperties>)
    ensures
        success ==> (r is Ok <==> property_columns_ok(property_columns(stdout@))),
        success ==> (r matches Ok(p) ==> properties_from_columns(p, property_columns(stdout@))),
        success ==> (r matches Err(e) ==> e is ParseError),
        !success ==> (r matches Err(e) && stderr_error(e, stderr@)),
{
    if success {
        ZpoolProperties::try_from_stdout(stdout)
    } else {
        Err(ZpoolError::from_stderr(stderr))
    }
}

/// Arguments of `zpool export`.
pub fn export_args(name: &str, mode: ExportMode) -> (r: Vec<String>)
    ensures
        strings_view(r@) == seq!["export"@] + flag_if(mode == ExportMode::Force, "-f"@) + seq![name@],
{
    let mut r: Vec<String> = Vec::new();
    r.push("export".to_owned());
    if mode == ExportMode::Force {
        r.push("-f".to_owned());
    }
    r.push(name.to_owned());
    assert(strings_view(r@) =~= seq!["export"@] + flag_if(mode == ExportMode::Force, "-f"@)
        + seq![name@]);
    r
}

/// The optional text as a sequence of at most one argument.
pub open spec fn opt_arg(v: Option<Seq<char>>) -> Seq<Seq<char>> {
    match v {
        Some(x) => seq![x],
        None => Seq::empty(),
    }
}

/// The view of an optional string slice.
pub open spec fn opt_str(v: Option<&str>) -> Option<Seq<char>> {
    match v {
        Some(x) => Some(x@),
        None => None,
    }
}

/// Arguments of `zpool import`: `-d` and the directory to search when one
/// is given, then the pool to import when one is given (without one, the
/// pools available for import are listed).
pub fn import_args(name: Option<&str>, dir: Option<&str>) -> (r: Vec<String>)
    ensures
        strings_view(r@) == seq!["import"@] + opt_flag("-d"@, opt_str(dir)) + opt_arg(opt_str(name)),
{
    let mut r: Vec<String> = Vec::new();
    r.push("import".to_owned());
    if let Some(d) = dir {
        r.push("-d".to_owned());
        r.push(d.to_owned());
    }
    if let Some(n) = name {
        r.push(n.to_owned());
    }
    assert(strings_view(r@) =~= seq!["import"@] + opt_flag("-d"@, opt_str(dir)) + opt_arg(
        opt_str(name),
    ));
    r
}

/// Arguments of `zpool status`: `-P` and `-L` as the options ask, then the
/// pool when one is given (without one, every pool is reported).
pub fn status_args(name: Option<&str>, opts: StatusOptions) -> (r: Vec<String>)
    ensures
        strings_view(r@) == seq!["status"@] + flag_if(opts.full_paths, "-P"@) + flag_if(
            opts.resolve_links,
            "-L"@,
        ) + opt_arg(opt_str(name)),
{
    let mut r: Vec<String> = Vec::new();
    r.push("status".to_owned());
    if opts.full_paths {
        r.push("-P".to_owned());
    }
    if opts.resolve_links {
        r.push("-L".to_owned());
    }
    if let Some(n) = name {
        r.push(n.to_owned());
    }
    assert(strings_view(r@) =~= seq!["status"@] + flag_if(opts.full_paths, "-P"@) + flag_if(
        opts.resolve_links,
        "-L"@,
    ) + opt_arg(opt_str(name)));
    r
}

/// What to do with a scrub.
#[derive(Debug, Clone, Copy, PartialEq, Eq, Structural)]
pub enum ScrubAction {
    /// Begin a scrub or resume a paused one.
    Start,
    /// Pause the scrub (`-p`).
    Pause,
    /// Stop the scrub (`-s`).
    Stop,
}

/// The flag of a scrub action.
pub open spec fn scrub_flag(a: ScrubAction) -> Seq<Seq<char>> {
    match a {
        ScrubAction::Start => Seq::empty(),
        ScrubAction::Pause => seq!["-p"@],
        ScrubAction::Stop => seq!["-s"@],
    }
}

/// Arguments of `zpool scrub`.
pub fn scrub_args(name: &str, action: ScrubAction) -> (r: Vec<String>)
    ensures
        strings_view(r@) == seq!["scrub"@] + scrub_flag(action) + seq![name@],
{
    let mut r: Vec<String> = Vec::new();
    r.push("scrub".to_owned());
    match action {
        ScrubAction::Start => {},
        ScrubAction::Pause => r.push("-p".to_owned()),
        ScrubAction::Stop => r.push("-s".to_owned()),
    }
    r.push(name.to_owned());
    assert(strings_view(r@) =~= seq!["scrub"@] + scrub_flag(action) + seq![name@]);
    r
}

/// Arguments of `zpool offline`; `-t` takes the device offline until reboot.
pub fn take_offline_args(name: &str, device: &str, mode: OfflineMode) -> (r: Vec<String>)
    ensures
        strings_view(r@) == seq!["offline"@] + flag_if(mode == OfflineMode::UntilReboot, "-t"@)
            + seq![name@, device@],
{
    let mut r: Vec<String> = Vec::new();
    r.push("offline".to_owned());
    if mode == OfflineMode::UntilReboot {
        r.push("-t".to_owned());
    }
    r.push(name.to_owned());
    r.push(device.to_owned());
    assert(strings_view(r@) =~= seq!["offline"@] + flag_if(mode == OfflineMode::UntilReboot, "-t"@)
        + seq![name@, device@]);
    r
}

/// Arguments of `zpool online`; `-e` expands the device.
pub fn bring_online_args(name: &str, device: &str, mode: OnlineMode) -> (r: Vec<String>)
    ensures
        strings_view(r@) == seq!["online"@] + flag_if(mode == OnlineMode::Expand, "-e"@) + seq![
            name@,
            device@,
        ],
{
    let mut r: Vec<String> = Vec::new();
    r.push("online".to_owned());
    if mode == OnlineMode::Expand {
        r.push("-e".to_owned());
    }
    r.push(name.to_owned());
    r.push(device.to_owned());
    assert(strings_view(r@) =~= seq!["online"@] + flag_if(mode == OnlineMode::Expand, "-e"@) + seq![
        name@,
        device@,
    ]);
    r
}

/// Arguments of a command that names the pool and then devices: `attach`,
/// `detach`, `replace` and `remove`.
pub fn device_args(command: &str, name: &str, devices: &Vec<String>) -> (r: Vec<String>)
    ensures
        strings_view(r@) == seq![command@, name@] + strings_view(devices@),
{
    let mut r: Vec<String> = Vec::new();
    r.push(command.to_owned());
    r.push(name.to_owned());
    assert(strings_view(r@) =~= seq![command@, name@]);
    extend_strings(&mut r, devices);
    r
}

/// What is added to a pool: vdevs, a log, a cache device or a spare.
pub open spec fn add_kind_word(kind: AddKind) -> Seq<Seq<char>> {
    match kind {
        AddKind::Vdev => Seq::empty(),
        AddKind::Log => seq!["log"@],
        AddKind::Cache => seq!["cache"@],
        AddKind::Spare => seq!["spare"@],
    }
}

/// The role of devices added to a pool.
#[derive(Debug, Clone, Copy, PartialEq, Eq, Structural)]
pub enum AddKind {
    /// Devices that store data.
    Vdev,
    /// A ZFS intent log.
    Log,
    /// A cache device.
    Cache,
    /// A hot spare.
    Spare,
}

/// Arguments of `zpool add`: `-f` when forced, the pool, the role of the
/// devices (none for data vdevs), and the arguments of the devices.
pub fn add_args(name: &str, kind: AddKind, devices: &Vec<String>, mode: CreateMode) -> (r: Vec<String>)
    ensures
        strings_view(r@) == seq!["add"@] + flag_if(mode == CreateMode::Force, "-f"@) + seq![name@]
            + add_kind_word(kind) + strings_view(devices@),
{
    let mut r: Vec<String> = Vec::new();
    r.push("add".to_owned());
    if mode == CreateMode::Force {
        r.push("-f".to_owned());
    }
    r.push(name.to_owned());
    match kind {
        AddKind::Vdev => {},
        AddKind::Log => r.push("log".to_owned()),
        AddKind::Cache => r.push("cache".to_owned()),
        AddKind::Spare => r.push("spare".to_owned()),
    }
    assert(strings_view(r@) =~= seq!["add"@] + flag_if(mode == CreateMode::Force, "-f"@) + seq![
        name@,
    ] + add_kind_word(kind));
    extend_strings(&mut r, devices);
    r
}

/// The arguments of `zpool add` for a new vdev of the kind given.
pub fn add_vdev_args(name: &str, kind: AddKind, vdev: CreateVdevRequest, mode: CreateMode) -> (r: Vec<
    String,
>)
    ensures
        strings_view(r@) == seq!["add"@] + flag_if(mode == CreateMode::Force, "-f"@) + seq![name@]
            + add_kind_word(kind) + vdev_args(vdev@),
{
    let devices = vdev.into_args();
    add_args(name, kind, &devices, mode)
}

/// What a run of `zpool` that reports nothing on success gives: success,
/// or the error its stderr describes.
pub fn command_result(success: bool, stderr: &[u8]) -> (r: ZpoolResult<()>)
    ensures
        success ==> r is Ok,
        !success ==> (r matches Err(e) && stderr_error(e, stderr@)),
{
    if success {
        Ok(())
    } else {
        Err(ZpoolError::from_stderr(stderr))
    }
}

/// The pools that a run of `zpool import` or `zpool status` reports: on
/// success, the pools its output describes (a parse error when it cannot be
/// read); on failure with no output at all, no pools; else the error its
/// stderr describes.
pub fn zpools_from_import(success: bool, stdout: &[u8], stderr: &[u8]) -> (r: ZpoolResult<Vec<Zpool>>)
    ensures
        success ==> match spec_parse_zpools(utf8_lossy(stdout@)) {
            Some(v) => r matches Ok(z) && zpools_view(z@) == v,
            None => r matches Err(e) && e is ParseError,
        },
        !success && stdout@.len() == 0 && stderr@.len() == 0 ==> (r matches Ok(z) && z@.len() == 0),
        !success && !(stdout@.len() == 0 && stderr@.len() == 0) ==> (r matches Err(e)
            && stderr_error(e, stderr@)),
{
    if success {
        let text = decode_lossy(stdout);
        StdoutParser::parse_zpools(text.as_str())
    } else {
        if stderr.len() == 0 && stdout.len() == 0 {
            return Ok(Vec::new());
        }
        Err(ZpoolError::from_stderr(stderr))
    }
}

/// The comment a pool should have: none when the desired comment is empty.
pub open spec fn desired_comment(c: Seq<char>) -> Option<Seq<char>> {
    if c.len() == 0 {
        None
    } else {
        Some(c)
    }
}

/// `key=value`.
pub open spec fn kv(key: Seq<char>, value: Seq<char>) -> Seq<char> {
    key + seq!['='] + value
}

/// The `key=value` pair when the current value differs from the desired one.
pub open spec fn pair_if(differs: bool, pair: Seq<char>) -> Seq<Seq<char>> {
    if differs {
        seq![pair]
    } else {
        Seq::empty()
    }
}

/// The properties to set so that a pool with properties `cur` gets the
/// writable properties `p`, as `key=value`, in this order: autoexpand,
/// autoreplace, cachefile, comment, delegation, failmode; each only when it
/// differs. An empty desired comment stands for no comment.
pub open spec fn update_pairs(cur: ZpoolProperties, p: ZpoolPropertiesWriteView) -> Seq<Seq<char>> {
    pair_if(cur.auto_expand != p.auto_expand, kv("autoexpand"@, spec_on_off(p.auto_expand)))
        + pair_if(cur.auto_replace != p.auto_replace, kv("autoreplace"@, spec_on_off(p.auto_replace)))
        + pair_if(cur.cache_file@ != p.cache_file, kv("cachefile"@, spec_cache_type_str(p.cache_file)))
        + pair_if(opt_view(cur.comment) != desired_comment(p.comment), kv("comment"@, p.comment))
        + pair_if(cur.delegation != p.delegation, kv("delegation"@, spec_on_off(p.delegation)))
        + pair_if(cur.fail_mode != p.fail_mode, kv("failmode"@, spec_fail_mode_str(p.fail_mode)))
}

/// Whether a pool with properties `cur` already has the writable
/// properties `p` (an empty desired comment standing for no comment).
pub open spec fn has_properties(cur: ZpoolProperties, p: ZpoolPropertiesWriteView) -> bool {
    &&& cur.auto_expand == p.auto_expand
    &&& cur.auto_replace == p.auto_replace
    &&& cur.cache_file@ == p.cache_file
    &&& opt_view(cur.comment) == desired_comment(p.comment)
    &&& cur.delegation == p.delegation
    &&& cur.fail_mode == p.fail_mode
}

/// Nothing is set on a pool that already has the desired properties, and
/// something is set on every other pool.
pub proof fn lemma_no_update_iff_same(cur: ZpoolProperties, p: ZpoolPropertiesWriteView)
    ensures
        update_pairs(cur, p).len() == 0 <==> has_properties(cur, p),
{
}

/// Appends `key=value` when `differs`.
fn push_pair_if<P: PropPair>(r: &mut Vec<String>, differs: bool, key: &str, value: &P)
    ensures
        strings_view(final(r)@) == strings_view(old(r)@) + pair_if(differs, kv(key@, value.pair_value())),
{
    let ghost before = strings_view(r@);
    if differs {
        r.push(value.to_pair(key));
        assert(strings_view(r@) =~= before + seq![kv(key@, value.pair_value())]);
    } else {
        assert(strings_view(r@) =~= before + Seq::<Seq<char>>::empty());
    }
}

/// The `key=value` pairs that `zpool set` has to be given so that a pool
/// whose properties are `current` gets the properties `props`.
pub fn property_updates(current: &ZpoolProperties, props: &ZpoolPropertiesWrite) -> (r: Vec<String>)
    ensures
        strings_view(r@) == update_pairs(*current, props@),
{
    let mut r: Vec<String> = Vec::new();
    assert(strings_view(r@) =~= Seq::<Seq<char>>::empty());
    push_pair_if(&mut r, current.auto_expand != props.auto_expand, "autoexpand", &props.auto_expand);
    push_pair_if(&mut r, current.auto_replace != props.auto_replace, "autoreplace", &props.auto_replace);
    push_pair_if(&mut r, !current.cache_file.same_as(&props.cache_file), "cachefile", &props.cache_file);
    let same_comment = match &current.comment {
        Some(c) => props.comment.as_str().unicode_len() > 0 && c.eq(&props.comment),
        None => props.comment.as_str().unicode_len() == 0,
    };
    push_pair_if(&mut r, !same_comment, "comment", &props.comment);
    push_pair_if(&mut r, current.delegation != props.delegation, "delegation", &props.delegation);
    push_pair_if(&mut r, current.fail_mode != props.fail_mode, "failmode", &props.fail_mode);
    assert(strings_view(r@) =~= update_pairs(*current, props@));
    r
}

} // verus!
