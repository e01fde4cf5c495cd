//! What a pool consists of: the request that creates a pool, or adds devices
//! to one, and the arguments of `zpool create` it stands for.
//!
//! Two drives in a mirror, no cache, no log:
//!
//! ```text
//! let topo = CreateZpoolRequest::builder()
//!     .name("tank")
//!     .vdevs(vec![CreateVdevRequest::Mirror(vec!["sd0".to_string(), "sd1".to_string()])])
//!     .build()
//!     .unwrap();
//! ```
use vstd::prelude::*;

use super::properties::{copy_opt_string, opt_view, ZpoolPropertiesWrite, ZpoolPropertiesWriteView};
use super::vdev::{
    copy_strings, extend_strings, min_disks, same_path_lists, same_paths, strings_view,
    vdev_args, CreateVdevRequest, VdevType,
};
use super::CreateMode;
use crate::path::same_path;

verus! {

/// The type and disk paths of each of a list of vdev requests.
pub open spec fn requests_view(v: Seq<CreateVdevRequest>) -> Seq<(VdevType, Seq<Seq<char>>)> {
    v.map_values(|r: CreateVdevRequest| r@)
}

/// The arguments that stand for a list of vdevs, one after the other.
pub open spec fn all_vdev_args(s: Seq<(VdevType, Seq<Seq<char>>)>) -> Seq<Seq<char>>
    decreases s.len(),
{
    if s.len() == 0 {
        Seq::empty()
    } else {
        all_vdev_args(s.drop_last()) + vdev_args(s.last())
    }
}

/// Whether each vdev of the list has enough disks for its type.
pub open spec fn all_valid(s: Seq<(VdevType, Seq<Seq<char>>)>) -> bool {
    forall|i: int| 0 <= i < s.len() ==> #[trigger] s[i].1.len() >= min_disks(s[i].0)
}

/// `items` after the word `tag`, or nothing when there are no items.
pub open spec fn tagged(tag: Seq<char>, n: nat, items: Seq<Seq<char>>) -> Seq<Seq<char>> {
    if n > 0 {
        seq![tag] + items
    } else {
        Seq::empty()
    }
}

/// Whether two optional paths are both absent or name the same file.
pub open spec fn same_opt_path(a: Option<Seq<char>>, b: Option<Seq<char>>) -> bool {
    match (a, b) {
        (Some(x), Some(y)) => same_path(x, y),
        (None, None) => true,
        _ => false,
    }
}

/// Whether two lists of vdev requests ask for the same vdevs, one for one.
pub open spec fn same_requests(
    a: Seq<(VdevType, Seq<Seq<char>>)>,
    b: Seq<(VdevType, Seq<Seq<char>>)>,
) -> bool {
    &&& a.len() == b.len()
    &&& forall|i: int|
        0 <= i < a.len() ==> (#[trigger] a[i]).0 == b[i].0 && same_paths(a[i].1, b[i].1)
}

/// What a request holds.
pub struct CreateZpoolRequestView {
    pub name: Seq<char>,
    pub props: Option<ZpoolPropertiesWriteView>,
    pub altroot: Option<Seq<char>>,
    pub mount: Option<Seq<char>>,
    pub create_mode: CreateMode,
    pub vdevs: Seq<(VdevType, Seq<Seq<char>>)>,
    pub caches: Seq<Seq<char>>,
    pub logs: Seq<(VdevType, Seq<Seq<char>>)>,
    pub spares: Seq<Seq<char>>,
}

/// Structure representing what zpool consist of.
/// This structure is used in zpool creation and when new drives are attached.
#[derive(Debug, Clone)]
pub struct CreateZpoolRequest {
    /// Name to give new zpool
    pub name: String,
    /// Properties if new zpool
    pub props: Option<ZpoolPropertiesWrite>,
    /// Altroot for zpool
    pub altroot: Option<String>,
    /// Mount mount point for zpool
    pub mount: Option<String>,
    /// Use `-f` or not;
    pub create_mode: CreateMode,
    /// Devices used to store data
    pub vdevs: Vec<CreateVdevRequest>,
    /// Adding a cache vdev to a pool will add the storage of the cache to the
    /// [L2ARC](https://www.freebsd.org/doc/handbook/zfs-term.html#zfs-term-l2arc). Cache devices
    /// cannot be mirrored. Since a cache device only stores additional copies
    /// of existing data, there is no risk of data loss.
    pub caches: Vec<String>,
    /// ZFS Log Devices, also known as ZFS Intent Log
    /// ([ZIL](https://www.freebsd.org/doc/handbook/zfs-term.html#zfs-term-zil)), move the intent
    /// log from the regular pool devices to a dedicated device, typically an SSD.
    /// Log devices can be mirrored, but RAID-Z is not supported.
    pub logs: Vec<CreateVdevRequest>,
    /// Hot spares: devices that replace a failed or faulted device of the pool.
    pub spares: Vec<String>,
}

/// The view of optional properties.
pub open spec fn props_view(p: Option<ZpoolPropertiesWrite>) -> Option<ZpoolPropertiesWriteView> {
    match p {
        Some(x) => Some(x@),
        None => None,
    }
}

impl View for CreateZpoolRequest {
    type V = CreateZpoolRequestView;

    open spec fn view(&self) -> CreateZpoolRequestView {
        CreateZpoolRequestView {
            name: self.name@,
            props: props_view(self.props),
            altroot: opt_view(self.altroot),
            mount: opt_view(self.mount),
            create_mode: self.create_mode,
            vdevs: requests_view(self.vdevs@),
            caches: strings_view(self.caches@),
            logs: requests_view(self.logs@),
            spares: strings_view(self.spares@),
        }
    }
}

/// The arguments of `zpool create` that describe the devices of a request:
/// the vdevs, then `log` and the log vdevs, `cache` and the caches, `spare`
/// and the spares, each group only when it is not empty.
pub open spec fn request_args(r: CreateZpoolRequestView) -> Seq<Seq<char>> {
    all_vdev_args(r.vdevs) + tagged("log"@, r.logs.len(), all_vdev_args(r.logs)) + tagged(
        "cache"@,
        r.caches.len(),
        r.caches,
    ) + tagged("spare"@, r.spares.len(), r.spares)
}

/// Appends the arguments of each of `vdevs` to `out`.
fn push_vdev_args(out: &mut Vec<String>, vdevs: &Vec<CreateVdevRequest>)
    ensures
        strings_view(final(out)@) == strings_view(old(out)@) + all_vdev_args(requests_view(vdevs@)),
{
    let ghost start = strings_view(out@);
    let mut i: usize = 0;
    assert(requests_view(vdevs@).take(0) =~= Seq::<(VdevType, Seq<Seq<char>>)>::empty());
    assert(start + Seq::<Seq<char>>::empty() =~= start);
    while i < vdevs.len()
        invariant
            i <= vdevs@.len(),
            strings_view(out@) == start + all_vdev_args(requests_view(vdevs@).take(i as int)),
        decreases vdevs@.len() - i,
    {
        let args = vdevs[i].copy().into_args();
        let ghost before = strings_view(out@);
        extend_strings(out, &args);
        assert(requests_view(vdevs@).take(i + 1).drop_last() =~= requests_view(vdevs@).take(
            i as int,
        ));
        assert(strings_view(out@) =~= start + all_vdev_args(requests_view(vdevs@).take(i + 1)));
        i += 1;
    }
    assert(requests_view(vdevs@).take(vdevs@.len() as int) =~= requests_view(vdevs@));
}

/// Whether every one of `vdevs` has enough disks for its type.
fn all_requests_valid(vdevs: &Vec<CreateVdevRequest>) -> (r: bool)
    ensures
        r == all_valid(requests_view(vdevs@)),
{
    let mut i: usize = 0;
    while i < vdevs.len()
        invariant
            i <= vdevs@.len(),
            forall|k: int|
                0 <= k < i ==> #[trigger] requests_view(vdevs@)[k].1.len() >= min_disks(
                    requests_view(vdevs@)[k].0,
                ),
        decreases vdevs@.len() - i,
    {
        if !vdevs[i].is_valid() {
            assert(!(requests_view(vdevs@)[i as int].1.len() >= min_disks(
                requests_view(vdevs@)[i as int].0,
            )));
            return false;
        }
        i += 1;
    }
    true
}

/// A copy of a list of vdev requests.
pub fn copy_requests(v: &Vec<CreateVdevRequest>) -> (r: Vec<CreateVdevRequest>)
    ensures
        requests_view(r@) == requests_view(v@),
{
    let mut r: Vec<CreateVdevRequest> = Vec::new();
    let mut i: usize = 0;
    while i < v.len()
        invariant
            i <= v@.len(),
            requests_view(r@) == requests_view(v@).take(i as int),
        decreases v@.len() - i,
    {
        let ghost before = r@;
        let d = v[i].copy();
        r.push(d);
        assert(requests_view(r@) =~= requests_view(before).push(v@[i as int]@));
        assert(requests_view(v@).take(i + 1) =~= requests_view(v@).take(i as int).push(
            v@[i as int]@,
        ));
        i += 1;
    }
    assert(requests_view(v@).take(v@.len() as int) =~= requests_view(v@));
    r
}

/// Whether two lists of vdev requests ask for the same vdevs.
fn same_request_lists(a: &Vec<CreateVdevRequest>, b: &Vec<CreateVdevRequest>) -> (r: bool)
    ensures
        r == same_requests(requests_view(a@), requests_view(b@)),
{
    if a.len() != b.len() {
        return false;
    }
    let mut i: usize = 0;
    while i < a.len()
        invariant
            a@.len() == b@.len(),
            i <= a@.len(),
            forall|k: int|
                0 <= k < i ==> (#[trigger] requests_view(a@)[k]).0 == requests_view(b@)[k].0
                    && same_paths(requests_view(a@)[k].1, requests_view(b@)[k].1),
        decreases a@.len() - i,
    {
        if !a[i].eq(&b[i]) {
            assert(!((requests_view(a@)[i as int]).0 == requests_view(b@)[i as int].0
                && same_paths(requests_view(a@)[i as int].1, requests_view(b@)[i as int].1)));
            return false;
        }
        i += 1;
    }
    true
}

/// Whether two optional paths are both absent or name the same file.
pub(crate) fn same_opt_paths(a: &Option<String>, b: &Option<String>) -> (r: bool)
    ensures
        r == same_opt_path(opt_view(*a), opt_view(*b)),
{
    match (a, b) {
        (Some(x), Some(y)) => super::vdev::same_path_str(x.as_str(), y.as_str()),
        (None, None) => true,
        _ => false,
    }
}

impl CreateZpoolRequest {
    /// Create builder
    pub fn builder() -> (r: CreateZpoolRequestBuilder)
        ensures
            r == CreateZpoolRequestBuilder::empty(),
    {
        CreateZpoolRequestBuilder::default()
    }

    /// Verify that given topology can be used to update existing pool: every
    /// vdev and every log has enough disks for its type.
    pub fn is_suitable_for_update(&self) -> (r: bool)
        ensures
            r == suitable_for_update(self@),
    {
        if !all_requests_valid(&self.vdevs) {
            return false;
        }
        all_requests_valid(&self.logs)
    }

    /// Verify that given topology can be used to create new zpool: it has at
    /// least one vdev and is suitable for an update.
    pub fn is_suitable_for_create(&self) -> (r: bool)
        ensures
            r == suitable_for_create(self@),
    {
        if self.vdevs.len() == 0 {
            return false;
        }
        self.is_suitable_for_update()
    }

    /// Make CreateZpoolRequest usable as arguments of `zpool create`.
    pub fn into_args(self) -> (r: Vec<String>)
        ensures
            strings_view(r@) == request_args(self@),
    {
        proof {
            reveal_strlit("log");
            reveal_strlit("cache");
            reveal_strlit("spare");
        }
        let mut ret: Vec<String> = Vec::new();
        assert(strings_view(ret@) =~= Seq::<Seq<char>>::empty());
        push_vdev_args(&mut ret, &self.vdevs);
        let ghost after_vdevs = strings_view(ret@);
        if self.logs.len() > 0 {
            ret.push("log".to_owned());
            assert(strings_view(ret@) =~= after_vdevs + seq!["log"@]);
            push_vdev_args(&mut ret, &self.logs);
        }
        assert(strings_view(ret@) =~= all_vdev_args(self@.vdevs) + tagged(
            "log"@,
            self@.logs.len(),
            all_vdev_args(self@.logs),
        ));
        let ghost after_logs = strings_view(ret@);
        if self.caches.len() > 0 {
            ret.push("cache".to_owned());
            assert(strings_view(ret@) =~= after_logs + seq!["cache"@]);
            extend_strings(&mut ret, &self.caches);
        }
        assert(strings_view(ret@) =~= after_logs + tagged("cache"@, self@.caches.len(), self@.caches));
        let ghost after_caches = strings_view(ret@);
        if self.spares.len() > 0 {
            ret.push("spare".to_owned());
            assert(strings_view(ret@) =~= after_caches + seq!["spare"@]);
            extend_strings(&mut ret, &self.spares);
        }
        assert(strings_view(ret@) =~= after_caches + tagged("spare"@, self@.spares.len(), self@.spares));
        ret
    }

    /// Name to give the new pool.
    pub fn name(&self) -> (r: &String)
        ensures
            r@ == self.name@,
    {
        &self.name
    }

    /// Properties of the new pool.
    pub fn props(&self) -> (r: &Option<ZpoolPropertiesWrite>)
        ensures
            props_view(*r) == props_view(self.props),
    {
        &self.props
    }

    /// Alternate root of the new pool.
    pub fn altroot(&self) -> (r: &Option<String>)
        ensures
            opt_view(*r) == opt_view(self.altroot),
    {
        &self.altroot
    }

    /// Mount point of the new pool.
    pub fn mount(&self) -> (r: &Option<String>)
        ensures
            opt_view(*r) == opt_view(self.mount),
    {
        &self.mount
    }

    /// Whether to force the use of the vdevs.
    pub fn create_mode(&self) -> (r: &CreateMode)
        ensures
            *r == self.create_mode,
    {
        &self.create_mode
    }

    /// Devices used to store data.
    pub fn vdevs(&self) -> (r: &Vec<CreateVdevRequest>)
        ensures
            requests_view(r@) == self@.vdevs,
    {
        &self.vdevs
    }

    /// Cache devices.
    pub fn caches(&self) -> (r: &Vec<String>)
        ensures
            strings_view(r@) == self@.caches,
    {
        &self.caches
    }

    /// Log devices.
    pub fn logs(&self) -> (r: &Vec<CreateVdevRequest>)
        ensures
            requests_view(r@) == self@.logs,
    {
        &self.logs
    }

    /// Spare devices.
    pub fn spares(&self) -> (r: &Vec<String>)
        ensures
            strings_view(r@) == self@.spares,
    {
        &self.spares
    }
}

impl Default for CreateZpoolRequest {
    fn default() -> (r: CreateZpoolRequest)
        ensures
            r@ == (CreateZpoolRequestView {
                name: Seq::empty(),
                props: None,
                altroot: None,
                mount: None,
                create_mode: CreateMode::Gentle,
                vdevs: Seq::empty(),
                caches: Seq::empty(),
                logs: Seq::empty(),
                spares: Seq::empty(),
            }),
    {
        let r = CreateZpoolRequest {
            name: String::new(),
            props: None,
            altroot: None,
            mount: None,
            create_mode: CreateMode::Gentle,
            vdevs: Vec::new(),
            caches: Vec::new(),
            logs: Vec::new(),
            spares: Vec::new(),
        };
        assert(r@.vdevs =~= Seq::empty());
        assert(r@.caches =~= Seq::empty());
        assert(r@.logs =~= Seq::empty());
        assert(r@.spares =~= Seq::empty());
        r
    }
}

/// Whether a topology can be added to an existing pool: every vdev and every
/// log has enough disks for its type.
pub open spec fn suitable_for_update(r: CreateZpoolRequestView) -> bool {
    all_valid(r.vdevs) && all_valid(r.logs)
}

/// Whether a topology can make a new pool: it has at least one vdev and can
/// be added to a pool.
pub open spec fn suitable_for_create(r: CreateZpoolRequestView) -> bool {
    r.vdevs.len() > 0 && suitable_for_update(r)
}

/// A topology that can make a new pool can also be added to an existing one.
pub proof fn lemma_create_suitable_is_update_suitable(r: CreateZpoolRequestView)
    requires
        suitable_for_create(r),
    ensures
        suitable_for_update(r),
{
}

/// Two requests are equal when all their parts are, paths compared as paths.
pub open spec fn same_request(a: CreateZpoolRequestView, b: CreateZpoolRequestView) -> bool {
    &&& a.name == b.name
    &&& a.props == b.props
    &&& same_opt_path(a.altroot, b.altroot)
    &&& same_opt_path(a.mount, b.mount)
    &&& a.create_mode == b.create_mode
    &&& same_requests(a.vdevs, b.vdevs)
    &&& same_paths(a.caches, b.caches)
    &&& same_requests(a.logs, b.logs)
    &&& same_paths(a.spares, b.spares)
}

impl PartialEq for CreateZpoolRequest {
    fn eq(&self, other: &CreateZpoolRequest) -> (r: bool) {
        let same_props = match (&self.props, &other.props) {
            (Some(a), Some(b)) => a.same_as(b),
            (None, None) => true,
            _ => false,
        };
        self.name.eq(&other.name) && same_props && same_opt_paths(&self.altroot, &other.altroot)
            && same_opt_paths(&self.mount, &other.mount) && self.create_mode == other.create_mode
            && same_request_lists(&self.vdevs, &other.vdevs) && same_path_lists(
            &self.caches,
            &other.caches,
        ) && same_request_lists(&self.logs, &other.logs) && same_path_lists(
            &self.spares,
            &other.spares,
        )
    }
}

impl vstd::std_specs::cmp::PartialEqSpecImpl for CreateZpoolRequest {
    open spec fn obeys_eq_spec() -> bool {
        true
    }

    open spec fn eq_spec(&self, other: &CreateZpoolRequest) -> bool {
        same_request(self@, other@)
    }
}

impl Eq for CreateZpoolRequest {}

/// Builder of `CreateZpoolRequest`: the name must be given; everything else
/// has a default.
#[derive(Debug, Clone)]
pub struct CreateZpoolRequestBuilder {
    pub name: Option<String>,
    pub props: Option<Option<ZpoolPropertiesWrite>>,
    pub altroot: Option<Option<String>>,
    pub mount: Option<Option<String>>,
    pub create_mode: Option<CreateMode>,
    pub vdevs: Option<Vec<CreateVdevRequest>>,
    pub caches: Option<Vec<String>>,
    pub logs: Option<Vec<CreateVdevRequest>>,
    pub spares: Option<Vec<String>>,
}

/// The requests a builder's list holds, none when it was not given.
pub open spec fn opt_requests(v: Option<Vec<CreateVdevRequest>>) -> Seq<(VdevType, Seq<Seq<char>>)> {
    match v {
        Some(x) => requests_view(x@),
        None => Seq::empty(),
    }
}

/// The paths a builder's list holds, none when it was not given.
pub open spec fn opt_strings(v: Option<Vec<String>>) -> Seq<Seq<char>> {
    match v {
        Some(x) => strings_view(x@),
        None => Seq::empty(),
    }
}

impl CreateZpoolRequestBuilder {
    /// A builder with nothing given.
    pub open spec fn empty() -> CreateZpoolRequestBuilder {
        CreateZpoolRequestBuilder {
            name: None,
            props: None,
            altroot: None,
            mount: None,
            create_mode: None,
            vdevs: None,
            caches: None,
            logs: None,
            spares: None,
        }
    }
}

impl Default for CreateZpoolRequestBuilder {
    fn default() -> (r: CreateZpoolRequestBuilder)
        ensures
            r == CreateZpoolRequestBuilder::empty(),
    {
        CreateZpoolRequestBuilder {
            name: None,
            props: None,
            altroot: None,
            mount: None,
            create_mode: None,
            vdevs: None,
            caches: None,
            logs: None,
            spares: None,
        }
    }
}

impl CreateZpoolRequestBuilder {
    pub fn name(&mut self, value: &str) -> (r: &mut CreateZpoolRequestBuilder)
        ensures
            r.name matches Some(n) && n@ == value@,
            *r == (CreateZpoolRequestBuilder { name: r.name, ..*old(self) }),
            *final(self) == *final(r),
    {
        self.name = Some(value.to_owned());
        self
    }

    pub fn props(&mut self, value: ZpoolPropertiesWrite) -> (r: &mut CreateZpoolRequestBuilder)
        ensures
            *r == (CreateZpoolRequestBuilder { props: Some(Some(value)), ..*old(self) }),
            *final(self) == *final(r),
    {
        self.props = Some(Some(value));
        self
    }

    pub fn altroot(&mut self, value: &str) -> (r: &mut CreateZpoolRequestBuilder)
        ensures
            r.altroot matches Some(Some(a)) && a@ == value@,
            *r == (CreateZpoolRequestBuilder { altroot: r.altroot, ..*old(self) }),
            *final(self) == *final(r),
    {
        self.altroot = Some(Some(value.to_owned()));
        self
    }

    pub fn mount(&mut self, value: &str) -> (r: &mut CreateZpoolRequestBuilder)
        ensures
            r.mount matches Some(Some(m)) && m@ == value@,
            *r == (CreateZpoolRequestBuilder { mount: r.mount, ..*old(self) }),
            *final(self) == *final(r),
    {
        self.mount = Some(Some(value.to_owned()));
        self
    }

    pub fn create_mode(&mut self, value: CreateMode) -> (r: &mut CreateZpoolRequestBuilder)
        ensures
            *r == (CreateZpoolRequestBuilder { create_mode: Some(value), ..*old(self) }),
            *final(self) == *final(r),
    {
        self.create_mode = Some(value);
        self
    }

    pub fn vdevs(&mut self, value: Vec<CreateVdevRequest>) -> (r: &mut CreateZpoolRequestBuilder)
        ensures
            *r == (CreateZpoolRequestBuilder { vdevs: Some(value), ..*old(self) }),
            *final(self) == *final(r),
    {
        self.vdevs = Some(value);
        self
    }

    pub fn caches(&mut self, value: Vec<String>) -> (r: &mut CreateZpoolRequestBuilder)
        ensures
            *r == (CreateZpoolRequestBuilder { caches: Some(value), ..*old(self) }),
            *final(self) == *final(r),
    {
        self.caches = Some(value);
        self
    }

    pub fn logs(&mut self, value: Vec<CreateVdevRequest>) -> (r: &mut CreateZpoolRequestBuilder)
        ensures
            *r == (CreateZpoolRequestBuilder { logs: Some(value), ..*old(self) }),
            *final(self) == *final(r),
    {
        self.logs = Some(value);
        self
    }

    pub fn spares(&mut self, value: Vec<String>) -> (r: &mut CreateZpoolRequestBuilder)
        ensures
            *r == (CreateZpoolRequestBuilder { spares: Some(value), ..*old(self) }),
            *final(self) == *final(r),
    {
        self.spares = Some(value);
        self
    }

    /// Add vdev to request.
    pub fn vdev(&mut self, vdev: CreateVdevRequest) -> (r: &mut CreateZpoolRequestBuilder)
        ensures
            r.vdevs is Some,
            opt_requests(r.vdevs) == opt_requests(old(self).vdevs).push(vdev@),
            *r == (CreateZpoolRequestBuilder { vdevs: r.vdevs, ..*old(self) }),
            *final(self) == *final(r),
    {
        let mut list = match self.vdevs.take() {
            Some(v) => v,
            None => Vec::new(),
        };
        let ghost before = list@;
        assert(requests_view(before) =~= opt_requests(old(self).vdevs));
        list.push(vdev);
        assert(requests_view(list@) =~= requests_view(before).push(vdev@));
        self.vdevs = Some(list);
        self
    }

    /// Add cache device to request.
    ///
    /// * `disk` - path to file or name of block device in `/dev/`. Some ZFS implementations forbid
    ///   using files as cache.
    pub fn cache(&mut self, disk: &str) -> (r: &mut CreateZpoolRequestBuilder)
        ensures
            r.caches is Some,
            opt_strings(r.caches) == opt_strings(old(self).caches).push(disk@),
            *r == (CreateZpoolRequestBuilder { caches: r.caches, ..*old(self) }),
            *final(self) == *final(r),
    {
        let mut list = match self.caches.take() {
            Some(v) => v,
            None => Vec::new(),
        };
        let ghost before = list@;
        assert(strings_view(before) =~= opt_strings(old(self).caches));
        list.push(disk.to_owned());
        assert(strings_view(list@) =~= strings_view(before).push(disk@));
        self.caches = Some(list);
        self
    }

    /// Add Vdev that will be used as ZFS Intent Log to request.
    pub fn zil(&mut self, log: CreateVdevRequest) -> (r: &mut CreateZpoolRequestBuilder)
        ensures
            r.logs is Some,
            opt_requests(r.logs) == opt_requests(old(self).logs).push(log@),
            *r == (CreateZpoolRequestBuilder { logs: r.logs, ..*old(self) }),
            *final(self) == *final(r),
    {
        let mut list = match self.logs.take() {
            Some(v) => v,
            None => Vec::new(),
        };
        let ghost before = list@;
        assert(requests_view(before) =~= opt_requests(old(self).logs));
        list.push(log);
        assert(requests_view(list@) =~= requests_view(before).push(log@));
        self.logs = Some(list);
        self
    }

    /// Add spare disk that will be used to replace failed device in zpool.
    pub fn spare(&mut self, disk: &str) -> (r: &mut CreateZpoolRequestBuilder)
        ensures
            r.spares is Some,
            opt_strings(r.spares) == opt_strings(old(self).spares).push(disk@),
            *r == (CreateZpoolRequestBuilder { spares: r.spares, ..*old(self) }),
            *final(self) == *final(r),
    {
        let mut list = match self.spares.take() {
            Some(v) => v,
            None => Vec::new(),
        };
        let ghost before = list@;
        assert(strings_view(before) =~= opt_strings(old(self).spares));
        list.push(disk.to_owned());
        assert(strings_view(list@) =~= strings_view(before).push(disk@));
        self.spares = Some(list);
        self
    }

    /// The request; fails when no name was given. Everything not given takes
    /// its default: no properties, altroot or mount point, `Gentle`, and no
    /// devices.
    pub fn build(&self) -> (r: Result<CreateZpoolRequest, String>)
        ensures
            r is Ok <==> self.name is Some,
            r matches Ok(q) ==> q@ == (CreateZpoolRequestView {
                name: self.name->0@,
                props: match self.props {
                    Some(p) => props_view(p),
                    None => None,
                },
                altroot: match self.altroot {
                    Some(a) => opt_view(a),
                    None => None,
                },
                mount: match self.mount {
                    Some(m) => opt_view(m),
                    None => None,
                },
                create_mode: match self.create_mode {
                    Some(c) => c,
                    None => CreateMode::Gentle,
                },
                vdevs: opt_requests(self.vdevs),
                caches: opt_strings(self.caches),
                logs: opt_requests(self.logs),
                spares: opt_strings(self.spares),
            }),
    {
        let name = match &self.name {
            Some(n) => n.clone(),
            None => {
                return Err("`name` must be initialized".to_owned());
            },
        };
        let props = match &self.props {
            Some(Some(p)) => Some(p.copy()),
            _ => None,
        };
        let altroot = match &self.altroot {
            Some(a) => copy_opt_string(a),
            None => None,
        };
        let mount = match &self.mount {
            Some(m) => copy_opt_string(m),
            None => None,
        };
        let create_mode = match self.create_mode {
            Some(c) => c,
            None => CreateMode::Gentle,
        };
        let vdevs = match &self.vdevs {
            Some(v) => copy_requests(v),
            None => Vec::new(),
        };
        let caches = match &self.caches {
            Some(v) => copy_strings(v),
            None => Vec::new(),
        };
        let logs = match &self.logs {
            Some(v) => copy_requests(v),
            None => Vec::new(),
        };
        let spares = match &self.spares {
            Some(v) => copy_strings(v),
            None => Vec::new(),
        };
        let q = CreateZpoolRequest {
            name,
            props,
            altroot,
            mount,
            create_mode,
            vdevs,
            caches,
            logs,
            spares,
        };
        assert(q@.vdevs =~= opt_requests(self.vdevs));
        assert(q@.caches =~= opt_strings(self.caches));
        assert(q@.logs =~= opt_requests(self.logs));
        assert(q@.spares =~= opt_strings(self.spares));
        Ok(q)
    }
}

} // verus!
