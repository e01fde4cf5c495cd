//! The pool as `zpool status` and `zpool import` describe it: its health,
//! its vdevs, caches, logs and spares, and the text that came with it.
use vstd::prelude::*;

use super::properties::{copy_opt_string, opt_view, Health};
use super::topology::{CreateZpoolRequest, requests_view};
use super::vdev::{
    copy_disks, copy_vdevs, disk_paths, disks_view, lemma_same_paths_is_equivalence,
    lemma_vdev_equality_is_equivalence, same_path_str, same_paths, same_vdev,
    strings_view, vdev_matches, vdevs_view, Disk, DiskView, ErrorStatistics, Vdev, VdevType,
    VdevView,
};

verus! {

/// The reason why a pool, vdev or disk is in its state. Right now it is
/// just the text that came with it.
#[derive(Clone, Debug)]
pub enum Reason {
    /// Not yet classified reason.
    Other(String),
}

impl View for Reason {
    type V = Seq<char>;

    open spec fn view(&self) -> Seq<char> {
        match self {
            Reason::Other(s) => s@,
        }
    }
}

/// The text of an optional reason.
pub open spec fn reason_view(r: Option<Reason>) -> Option<Seq<char>> {
    match r {
        Some(x) => Some(x@),
        None => None,
    }
}

impl Reason {
    /// A reason with the same text.
    pub fn copy(&self) -> (r: Reason)
        ensures
            r@ == self@,
    {
        match self {
            Reason::Other(s) => Reason::Other(s.clone()),
        }
    }
}

/// A copy of an optional reason.
pub fn copy_reason(r: &Option<Reason>) -> (c: Option<Reason>)
    ensures
        reason_view(c) == reason_view(*r),
{
    match r {
        Some(x) => Some(x.copy()),
        None => None,
    }
}

impl PartialEq for Reason {
    fn eq(&self, other: &Reason) -> (r: bool) {
        match (self, other) {
            (Reason::Other(a), Reason::Other(b)) => a.eq(b),
        }
    }
}

impl vstd::std_specs::cmp::PartialEqSpecImpl for Reason {
    open spec fn obeys_eq_spec() -> bool {
        true
    }

    open spec fn eq_spec(&self, other: &Reason) -> bool {
        self@ == other@
    }
}

impl Eq for Reason {}


/// What is known of a pool.
pub struct ZpoolView {
    pub name: Seq<char>,
    pub id: Option<u64>,
    pub health: Health,
    pub vdevs: Seq<VdevView>,
    pub caches: Seq<DiskView>,
    pub logs: Seq<VdevView>,
    pub spares: Seq<DiskView>,
    pub action: Option<Seq<char>>,
    pub errors: Option<Seq<char>>,
    pub reason: Option<Seq<char>>,
    pub error_statistics: ErrorStatistics,
}

/// Consumer friendly Zpool representation. It has generic health status information, structure of
/// vdevs, devices used to create said vdevs as well as error statistics.
#[derive(Debug, Clone)]
pub struct Zpool {
    /// Name of the pool
    pub name: String,
    /// UID of the pool. Only visible during import
    pub id: Option<u64>,
    /// Current Health status of the pool.
    pub health: Health,
    /// List of VDEVs
    pub vdevs: Vec<Vdev>,
    /// List of cache devices.
    pub caches: Vec<Disk>,
    /// ZFS Intent Log (ZIL) devices.
    pub logs: Vec<Vdev>,
    /// Spare devices.
    pub spares: Vec<Disk>,
    /// Value of action field what ever it is.
    pub action: Option<String>,
    /// Errors?
    pub errors: Option<String>,
    /// Reason why this Zpool is not healthy.
    pub reason: Option<Reason>,
    /// Error statistics
    pub error_statistics: ErrorStatistics,
}

impl View for Zpool {
    type V = ZpoolView;

    open spec fn view(&self) -> ZpoolView {
        ZpoolView {
            name: self.name@,
            id: self.id,
            health: self.health,
            vdevs: vdevs_view(self.vdevs@),
            caches: disks_view(self.caches@),
            logs: vdevs_view(self.logs@),
            spares: disks_view(self.spares@),
            action: opt_view(self.action),
            errors: opt_view(self.errors),
            reason: reason_view(self.reason),
            error_statistics: self.error_statistics,
        }
    }
}

/// The views of a list of pools.
pub open spec fn zpools_view(v: Seq<Zpool>) -> Seq<ZpoolView> {
    v.map_values(|z: Zpool| z@)
}

/// Whether two lists of vdevs are equal one for one.
pub open spec fn same_vdevs(a: Seq<VdevView>, b: Seq<VdevView>) -> bool {
    &&& a.len() == b.len()
    &&& forall|i: int| 0 <= i < a.len() ==> same_vdev(#[trigger] a[i], b[i])
}

/// Whether a list of vdevs is what a list of requests asks for, one for one.
pub open spec fn vdevs_match(a: Seq<VdevView>, r: Seq<(VdevType, Seq<Seq<char>>)>) -> bool {
    &&& a.len() == r.len()
    &&& forall|i: int| 0 <= i < a.len() ==> vdev_matches(#[trigger] a[i], r[i])
}

/// A pool is what a request asks for when its name, vdevs, caches, logs and
/// spares are.
pub open spec fn pool_matches(z: ZpoolView, r: super::topology::CreateZpoolRequestView) -> bool {
    &&& vdevs_match(z.logs, r.logs)
    &&& z.name == r.name
    &&& same_paths(disk_paths(z.caches), r.caches)
    &&& vdevs_match(z.vdevs, r.vdevs)
    &&& same_paths(disk_paths(z.spares), r.spares)
}

/// Two pools are equal when every part is, vdevs and disks compared by
/// their types and paths.
pub open spec fn same_pool(a: ZpoolView, b: ZpoolView) -> bool {
    &&& a.name == b.name
    &&& a.id == b.id
    &&& a.health == b.health
    &&& same_vdevs(a.vdevs, b.vdevs)
    &&& same_paths(disk_paths(a.caches), disk_paths(b.caches))
    &&& same_vdevs(a.logs, b.logs)
    &&& same_paths(disk_paths(a.spares), disk_paths(b.spares))
    &&& a.action == b.action
    &&& a.errors == b.errors
    &&& a.reason == b.reason
    &&& a.error_statistics == b.error_statistics
}

/// Whether each vdev of `a` is what the matching request of `r` asks for.
fn vdevs_match_requests(a: &Vec<Vdev>, r: &Vec<super::vdev::CreateVdevRequest>) -> (b: bool)
    ensures
        b == vdevs_match(vdevs_view(a@), requests_view(r@)),
{
    if a.len() != r.len() {
        return false;
    }
    let mut i: usize = 0;
    while i < a.len()
        invariant
            a@.len() == r@.len(),
            i <= a@.len(),
            forall|k: int|
                0 <= k < i ==> vdev_matches(#[trigger] vdevs_view(a@)[k], requests_view(r@)[k]),
        decreases a@.len() - i,
    {
        if !a[i].matches(&r[i]) {
            assert(!vdev_matches(vdevs_view(a@)[i as int], requests_view(r@)[i as int]));
            return false;
        }
        i += 1;
    }
    true
}

/// Whether two lists of vdevs are equal one for one.
fn vdevs_equal(a: &Vec<Vdev>, b: &Vec<Vdev>) -> (r: bool)
    ensures
        r == same_vdevs(vdevs_view(a@), vdevs_view(b@)),
{
    if a.len() != b.len() {
        return false;
    }
    let mut i: usize = 0;
    while i < a.len()
        invariant
            a@.len() == b@.len(),
            i <= a@.len(),
            forall|k: int| 0 <= k < i ==> same_vdev(#[trigger] vdevs_view(a@)[k], vdevs_view(b@)[k]),
        decreases a@.len() - i,
    {
        if !a[i].eq(&b[i]) {
            assert(!same_vdev(vdevs_view(a@)[i as int], vdevs_view(b@)[i as int]));
            return false;
        }
        i += 1;
    }
    true
}

/// Whether the disks of `a` are at the paths of `b`, one for one.
fn disks_at(a: &Vec<Disk>, b: &Vec<String>) -> (r: bool)
    ensures
        r == same_paths(disk_paths(disks_view(a@)), strings_view(b@)),
{
    if a.len() != b.len() {
        return false;
    }
    let mut i: usize = 0;
    while i < a.len()
        invariant
            a@.len() == b@.len(),
            i <= a@.len(),
            forall|k: int|
                0 <= k < i ==> crate::path::same_path(
                    #[trigger] disk_paths(disks_view(a@))[k],
                    strings_view(b@)[k],
                ),
        decreases a@.len() - i,
    {
        if !same_path_str(a[i].path.as_str(), b[i].as_str()) {
            assert(!crate::path::same_path(
                disk_paths(disks_view(a@))[i as int],
                strings_view(b@)[i as int],
            ));
            return false;
        }
        i += 1;
    }
    true
}

/// Whether two lists of disks are at the same paths, one for one.
fn disks_equal(a: &Vec<Disk>, b: &Vec<Disk>) -> (r: bool)
    ensures
        r == same_paths(disk_paths(disks_view(a@)), disk_paths(disks_view(b@))),
{
    if a.len() != b.len() {
        return false;
    }
    let mut i: usize = 0;
    while i < a.len()
        invariant
            a@.len() == b@.len(),
            i <= a@.len(),
            forall|k: int|
                0 <= k < i ==> crate::path::same_path(
                    #[trigger] disk_paths(disks_view(a@))[k],
                    disk_paths(disks_view(b@))[k],
                ),
        decreases a@.len() - i,
    {
        if !a[i].eq(&b[i]) {
            assert(!crate::path::same_path(
                disk_paths(disks_view(a@))[i as int],
                disk_paths(disks_view(b@))[i as int],
            ));
            return false;
        }
        i += 1;
    }
    true
}

/// Whether two optional reasons are equal.
fn same_reason(a: &Option<Reason>, b: &Option<Reason>) -> (r: bool)
    ensures
        r == (reason_view(*a) == reason_view(*b)),
{
    match (a, b) {
        (Some(x), Some(y)) => x.eq(y),
        (None, None) => true,
        _ => false,
    }
}

impl Zpool {
    /// Create a builder - the preferred way to create a structure.
    pub fn builder() -> (r: ZpoolBuilder)
        ensures
            r == ZpoolBuilder::empty(),
    {
        ZpoolBuilder::default()
    }

    /// Whether this pool is what `request` asks for: the same name, and vdevs,
    /// caches, logs and spares at the requested paths.
    pub fn matches(&self, request: &CreateZpoolRequest) -> (r: bool)
        ensures
            r == pool_matches(self@, request@),
    {
        vdevs_match_requests(&self.logs, &request.logs) && self.name.eq(&request.name)
            && disks_at(&self.caches, &request.caches) && vdevs_match_requests(
            &self.vdevs,
            &request.vdevs,
        ) && disks_at(&self.spares, &request.spares)
    }

    /// Name of the pool.
    pub fn name(&self) -> (r: &String)
        ensures
            r@ == self.name@,
    {
        &self.name
    }

    /// Identifier of the pool, known only during import.
    pub fn id(&self) -> (r: &Option<u64>)
        ensures
            *r == self.id,
    {
        &self.id
    }

    /// Current health of the pool.
    pub fn health(&self) -> (r: &Health)
        ensures
            *r == self.health,
    {
        &self.health
    }

    /// The vdevs of the pool.
    pub fn vdevs(&self) -> (r: &Vec<Vdev>)
        ensures
            vdevs_view(r@) == self@.vdevs,
    {
        &self.vdevs
    }

    /// The cache devices of the pool.
    pub fn caches(&self) -> (r: &Vec<Disk>)
        ensures
            disks_view(r@) == self@.caches,
    {
        &self.caches
    }

    /// The log vdevs of the pool.
    pub fn logs(&self) -> (r: &Vec<Vdev>)
        ensures
            vdevs_view(r@) == self@.logs,
    {
        &self.logs
    }

    /// The spare devices of the pool.
    pub fn spares(&self) -> (r: &Vec<Disk>)
        ensures
            disks_view(r@) == self@.spares,
    {
        &self.spares
    }

    /// What `zpool(8)` advises to do.
    pub fn action(&self) -> (r: &Option<String>)
        ensures
            opt_view(*r) == self@.action,
    {
        &self.action
    }

    /// The errors `zpool(8)` reports, if any.
    pub fn errors(&self) -> (r: &Option<String>)
        ensures
            opt_view(*r) == self@.errors,
    {
        &self.errors
    }

    /// Reason why the pool is in its state.
    pub fn reason(&self) -> (r: &Option<Reason>)
        ensures
            reason_view(*r) == self@.reason,
    {
        &self.reason
    }

    /// Error counts of the pool.
    pub fn error_statistics(&self) -> (r: &ErrorStatistics)
        ensures
            *r == self.error_statistics,
    {
        &self.error_statistics
    }
}

impl PartialEq for Zpool {
    fn eq(&self, other: &Zpool) -> (r: bool) {
        self.name.eq(&other.name) && self.id == other.id && self.health == other.health
            && vdevs_equal(&self.vdevs, &other.vdevs) && disks_equal(&self.caches, &other.caches)
            && vdevs_equal(&self.logs, &other.logs) && disks_equal(&self.spares, &other.spares)
            && super::properties::same_opt_string(&self.action, &other.action)
            && super::properties::same_opt_string(&self.errors, &other.errors) && same_reason(
            &self.reason,
            &other.reason,
        ) && self.error_statistics == other.error_statistics
    }
}

impl vstd::std_specs::cmp::PartialEqSpecImpl for Zpool {
    open spec fn obeys_eq_spec() -> bool {
        true
    }

    open spec fn eq_spec(&self, other: &Zpool) -> bool {
        same_pool(self@, other@)
    }
}

impl Eq for Zpool {}

impl PartialEq<CreateZpoolRequest> for Zpool {
    fn eq(&self, other: &CreateZpoolRequest) -> (r: bool) {
        self.matches(other)
    }
}

impl vstd::std_specs::cmp::PartialEqSpecImpl<CreateZpoolRequest> for Zpool {
    open spec fn obeys_eq_spec() -> bool {
        true
    }

    open spec fn eq_spec(&self, other: &CreateZpoolRequest) -> bool {
        pool_matches(self@, other@)
    }
}

impl PartialEq<Zpool> for CreateZpoolRequest {
    fn eq(&self, other: &Zpool) -> (r: bool) {
        other.matches(self)
    }
}

impl vstd::std_specs::cmp::PartialEqSpecImpl<Zpool> for CreateZpoolRequest {
    open spec fn obeys_eq_spec() -> bool {
        true
    }

    open spec fn eq_spec(&self, other: &Zpool) -> bool {
        pool_matches(other@, self@)
    }
}

/// Builder of `Zpool`: the name, the health and the vdevs must be given.
#[derive(Debug, Clone)]
pub struct ZpoolBuilder {
    pub name: Option<String>,
    pub id: Option<Option<u64>>,
    pub health: Option<Health>,
    pub vdevs: Option<Vec<Vdev>>,
    pub caches: Option<Vec<Disk>>,
    pub logs: Option<Vec<Vdev>>,
    pub spares: Option<Vec<Disk>>,
    pub action: Option<Option<String>>,
    pub errors: Option<Option<String>>,
    pub reason: Option<Option<Reason>>,
    pub error_statistics: Option<ErrorStatistics>,
}

impl ZpoolBuilder {
    /// A builder with nothing given.
    pub open spec fn empty() -> ZpoolBuilder {
        ZpoolBuilder {
            name: None,
            id: None,
            health: None,
            vdevs: None,
            caches: None,
            logs: None,
            spares: None,
            action: None,
            errors: None,
            reason: None,
            error_statistics: None,
        }
    }
}

impl Default for ZpoolBuilder {
    fn default() -> (r: ZpoolBuilder)
        ensures
            r == ZpoolBuilder::empty(),
    {
        ZpoolBuilder {
            name: None,
            id: None,
            health: None,
            vdevs: None,
            caches: None,
            logs: None,
            spares: None,
            action: None,
            errors: None,
            reason: None,
            error_statistics: None,
        }
    }
}

/// The disks a builder's list holds, none when it was not given.
pub open spec fn opt_disks(v: Option<Vec<Disk>>) -> Seq<DiskView> {
    match v {
        Some(x) => disks_view(x@),
        None => Seq::empty(),
    }
}

/// The vdevs a builder's list holds, none when it was not given.
pub open spec fn opt_vdevs(v: Option<Vec<Vdev>>) -> Seq<VdevView> {
    match v {
        Some(x) => vdevs_view(x@),
        None => Seq::empty(),
    }
}

impl ZpoolBuilder {
    pub fn name(&mut self, value: &str) -> (r: &mut ZpoolBuilder)
        ensures
            r.name matches Some(n) && n@ == value@,
            *r == (ZpoolBuilder { name: r.name, ..*old(self) }),
            *final(self) == *final(r),
    {
        self.name = Some(value.to_owned());
        self
    }

    pub fn id(&mut self, value: Option<u64>) -> (r: &mut ZpoolBuilder)
        ensures
            *r == (ZpoolBuilder { id: Some(value), ..*old(self) }),
            *final(self) == *final(r),
    {
        self.id = Some(value);
        self
    }

    pub fn health(&mut self, value: Health) -> (r: &mut ZpoolBuilder)
        ensures
            *r == (ZpoolBuilder { health: Some(value), ..*old(self) }),
            *final(self) == *final(r),
    {
        self.health = Some(value);
        self
    }

    pub fn vdevs(&mut self, value: Vec<Vdev>) -> (r: &mut ZpoolBuilder)
        ensures
            *r == (ZpoolBuilder { vdevs: Some(value), ..*old(self) }),
            *final(self) == *final(r),
    {
        self.vdevs = Some(value);
        self
    }

    pub fn caches(&mut self, value: Vec<Disk>) -> (r: &mut ZpoolBuilder)
        ensures
            *r == (ZpoolBuilder { caches: Some(value), ..*old(self) }),
            *final(self) == *final(r),
    {
        self.caches = Some(value);
        self
    }

    pub fn logs(&mut self, value: Vec<Vdev>) -> (r: &mut ZpoolBuilder)
        ensures
            *r == (ZpoolBuilder { logs: Some(value), ..*old(self) }),
            *final(self) == *final(r),
    {
        self.logs = Some(value);
        self
    }

    pub fn spares(&mut self, value: Vec<Disk>) -> (r: &mut ZpoolBuilder)
        ensures
            *r == (ZpoolBuilder { spares: Some(value), ..*old(self) }),
            *final(self) == *final(r),
    {
        self.spares = Some(value);
        self
    }

    pub fn action(&mut self, value: Option<String>) -> (r: &mut ZpoolBuilder)
        ensures
            *r == (ZpoolBuilder { action: Some(value), ..*old(self) }),
            *final(self) == *final(r),
    {
        self.action = Some(value);
        self
    }

    pub fn errors(&mut self, value: Option<String>) -> (r: &mut ZpoolBuilder)
        ensures
            *r == (ZpoolBuilder { errors: Some(value), ..*old(self) }),
            *final(self) == *final(r),
    {
        self.errors = Some(value);
        self
    }

    pub fn reason(&mut self, value: Option<Reason>) -> (r: &mut ZpoolBuilder)
        ensures
            *r == (ZpoolBuilder { reason: Some(value), ..*old(self) }),
            *final(self) == *final(r),
    {
        self.reason = Some(value);
        self
    }

    pub fn error_statistics(&mut self, value: ErrorStatistics) -> (r: &mut ZpoolBuilder)
        ensures
            *r == (ZpoolBuilder { error_statistics: Some(value), ..*old(self) }),
            *final(self) == *final(r),
    {
        self.error_statistics = Some(value);
        self
    }

    /// The pool; fails when the name, the health or the vdevs were not given.
    /// Everything else not given is empty, absent or zero.
    pub fn build(&self) -> (r: Result<Zpool, String>)
        ensures
            r is Ok <==> (self.name is Some && self.health is Some && self.vdevs is Some),
            r matches Ok(z) ==> z@ == (ZpoolView {
                name: self.name->0@,
                id: match self.id {
                    Some(i) => i,
                    None => None,
                },
                health: self.health->0,
                vdevs: opt_vdevs(self.vdevs),
                caches: opt_disks(self.caches),
                logs: opt_vdevs(self.logs),
                spares: opt_disks(self.spares),
                action: match self.action {
                    Some(a) => opt_view(a),
                    None => None,
                },
                errors: match self.errors {
                    Some(e) => opt_view(e),
                    None => None,
                },
                reason: match self.reason {
                    Some(x) => reason_view(x),
                    None => None,
                },
                error_statistics: match self.error_statistics {
                    Some(s) => s,
                    None => ErrorStatistics { read: 0, write: 0, checksum: 0 },
                },
            }),
    {
        let name = match &self.name {
            Some(n) => n.clone(),
            None => {
                return Err("`name` must be initialized".to_owned());
            },
        };
        let health = match self.health {
            Some(h) => h,
            None => {
                return Err("`health` must be initialized".to_owned());
            },
        };
        let vdevs = match &self.vdevs {
            Some(v) => copy_vdevs(v),
            None => {
                return Err("`vdevs` must be initialized".to_owned());
            },
        };
        let id = match self.id {
            Some(i) => i,
            None => None,
        };
        let caches = match &self.caches {
            Some(v) => copy_disks(v),
            None => Vec::new(),
        };
        let logs = match &self.logs {
            Some(v) => copy_vdevs(v),
            None => Vec::new(),
        };
        let spares = match &self.spares {
            Some(v) => copy_disks(v),
            None => Vec::new(),
        };
        let action = match &self.action {
            Some(a) => copy_opt_string(a),
            None => None,
        };
        let errors = match &self.errors {
            Some(e) => copy_opt_string(e),
            None => None,
        };
        let reason = match &self.reason {
            Some(x) => copy_reason(x),
            None => None,
        };
        let error_statistics = match self.error_statistics {
            Some(s) => s,
            None => ErrorStatistics::default(),
        };
        let z = Zpool {
            name,
            id,
            health,
            vdevs,
            caches,
            logs,
            spares,
            action,
            errors,
            reason,
            error_statistics,
        };
        assert(z@.caches =~= opt_disks(self.caches));
        assert(z@.logs =~= opt_vdevs(self.logs));
        assert(z@.spares =~= opt_disks(self.spares));
        Ok(z)
    }
}

/// Lists of vdevs compared one for one form an equivalence.
pub proof fn lemma_same_vdevs_is_equivalence(a: Seq<VdevView>, b: Seq<VdevView>, c: Seq<VdevView>)
    ensures
        same_vdevs(a, a),
        same_vdevs(a, b) == same_vdevs(b, a),
        same_vdevs(a, b) && same_vdevs(b, c) ==> same_vdevs(a, c),
{
    assert forall|i: int| 0 <= i < a.len() implies same_vdev(#[trigger] a[i], a[i]) by {
        lemma_vdev_equality_is_equivalence(a[i], a[i], a[i]);
    }
    if same_vdevs(a, b) && same_vdevs(b, c) {
        assert forall|i: int| 0 <= i < a.len() implies same_vdev(#[trigger] a[i], c[i]) by {
            lemma_vdev_equality_is_equivalence(a[i], b[i], c[i]);
        }
    }
    if same_vdevs(a, b) {
        assert forall|i: int| 0 <= i < b.len() implies same_vdev(#[trigger] b[i], a[i]) by {
            lemma_vdev_equality_is_equivalence(a[i], b[i], a[i]);
        }
    }
    if same_vdevs(b, a) {
        assert forall|i: int| 0 <= i < a.len() implies same_vdev(#[trigger] a[i], b[i]) by {
            lemma_vdev_equality_is_equivalence(b[i], a[i], b[i]);
        }
    }
}

/// Equality of pools is an equivalence, as `Eq` promises.
pub proof fn lemma_pool_equality_is_equivalence(a: ZpoolView, b: ZpoolView, c: ZpoolView)
    ensures
        same_pool(a, a),
        same_pool(a, b) == same_pool(b, a),
        same_pool(a, b) && same_pool(b, c) ==> same_pool(a, c),
{
    lemma_same_vdevs_is_equivalence(a.vdevs, b.vdevs, c.vdevs);
    lemma_same_vdevs_is_equivalence(a.logs, b.logs, c.logs);
    lemma_same_paths_is_equivalence(disk_paths(a.caches), disk_paths(b.caches), disk_paths(c.caches));
    lemma_same_paths_is_equivalence(disk_paths(a.spares), disk_paths(b.spares), disk_paths(c.spares));
}

/// A pool equals a request exactly when the request equals the pool.
pub proof fn lemma_pool_request_eq_symmetric(z: Zpool, r: CreateZpoolRequest)
    ensures
        vstd::std_specs::cmp::PartialEqSpec::eq_spec(&z, &r) == vstd::std_specs::cmp::PartialEqSpec::eq_spec(&r, &z),
{
}

} // verus!
