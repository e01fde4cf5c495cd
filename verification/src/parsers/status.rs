//! The report of `zpool status` and `zpool import`, read line by line.
//!
//! A report is a sequence of records, one per pool. A record opens with a
//! `pool:` header and carries the headers `id:`, `state:`, `status:`,
//! `action:`, `see:`, `scan:`, `config:` and `errors:`, each possibly
//! continued on the lines that follow it. After `config:` comes the tree of
//! devices: an optional `NAME STATE READ WRITE CKSUM` line, the line of the
//! pool itself, and one line per vdev or disk, deeper lines belonging to the
//! raid vdev above them; `logs`, `cache` and `spares` at the pool's indentation
//! open the sections of log vdevs, cache disks and spare disks. A blank line
//! ends the tree. Every device line reads `name state [read write cksum] [reason]`.
//!
//! The reader is a machine that takes one line at a time; `step` says what
//! each line does to its state, and `spec_parse_zpools` what a whole report
//! gives.
use vstd::prelude::*;

use crate::text::{
    all_digits, chars_eq_str, eol_start, is_digit, parse_u64, skip_spaces, skip_spaces_from,
    spec_parse_u64, string_of, strip_eol, sub_chars, word_end, word_end_from,
};
use crate::zpool::description::{Reason, Zpool, ZpoolView, zpools_view};
use crate::zpool::properties::{spec_health, Health};
use crate::zpool::vdev::{
    disks_view, spec_raid_type, vdevs_view, Disk, DiskView, ErrorStatistics, Vdev, VdevType,
    VdevView,
};
use crate::zpool::ZpoolError;

verus! {

/// The headers of a record.
#[derive(Clone, Copy, PartialEq, Eq, Debug, Structural)]
pub enum HeaderKey {
    Pool,
    Id,
    State,
    Status,
    Action,
    See,
    Scan,
    Config,
    Errors,
}

/// The header that the word `w` (with its colon) opens.
pub open spec fn spec_header_key(w: Seq<char>) -> Option<HeaderKey> {
    if w == "pool:"@ {
        Some(HeaderKey::Pool)
    } else if w == "id:"@ {
        Some(HeaderKey::Id)
    } else if w == "state:"@ {
        Some(HeaderKey::State)
    } else if w == "status:"@ {
        Some(HeaderKey::Status)
    } else if w == "action:"@ {
        Some(HeaderKey::Action)
    } else if w == "see:"@ {
        Some(HeaderKey::See)
    } else if w == "scan:"@ {
        Some(HeaderKey::Scan)
    } else if w == "config:"@ {
        Some(HeaderKey::Config)
    } else if w == "errors:"@ {
        Some(HeaderKey::Errors)
    } else {
        None
    }
}

/// What a line is: blank, a header whose value starts at the given
/// position, or any other text.
#[derive(Clone, Copy, PartialEq, Eq, Debug, Structural)]
pub enum LineClass {
    Blank,
    Header(HeaderKey, usize),
    Text,
}

/// The number of blanks that start the line `l`.
pub open spec fn indent(l: Seq<char>) -> int {
    skip_spaces(strip_eol(l), 0)
}

/// The word of the line `l` that starts at `i`.
pub open spec fn word_at(l: Seq<char>, i: int) -> Seq<char> {
    let b = strip_eol(l);
    b.subrange(i, word_end(b, i))
}

/// The class of the line `l` (which may end with its newline).
pub open spec fn spec_classify(l: Seq<char>) -> LineClass {
    let b = strip_eol(l);
    let i = skip_spaces(b, 0);
    if i >= b.len() {
        LineClass::Blank
    } else {
        match spec_header_key(b.subrange(i, word_end(b, i))) {
            Some(k) => LineClass::Header(k, skip_spaces(b, word_end(b, i)) as usize),
            None => LineClass::Text,
        }
    }
}

/// An error count as `zpool(8)` prints it; a count that is not a plain
/// number (such as `1.2K`) is taken as `u64::MAX`.
pub open spec fn count_value(t: Seq<char>) -> u64 {
    match spec_parse_u64(t) {
        Some(n) => n,
        None => u64::MAX,
    }
}

/// Whether the word `t` starts with a digit.
pub open spec fn starts_with_digit(t: Seq<char>) -> bool {
    t.len() > 0 && is_digit(t[0])
}

/// The device that a tree line describes: `name state [read write cksum]
/// [reason]`; `None` when the state is not a health.
pub open spec fn spec_device(l: Seq<char>) -> Option<DiskView> {
    let b = strip_eol(l);
    let i0 = skip_spaces(b, 0);
    let p = word_end(b, i0);
    let j = skip_spaces(b, p);
    let he = word_end(b, j);
    let k1 = skip_spaces(b, he);
    let e1 = word_end(b, k1);
    let k2 = skip_spaces(b, e1);
    let e2 = word_end(b, k2);
    let k3 = skip_spaces(b, e2);
    let e3 = word_end(b, k3);
    let has_stats = starts_with_digit(b.subrange(k1, e1)) && starts_with_digit(b.subrange(k2, e2))
        && starts_with_digit(b.subrange(k3, e3));
    let rest = if has_stats {
        skip_spaces(b, e3)
    } else {
        k1
    };
    match spec_health(b.subrange(j, he)) {
        None => None,
        Some(h) => Some(
            DiskView {
                path: b.subrange(i0, p),
                health: h,
                reason: if rest < b.len() {
                    Some(b.subrange(rest, b.len() as int))
                } else {
                    None
                },
                error_statistics: if has_stats {
                    ErrorStatistics {
                        read: count_value(b.subrange(k1, e1)),
                        write: count_value(b.subrange(k2, e2)),
                        checksum: count_value(b.subrange(k3, e3)),
                    }
                } else {
                    ErrorStatistics { read: 0, write: 0, checksum: 0 }
                },
            },
        ),
    }
}

/// The type of a raid vdev named `w`: `mirror-N`, `raidz1-N`, `raidz2-N` or
/// `raidz3-N` with `N` a number; `None` for the name of a disk.
pub open spec fn raid_kind(w: Seq<char>) -> Option<VdevType> {
    if w.len() > 7 && w[6] == '-' && all_digits(w.skip(7)) {
        spec_raid_type(w.take(6))
    } else {
        None
    }
}


/// The text header whose continuation lines are being collected.
#[derive(Clone, Copy, PartialEq, Eq, Debug, Structural)]
pub enum Open {
    /// Continuation lines are skipped.
    Ignore,
    Action,
    Errors,
}

/// The section of the device tree being read.
#[derive(Clone, Copy, PartialEq, Eq, Debug, Structural)]
pub enum Section {
    Vdevs,
    Logs,
    Caches,
    Spares,
}

/// Where the reader stands.
#[derive(Clone, Copy, PartialEq, Eq, Debug, Structural)]
pub enum Mode {
    /// No record yet.
    Start,
    /// Among the headers of a record.
    Headers(Open),
    /// After `config:`, waiting for the line of the pool; whether the
    /// column titles were seen.
    Config(bool),
    /// In the device tree: the indentation of the pool line, the section, and
    /// the indentation of the raid vdev whose disks follow, if any.
    Tree(usize, Section, Option<usize>),
    /// The report does not have the expected form.
    Failed,
}

/// What has been read of the current record.
#[verifier::ext_equal]
pub struct RecordView {
    pub name: Seq<char>,
    pub id: Option<u64>,
    pub health: Option<Health>,
    pub action: Option<Seq<char>>,
    pub errors: Option<Seq<char>>,
    pub reason: Option<Seq<char>>,
    pub stats: ErrorStatistics,
    pub vdevs: Seq<VdevView>,
    pub caches: Seq<DiskView>,
    pub logs: Seq<VdevView>,
    pub spares: Seq<DiskView>,
    pub pool_line: bool,
}

/// The state of the reader: the records read so far, the current one, and
/// where it stands.
#[verifier::ext_equal]
pub struct ParseView {
    pub done: Seq<ZpoolView>,
    pub rec: RecordView,
    pub mode: Mode,
}

/// A record that has only its name.
pub open spec fn new_record(name: Seq<char>) -> RecordView {
    RecordView {
        name,
        id: None,
        health: None,
        action: None,
        errors: None,
        reason: None,
        stats: ErrorStatistics { read: 0, write: 0, checksum: 0 },
        vdevs: Seq::empty(),
        caches: Seq::empty(),
        logs: Seq::empty(),
        spares: Seq::empty(),
        pool_line: false,
    }
}

/// The state before any line.
pub open spec fn initial() -> ParseView {
    ParseView { done: Seq::empty(), rec: new_record(Seq::empty()), mode: Mode::Start }
}

/// Whether a record has what a pool needs: a health and a device tree.
pub open spec fn complete(r: RecordView) -> bool {
    r.health is Some && r.pool_line
}

/// The errors text, or `None` when it reports that there are none.
pub open spec fn error_text(t: Option<Seq<char>>) -> Option<Seq<char>> {
    match t {
        Some(x) => if x.len() >= 20 && x.take(20) == "No known data errors"@ {
            None
        } else {
            Some(x)
        },
        None => None,
    }
}

/// The pool that a complete record describes.
pub open spec fn finish(r: RecordView) -> ZpoolView {
    ZpoolView {
        name: r.name,
        id: r.id,
        health: r.health->0,
        vdevs: r.vdevs,
        caches: r.caches,
        logs: r.logs,
        spares: r.spares,
        action: r.action,
        errors: error_text(r.errors),
        reason: r.reason,
        error_statistics: r.stats,
    }
}

/// The state once the report is found not to have the expected form.
pub open spec fn failed(s: ParseView) -> ParseView {
    ParseView { mode: Mode::Failed, ..s }
}

/// What a blank line does.
pub open spec fn on_blank(s: ParseView) -> ParseView {
    match s.mode {
        Mode::Headers(_) => ParseView { mode: Mode::Headers(Open::Ignore), ..s },
        Mode::Tree(_, _, _) => ParseView { mode: Mode::Headers(Open::Ignore), ..s },
        _ => s,
    }
}

/// What a header line `l` whose value starts at `v` does.
pub open spec fn on_header(s: ParseView, k: HeaderKey, l: Seq<char>, v: int) -> ParseView {
    let value = l.skip(v);
    let word = word_at(l, v);
    if k == HeaderKey::Pool {
        if s.mode == Mode::Start {
            ParseView { rec: new_record(word), mode: Mode::Headers(Open::Ignore), ..s }
        } else if complete(s.rec) {
            ParseView {
                done: s.done.push(finish(s.rec)),
                rec: new_record(word),
                mode: Mode::Headers(Open::Ignore),
            }
        } else {
            failed(s)
        }
    } else if s.mode == Mode::Start {
        failed(s)
    } else {
        match k {
            HeaderKey::Id => match spec_parse_u64(word) {
                Some(n) => ParseView {
                    rec: RecordView { id: Some(n), ..s.rec },
                    mode: Mode::Headers(Open::Ignore),
                    ..s
                },
                None => failed(s),
            },
            HeaderKey::State => match spec_health(word) {
                Some(h) => ParseView {
                    rec: RecordView { health: Some(h), ..s.rec },
                    mode: Mode::Headers(Open::Ignore),
                    ..s
                },
                None => failed(s),
            },
            HeaderKey::Action => ParseView {
                rec: RecordView { action: Some(value), ..s.rec },
                mode: Mode::Headers(Open::Action),
                ..s
            },
            HeaderKey::Errors => ParseView {
                rec: RecordView { errors: Some(value), ..s.rec },
                mode: Mode::Headers(Open::Errors),
                ..s
            },
            HeaderKey::Config => ParseView { mode: Mode::Config(false), ..s },
            _ => ParseView { mode: Mode::Headers(Open::Ignore), ..s },
        }
    }
}

/// `t` with `l` appended, or `l` alone.
pub open spec fn append_text(t: Option<Seq<char>>, l: Seq<char>) -> Option<Seq<char>> {
    match t {
        Some(x) => Some(x + l),
        None => Some(l),
    }
}

/// The vdev that a device line of the vdev list or of the logs stands for:
/// a raid vdev, whose disks follow, or a single disk.
pub open spec fn vdev_of(d: DiskView) -> VdevView {
    match raid_kind(d.path) {
        Some(k) => VdevView {
            kind: k,
            health: d.health,
            reason: d.reason,
            disks: Seq::empty(),
            error_statistics: d.error_statistics,
        },
        None => VdevView {
            kind: VdevType::SingleDisk,
            health: d.health,
            reason: None,
            disks: seq![d],
            error_statistics: ErrorStatistics { read: 0, write: 0, checksum: 0 },
        },
    }
}

/// `vs` with the disk `d` added to its last vdev.
pub open spec fn add_to_last(vs: Seq<VdevView>, d: DiskView) -> Seq<VdevView> {
    let last = vs.last();
    vs.drop_last().push(VdevView { disks: last.disks.push(d), ..last })
}

/// The section that a line of the tree at the pool's indentation opens.
pub open spec fn spec_section(l: Seq<char>) -> Option<Section> {
    let b = strip_eol(l);
    let i = skip_spaces(b, 0);
    let e = word_end(b, i);
    let w = b.subrange(i, e);
    if skip_spaces(b, e) < b.len() {
        None
    } else if w == "logs"@ {
        Some(Section::Logs)
    } else if w == "cache"@ {
        Some(Section::Caches)
    } else if w == "spares"@ {
        Some(Section::Spares)
    } else {
        None
    }
}

/// What a device line `l` of the tree does.
pub open spec fn on_tree_line(
    s: ParseView,
    l: Seq<char>,
    pi: usize,
    sec: Section,
    ri: Option<usize>,
) -> ParseView {
    let n = indent(l);
    if n <= pi {
        match spec_section(l) {
            Some(sec2) => ParseView { mode: Mode::Tree(pi, sec2, None), ..s },
            None => failed(s),
        }
    } else {
        match spec_device(l) {
            None => failed(s),
            Some(d) => {
                let in_raid = ri matches Some(r) && n > r;
                match sec {
                    Section::Vdevs => if in_raid && s.rec.vdevs.len() > 0 {
                        ParseView {
                            rec: RecordView { vdevs: add_to_last(s.rec.vdevs, d), ..s.rec },
                            ..s
                        }
                    } else {
                        ParseView {
                            rec: RecordView { vdevs: s.rec.vdevs.push(vdev_of(d)), ..s.rec },
                            mode: Mode::Tree(
                                pi,
                                sec,
                                if raid_kind(d.path) is Some {
                                    Some(n as usize)
                                } else {
                                    None
                                },
                            ),
                            ..s
                        }
                    },
                    Section::Logs => if in_raid && s.rec.logs.len() > 0 {
                        ParseView {
                            rec: RecordView { logs: add_to_last(s.rec.logs, d), ..s.rec },
                            ..s
                        }
                    } else {
                        ParseView {
                            rec: RecordView { logs: s.rec.logs.push(vdev_of(d)), ..s.rec },
                            mode: Mode::Tree(
                                pi,
                                sec,
                                if raid_kind(d.path) is Some {
                                    Some(n as usize)
                                } else {
                                    None
                                },
                            ),
                            ..s
                        }
                    },
                    Section::Caches => ParseView {
                        rec: RecordView { caches: s.rec.caches.push(d), ..s.rec },
                        mode: Mode::Tree(pi, sec, None),
                        ..s
                    },
                    Section::Spares => ParseView {
                        rec: RecordView { spares: s.rec.spares.push(d), ..s.rec },
                        mode: Mode::Tree(pi, sec, None),
                        ..s
                    },
                }
            },
        }
    }
}

/// What a line of text (neither blank nor a header) does.
pub open spec fn on_text(s: ParseView, l: Seq<char>) -> ParseView {
    match s.mode {
        Mode::Start => failed(s),
        Mode::Headers(Open::Action) => ParseView {
            rec: RecordView { action: append_text(s.rec.action, l), ..s.rec },
            ..s
        },
        Mode::Headers(Open::Errors) => ParseView {
            rec: RecordView { errors: append_text(s.rec.errors, l), ..s.rec },
            ..s
        },
        Mode::Headers(Open::Ignore) => s,
        Mode::Config(seen) => if !seen && word_at(l, indent(l)) == "NAME"@ {
            ParseView { mode: Mode::Config(true), ..s }
        } else {
            match spec_device(l) {
                Some(d) => ParseView {
                    rec: RecordView { stats: d.error_statistics, reason: d.reason, pool_line: true, ..s.rec },
                    mode: Mode::Tree(indent(l) as usize, Section::Vdevs, None),
                    ..s
                },
                None => failed(s),
            }
        },
        Mode::Tree(pi, sec, ri) => on_tree_line(s, l, pi, sec, ri),
        Mode::Failed => s,
    }
}

/// What the line `l` does to the state `s`.
pub open spec fn step(s: ParseView, l: Seq<char>) -> ParseView {
    if s.mode == Mode::Failed {
        s
    } else {
        match spec_classify(l) {
            LineClass::Blank => on_blank(s),
            LineClass::Header(k, v) => on_header(s, k, l, v as int),
            LineClass::Text => on_text(s, l),
        }
    }
}

/// The state after the lines `ls`, taken in order.
pub open spec fn run(ls: Seq<Seq<char>>) -> ParseView
    decreases ls.len(),
{
    if ls.len() == 0 {
        initial()
    } else {
        step(run(ls.drop_last()), ls.last())
    }
}

/// The action of the record being read is set only by an `action:` header
/// (to the header's text) and extended only by lines of text that follow
/// the `action:` header and its own continuation lines; a new `pool:`
/// record starts without one. Continuation lines of any other header
/// (`scan:`, `status:`, `see:`, ...) never reach it. The same holds of the
/// errors text and the `errors:` header.
pub proof fn lemma_action_and_errors_come_from_their_headers(s: ParseView, l: Seq<char>)
    ensures
        step(s, l).mode == Mode::Headers(Open::Action) ==> (spec_classify(l) matches LineClass::Header(
            HeaderKey::Action,
            _,
        ) || (spec_classify(l) is Text && s.mode == Mode::Headers(Open::Action))),
        step(s, l).mode == Mode::Headers(Open::Errors) ==> (spec_classify(l) matches LineClass::Header(
            HeaderKey::Errors,
            _,
        ) || (spec_classify(l) is Text && s.mode == Mode::Headers(Open::Errors))),
        step(s, l).rec.action != s.rec.action ==> (match spec_classify(l) {
            LineClass::Header(k, v) => (k == HeaderKey::Action && step(s, l).rec.action == Some(l.skip(v as int)))
                || (k == HeaderKey::Pool && step(s, l).rec.action is None),
            LineClass::Text => s.mode == Mode::Headers(Open::Action) && step(s, l).rec.action == append_text(
                s.rec.action,
                l,
            ),
            LineClass::Blank => false,
        }),
        step(s, l).rec.errors != s.rec.errors ==> (match spec_classify(l) {
            LineClass::Header(k, v) => (k == HeaderKey::Errors && step(s, l).rec.errors == Some(l.skip(v as int)))
                || (k == HeaderKey::Pool && step(s, l).rec.errors is None),
            LineClass::Text => s.mode == Mode::Headers(Open::Errors) && step(s, l).rec.errors == append_text(
                s.rec.errors,
                l,
            ),
            LineClass::Blank => false,
        }),
{
}

/// The pools a finished reader holds, or `None` when the report did not
/// have the expected form.
pub open spec fn outcome(s: ParseView) -> Option<Seq<ZpoolView>> {
    match s.mode {
        Mode::Start => Some(s.done),
        Mode::Failed => None,
        _ => if complete(s.rec) {
            Some(s.done.push(finish(s.rec)))
        } else {
            None
        },
    }
}

/// The pools that the report `text` describes, in order, or `None` when it
/// does not have the expected form.
pub open spec fn spec_parse_zpools(text: Seq<char>) -> Option<Seq<ZpoolView>> {
    outcome(run(crate::text::spec_lines(text)))
}


/// The view of an optional disk.
pub open spec fn opt_disk_view(d: Option<Disk>) -> Option<DiskView> {
    match d {
        Some(x) => Some(x@),
        None => None,
    }
}

/// The header that `b[lo..hi]` opens.
fn header_key_of(b: &[char], lo: usize, hi: usize) -> (r: Option<HeaderKey>)
    requires
        lo <= hi <= b@.len(),
    ensures
        r == spec_header_key(b@.subrange(lo as int, hi as int)),
{
    if chars_eq_str(b, lo, hi, "pool:") {
        Some(HeaderKey::Pool)
    } else if chars_eq_str(b, lo, hi, "id:") {
        Some(HeaderKey::Id)
    } else if chars_eq_str(b, lo, hi, "state:") {
        Some(HeaderKey::State)
    } else if chars_eq_str(b, lo, hi, "status:") {
        Some(HeaderKey::Status)
    } else if chars_eq_str(b, lo, hi, "action:") {
        Some(HeaderKey::Action)
    } else if chars_eq_str(b, lo, hi, "see:") {
        Some(HeaderKey::See)
    } else if chars_eq_str(b, lo, hi, "scan:") {
        Some(HeaderKey::Scan)
    } else if chars_eq_str(b, lo, hi, "config:") {
        Some(HeaderKey::Config)
    } else if chars_eq_str(b, lo, hi, "errors:") {
        Some(HeaderKey::Errors)
    } else {
        None
    }
}

/// The line `l` without its end of line.
fn body_of(l: &[char]) -> (b: Vec<char>)
    ensures
        b@ == strip_eol(l@),
{
    let n = eol_start(l);
    sub_chars(l, 0, n)
}

/// The class of the line `l`.
pub fn classify(l: &[char]) -> (c: LineClass)
    ensures
        c == spec_classify(l@),
        c matches LineClass::Header(_, v) ==> v <= strip_eol(l@).len(),
{
    let b = body_of(l);
    let i = skip_spaces_from(b.as_slice(), 0);
    if i >= b.len() {
        return LineClass::Blank;
    }
    let e = word_end_from(b.as_slice(), i);
    match header_key_of(b.as_slice(), i, e) {
        Some(k) => {
            let v = skip_spaces_from(b.as_slice(), e);
            LineClass::Header(k, v)
        },
        None => LineClass::Text,
    }
}

/// Whether `b[lo..hi]` starts with a digit.
fn starts_digit(b: &[char], lo: usize, hi: usize) -> (r: bool)
    requires
        lo <= hi <= b@.len(),
    ensures
        r == starts_with_digit(b@.subrange(lo as int, hi as int)),
{
    lo < hi && '0' <= b[lo] && b[lo] <= '9'
}

/// The error count written `b[lo..hi]`.
fn count_of(b: &[char], lo: usize, hi: usize) -> (r: u64)
    requires
        lo <= hi <= b@.len(),
    ensures
        r == count_value(b@.subrange(lo as int, hi as int)),
{
    let w = sub_chars(b, lo, hi);
    match parse_u64(w.as_slice()) {
        Some(n) => n,
        None => u64::MAX,
    }
}

/// The device that the tree line `l` describes.
pub fn parse_device(l: &[char]) -> (r: Option<Disk>)
    ensures
        opt_disk_view(r) == spec_device(l@),
{
    let b = body_of(l);
    let bs = b.as_slice();
    let n = b.len();
    let i0 = skip_spaces_from(bs, 0);
    let p = word_end_from(bs, i0);
    let j = skip_spaces_from(bs, p);
    let he = word_end_from(bs, j);
    let hw = sub_chars(bs, j, he);
    let health = match Health::from_chars(hw.as_slice()) {
        Some(h) => h,
        None => {
            return None;
        },
    };
    let k1 = skip_spaces_from(bs, he);
    let e1 = word_end_from(bs, k1);
    let k2 = skip_spaces_from(bs, e1);
    let e2 = word_end_from(bs, k2);
    let k3 = skip_spaces_from(bs, e2);
    let e3 = word_end_from(bs, k3);
    let has_stats = starts_digit(bs, k1, e1) && starts_digit(bs, k2, e2) && starts_digit(
        bs,
        k3,
        e3,
    );
    let rest = if has_stats {
        skip_spaces_from(bs, e3)
    } else {
        k1
    };
    let reason = if rest < n {
        Some(Reason::Other(string_of(bs, rest, n)))
    } else {
        None
    };
    let error_statistics = if has_stats {
        ErrorStatistics {
            read: count_of(bs, k1, e1),
            write: count_of(bs, k2, e2),
            checksum: count_of(bs, k3, e3),
        }
    } else {
        ErrorStatistics { read: 0, write: 0, checksum: 0 }
    };
    Some(Disk { path: string_of(bs, i0, p), health, reason, error_statistics })
}

/// The type of the raid vdev named `w`, if it names one.
fn raid_kind_of(w: &[char]) -> (r: Option<VdevType>)
    ensures
        r == raid_kind(w@),
{
    if w.len() <= 7 || w[6] != '-' {
        return None;
    }
    let mut i: usize = 7;
    while i < w.len()
        invariant
            7 <= i <= w@.len(),
            forall|k: int| 0 <= k < i - 7 ==> is_digit(#[trigger] w@.skip(7)[k]),
        decreases w@.len() - i,
    {
        if !('0' <= w[i] && w[i] <= '9') {
            assert(!is_digit(w@.skip(7)[i - 7]));
            return None;
        }
        i += 1;
    }
    let prefix = sub_chars(w, 0, 6);
    assert(prefix@ =~= w@.take(6));
    VdevType::from_chars(prefix.as_slice())
}

/// The section that the line `l` opens, if it opens one.
fn section_of(l: &[char]) -> (r: Option<Section>)
    ensures
        r == spec_section(l@),
{
    let b = body_of(l);
    let bs = b.as_slice();
    let i = skip_spaces_from(bs, 0);
    let e = word_end_from(bs, i);
    if skip_spaces_from(bs, e) < b.len() {
        None
    } else if chars_eq_str(bs, i, e, "logs") {
        Some(Section::Logs)
    } else if chars_eq_str(bs, i, e, "cache") {
        Some(Section::Caches)
    } else if chars_eq_str(bs, i, e, "spares") {
        Some(Section::Spares)
    } else {
        None
    }
}


/// The view of optional text.
pub open spec fn opt_chars(o: Option<Vec<char>>) -> Option<Seq<char>> {
    match o {
        Some(v) => Some(v@),
        None => None,
    }
}

/// What has been read of the current record.
struct Record {
    name: String,
    id: Option<u64>,
    health: Option<Health>,
    action: Option<Vec<char>>,
    errors: Option<Vec<char>>,
    reason: Option<Reason>,
    stats: ErrorStatistics,
    vdevs: Vec<Vdev>,
    caches: Vec<Disk>,
    logs: Vec<Vdev>,
    spares: Vec<Disk>,
    pool_line: bool,
}

impl View for Record {
    type V = RecordView;

    closed spec fn view(&self) -> RecordView {
        RecordView {
            name: self.name@,
            id: self.id,
            health: self.health,
            action: opt_chars(self.action),
            errors: opt_chars(self.errors),
            reason: crate::zpool::description::reason_view(self.reason),
            stats: self.stats,
            vdevs: vdevs_view(self.vdevs@),
            caches: disks_view(self.caches@),
            logs: vdevs_view(self.logs@),
            spares: disks_view(self.spares@),
            pool_line: self.pool_line,
        }
    }
}

impl Record {
    fn new(name: String) -> (r: Record)
        ensures
            r@ == new_record(name@),
    {
        let r = Record {
            name,
            id: None,
            health: None,
            action: None,
            errors: None,
            reason: None,
            stats: ErrorStatistics { read: 0, write: 0, checksum: 0 },
            vdevs: Vec::new(),
            caches: Vec::new(),
            logs: Vec::new(),
            spares: Vec::new(),
            pool_line: false,
        };
        assert(r@.vdevs =~= Seq::empty());
        assert(r@.caches =~= Seq::empty());
        assert(r@.logs =~= Seq::empty());
        assert(r@.spares =~= Seq::empty());
        r
    }
}

/// The state of the reader.
struct ParseState {
    done: Vec<Zpool>,
    rec: Record,
    mode: Mode,
}

impl View for ParseState {
    type V = ParseView;

    closed spec fn view(&self) -> ParseView {
        ParseView { done: zpools_view(self.done@), rec: self.rec@, mode: self.mode }
    }
}

/// The text as a string.
fn string_of_chars(v: &Vec<char>) -> (s: String)
    ensures
        s@ == v@,
{
    let s = string_of(v.as_slice(), 0, v.len());
    assert(v@.subrange(0, v@.len() as int) =~= v@);
    s
}

/// The errors text, or `None` when it reports that there are none.
fn error_string(t: &Option<Vec<char>>) -> (r: Option<String>)
    ensures
        crate::zpool::properties::opt_view(r) == error_text(opt_chars(*t)),
{
    match t {
        Some(x) => {
            if x.len() >= 20 && chars_eq_str(x.as_slice(), 0, 20, "No known data errors") {
                assert(x@.subrange(0, 20) =~= x@.take(20));
                None
            } else {
                assert(x@.subrange(0, 20) =~= x@.take(20));
                Some(string_of_chars(x))
            }
        },
        None => None,
    }
}

/// The pool that a complete record describes.
fn finish_record(r: Record) -> (z: Zpool)
    requires
        complete(r@),
    ensures
        z@ == finish(r@),
{
    let action = match &r.action {
        Some(a) => Some(string_of_chars(a)),
        None => None,
    };
    let errors = error_string(&r.errors);
    let health = match r.health {
        Some(h) => h,
        None => Health::Online,
    };
    Zpool {
        name: r.name,
        id: r.id,
        health,
        vdevs: r.vdevs,
        caches: r.caches,
        logs: r.logs,
        spares: r.spares,
        action,
        errors,
        reason: r.reason,
        error_statistics: r.stats,
    }
}

/// The vdev that a device line of the vdevs or of the logs stands for.
fn vdev_from(d: Disk) -> (v: Vdev)
    ensures
        v@ == vdev_of(d@),
{
    let name = crate::text::chars_of(d.path.as_str());
    match raid_kind_of(name.as_slice()) {
        Some(k) => {
            let v = Vdev {
                kind: k,
                health: d.health,
                reason: d.reason,
                disks: Vec::new(),
                error_statistics: d.error_statistics,
            };
            assert(v@.disks =~= Seq::empty());
            v
        },
        None => {
            let ghost dv = d@;
            let health = d.health;
            let mut disks: Vec<Disk> = Vec::new();
            disks.push(d);
            let v = Vdev {
                kind: VdevType::SingleDisk,
                health,
                reason: None,
                disks,
                error_statistics: ErrorStatistics { read: 0, write: 0, checksum: 0 },
            };
            assert(v@.disks =~= seq![dv]);
            v
        },
    }
}

/// Adds the disk `d` to the last of `vs`.
fn add_disk_to_last(vs: &mut Vec<Vdev>, d: Disk)
    requires
        old(vs)@.len() > 0,
    ensures
        vdevs_view(final(vs)@) == add_to_last(vdevs_view(old(vs)@), d@),
{
    let ghost before = vdevs_view(vs@);
    let mut last = vs.pop().unwrap();
    let ghost mid = vs@;
    assert(vdevs_view(mid) =~= before.drop_last());
    let ghost lv = last@;
    let ghost dv = d@;
    last.disks.push(d);
    assert(last@.disks =~= lv.disks.push(dv));
    vs.push(last);
    assert(vdevs_view(vs@) =~= vdevs_view(mid).push(last@));
}

/// Whether the record has what a pool needs.
fn is_complete(r: &Record) -> (b: bool)
    ensures
        b == complete(r@),
{
    r.health.is_some() && r.pool_line
}

/// Marks the reader as failed.
fn fail(st: &mut ParseState)
    ensures
        final(st)@ == failed(old(st)@),
{
    st.mode = Mode::Failed;
}

/// What a header line does.
fn header_step(st: &mut ParseState, k: HeaderKey, l: &[char], v: usize)
    requires
        old(st)@.mode != Mode::Failed,
        v <= strip_eol(l@).len(),
    ensures
        final(st)@ == on_header(old(st)@, k, l@, v as int),
{
    let b = body_of(l);
    proof {
        crate::text::lemma_word_end_bounds(b@, v as int);
        assert(b@.len() <= l@.len());
    }
    let e = word_end_from(b.as_slice(), v);
    let word = sub_chars(b.as_slice(), v, e);
    assert(word@ == word_at(l@, v as int));
    match k {
        HeaderKey::Pool => {
            let name = string_of_chars(&word);
            if st.mode == Mode::Start {
                st.rec = Record::new(name);
                st.mode = Mode::Headers(Open::Ignore);
            } else if is_complete(&st.rec) {
                let mut old_rec = Record::new(name);
                std::mem::swap(&mut old_rec, &mut st.rec);
                let z = finish_record(old_rec);
                let ghost before = zpools_view(st.done@);
                st.done.push(z);
                assert(zpools_view(st.done@) =~= before.push(z@));
                st.mode = Mode::Headers(Open::Ignore);
            } else {
                fail(st);
            }
        },
        _ => {
            if st.mode == Mode::Start {
                fail(st);
            } else {
                match k {
                    HeaderKey::Id => match parse_u64(word.as_slice()) {
                        Some(n) => {
                            st.rec.id = Some(n);
                            st.mode = Mode::Headers(Open::Ignore);
                        },
                        None => fail(st),
                    },
                    HeaderKey::State => match Health::from_chars(word.as_slice()) {
                        Some(h) => {
                            st.rec.health = Some(h);
                            st.mode = Mode::Headers(Open::Ignore);
                        },
                        None => fail(st),
                    },
                    HeaderKey::Action => {
                        st.rec.action = Some(sub_chars(l, v, l.len()));
                        assert(l@.subrange(v as int, l@.len() as int) =~= l@.skip(v as int));
                        st.mode = Mode::Headers(Open::Action);
                    },
                    HeaderKey::Errors => {
                        st.rec.errors = Some(sub_chars(l, v, l.len()));
                        assert(l@.subrange(v as int, l@.len() as int) =~= l@.skip(v as int));
                        st.mode = Mode::Headers(Open::Errors);
                    },
                    HeaderKey::Config => {
                        st.mode = Mode::Config(false);
                    },
                    _ => {
                        st.mode = Mode::Headers(Open::Ignore);
                    },
                }
            }
        },
    }
}


/// Appends the line `l` to optional text.
fn append_line(t: &mut Option<Vec<char>>, l: &[char])
    ensures
        opt_chars(*final(t)) == append_text(opt_chars(*old(t)), l@),
{
    match t {
        Some(x) => {
            crate::text::push_chars(x, l, 0, l.len());
            assert(l@.subrange(0, l@.len() as int) =~= l@);
        },
        None => {
            let x = sub_chars(l, 0, l.len());
            assert(l@.subrange(0, l@.len() as int) =~= l@);
            *t = Some(x);
        },
    }
}

/// What a device line of the tree does.
fn tree_step(st: &mut ParseState, l: &[char], pi: usize, sec: Section, ri: Option<usize>)
    ensures
        final(st)@ == on_tree_line(old(st)@, l@, pi, sec, ri),
{
    let b = body_of(l);
    let n = skip_spaces_from(b.as_slice(), 0);
    if n <= pi {
        match section_of(l) {
            Some(sec2) => {
                st.mode = Mode::Tree(pi, sec2, None);
            },
            None => fail(st),
        }
        return;
    }
    let d = match parse_device(l) {
        Some(d) => d,
        None => {
            fail(st);
            return;
        },
    };
    let in_raid = match ri {
        Some(r) => n > r,
        None => false,
    };
    let ghost dv = d@;
    match sec {
        Section::Vdevs => {
            if in_raid && st.rec.vdevs.len() > 0 {
                add_disk_to_last(&mut st.rec.vdevs, d);
            } else {
                let name = crate::text::chars_of(d.path.as_str());
                let is_raid = raid_kind_of(name.as_slice()).is_some();
                let v = vdev_from(d);
                let ghost before = vdevs_view(st.rec.vdevs@);
                st.rec.vdevs.push(v);
                assert(vdevs_view(st.rec.vdevs@) =~= before.push(vdev_of(dv)));
                st.mode = Mode::Tree(
                    pi,
                    sec,
                    if is_raid {
                        Some(n)
                    } else {
                        None
                    },
                );
            }
        },
        Section::Logs => {
            if in_raid && st.rec.logs.len() > 0 {
                add_disk_to_last(&mut st.rec.logs, d);
            } else {
                let name = crate::text::chars_of(d.path.as_str());
                let is_raid = raid_kind_of(name.as_slice()).is_some();
                let v = vdev_from(d);
                let ghost before = vdevs_view(st.rec.logs@);
                st.rec.logs.push(v);
                assert(vdevs_view(st.rec.logs@) =~= before.push(vdev_of(dv)));
                st.mode = Mode::Tree(
                    pi,
                    sec,
                    if is_raid {
                        Some(n)
                    } else {
                        None
                    },
                );
            }
        },
        Section::Caches => {
            let ghost before = disks_view(st.rec.caches@);
            st.rec.caches.push(d);
            assert(disks_view(st.rec.caches@) =~= before.push(dv));
            st.mode = Mode::Tree(pi, sec, None);
        },
        Section::Spares => {
            let ghost before = disks_view(st.rec.spares@);
            st.rec.spares.push(d);
            assert(disks_view(st.rec.spares@) =~= before.push(dv));
            st.mode = Mode::Tree(pi, sec, None);
        },
    }
}

/// What a line of text does.
fn text_step(st: &mut ParseState, l: &[char])
    ensures
        final(st)@ == on_text(old(st)@, l@),
{
    match st.mode {
        Mode::Start => fail(st),
        Mode::Headers(Open::Action) => append_line(&mut st.rec.action, l),
        Mode::Headers(Open::Errors) => append_line(&mut st.rec.errors, l),
        Mode::Headers(Open::Ignore) => {},
        Mode::Config(seen) => {
            let b = body_of(l);
            let i = skip_spaces_from(b.as_slice(), 0);
            let e = word_end_from(b.as_slice(), i);
            if !seen && chars_eq_str(b.as_slice(), i, e, "NAME") {
                st.mode = Mode::Config(true);
            } else {
                match parse_device(l) {
                    Some(d) => {
                        st.rec.stats = d.error_statistics;
                        st.rec.reason = d.reason;
                        st.rec.pool_line = true;
                        st.mode = Mode::Tree(i, Section::Vdevs, None);
                    },
                    None => fail(st),
                }
            }
        },
        Mode::Tree(pi, sec, ri) => tree_step(st, l, pi, sec, ri),
        Mode::Failed => {},
    }
}

/// What the line `l` does to the reader.
fn step_line(st: &mut ParseState, l: &[char])
    ensures
        final(st)@ == step(old(st)@, l@),
{
    if st.mode == Mode::Failed {
        return;
    }
    match classify(l) {
        LineClass::Blank => {
            match st.mode {
                Mode::Headers(_) => {
                    st.mode = Mode::Headers(Open::Ignore);
                },
                Mode::Tree(_, _, _) => {
                    st.mode = Mode::Headers(Open::Ignore);
                },
                _ => {},
            }
        },
        LineClass::Header(k, v) => header_step(st, k, l, v),
        LineClass::Text => text_step(st, l),
    }
}


/// The text of the lines `ls[i..]` as long as they are plain text, joined.
pub open spec fn following_text(ls: Seq<Seq<char>>, i: int) -> Seq<char>
    decreases ls.len() - i,
{
    if 0 <= i < ls.len() && spec_classify(ls[i]) == LineClass::Text {
        ls[i] + following_text(ls, i + 1)
    } else {
        Seq::empty()
    }
}

/// The value of the `scan:` header that opens `text`, with the lines of text
/// that continue it; `None` when `text` does not open with that header.
pub open spec fn spec_scan_text(text: Seq<char>) -> Option<Seq<char>> {
    let ls = crate::text::spec_lines(text);
    if ls.len() > 0 {
        match spec_classify(ls[0]) {
            LineClass::Header(HeaderKey::Scan, v) => Some(ls[0].skip(v as int) + following_text(ls, 1)),
            _ => None,
        }
    } else {
        None
    }
}

/// Reader of the reports of `zpool status` and `zpool import`.
pub struct StdoutParser;

impl StdoutParser {
    /// The pools that the report `text` describes, in order; a parse error
    /// when it does not have the expected form.
    pub fn parse_zpools(text: &str) -> (r: Result<Vec<Zpool>, ZpoolError>)
        ensures
            match spec_parse_zpools(text@) {
                Some(v) => r matches Ok(z) && zpools_view(z@) == v,
                None => r matches Err(e) && e is ParseError,
            },
    {
        let chars = crate::text::chars_of(text);
        let lines = crate::text::lines_of(chars.as_slice());
        let ghost ls = crate::text::views(lines@);
        let mut st = ParseState { done: Vec::new(), rec: Record::new(String::new()), mode: Mode::Start };
        assert(st@.done =~= Seq::empty());
        assert(ls.take(0) =~= Seq::<Seq<char>>::empty());
        let mut i: usize = 0;
        while i < lines.len()
            invariant
                i <= lines@.len(),
                ls == crate::text::views(lines@),
                ls.len() == lines@.len(),
                st@ == run(ls.take(i as int)),
            decreases lines@.len() - i,
        {
            step_line(&mut st, lines[i].as_slice());
            assert(ls.take(i + 1).drop_last() =~= ls.take(i as int));
            assert(ls.take(i + 1).last() == lines@[i as int]@);
            i += 1;
        }
        assert(ls.take(lines@.len() as int) =~= ls);
        match st.mode {
            Mode::Start => Ok(st.done),
            Mode::Failed => Err(ZpoolError::ParseError),
            _ => {
                if is_complete(&st.rec) {
                    let ghost before = zpools_view(st.done@);
                    let z = finish_record(st.rec);
                    let mut done = st.done;
                    done.push(z);
                    assert(zpools_view(done@) =~= before.push(z@));
                    Ok(done)
                } else {
                    Err(ZpoolError::ParseError)
                }
            },
        }
    }

    /// The first pool that the report `text` describes; a parse error when
    /// the report does not have the expected form or describes no pool.
    pub fn parse_zpool(text: &str) -> (r: Result<Zpool, ZpoolError>)
        ensures
            match spec_parse_zpools(text@) {
                Some(v) => if v.len() > 0 {
                    r matches Ok(z) && z@ == v[0]
                } else {
                    r matches Err(e) && e is ParseError
                },
                None => r matches Err(e) && e is ParseError,
            },
    {
        match StdoutParser::parse_zpools(text) {
            Ok(mut v) => {
                if v.len() > 0 {
                    let ghost vv = zpools_view(v@);
                    let z = v.remove(0);
                    assert(z@ == vv[0]);
                    Ok(z)
                } else {
                    Err(ZpoolError::ParseError)
                }
            },
            Err(e) => Err(e),
        }
    }

    /// The value of the `scan:` header that opens `text`, continuation lines
    /// included.
    pub fn parse_scan_line(text: &str) -> (r: Option<String>)
        ensures
            match spec_scan_text(text@) {
                Some(t) => r matches Some(s) && s@ == t,
                None => r is None,
            },
    {
        let chars = crate::text::chars_of(text);
        let lines = crate::text::lines_of(chars.as_slice());
        let ghost ls = crate::text::views(lines@);
        if lines.len() == 0 {
            return None;
        }
        let first = lines[0].as_slice();
        let v = match classify(first) {
            LineClass::Header(HeaderKey::Scan, v) => v,
            _ => {
                return None;
            },
        };
        assert(strip_eol(first@).len() <= first@.len());
        let mut acc = sub_chars(first, v, first.len());
        assert(first@.subrange(v as int, first@.len() as int) =~= ls[0].skip(v as int));
        let ghost target = ls[0].skip(v as int) + following_text(ls, 1);
        assert(acc@ + following_text(ls, 1) == target);
        let mut i: usize = 1;
        while i < lines.len() && classify(lines[i].as_slice()) == LineClass::Text
            invariant
                1 <= i <= lines@.len(),
                ls == crate::text::views(lines@),
                acc@ + following_text(ls, i as int) == target,
            decreases lines@.len() - i,
        {
            let ghost a0 = acc@;
            crate::text::push_chars(&mut acc, lines[i].as_slice(), 0, lines[i].len());
            assert(lines@[i as int]@.subrange(0, lines@[i as int]@.len() as int) =~= ls[i as int]);
            assert(following_text(ls, i as int) == ls[i as int] + following_text(ls, i + 1));
            assert(a0 + (ls[i as int] + following_text(ls, i + 1)) =~= (a0 + ls[i as int])
                + following_text(ls, i + 1));
            i += 1;
        }
        assert(following_text(ls, i as int) =~= Seq::empty());
        assert(acc@ =~= target);
        Some(string_of_chars(&acc))
    }
}

} // verus!
