//! The decisions of updating the writable properties of a pool: check that
//! the pool exists, read its properties, set each one that differs, read
//! them again. The caller runs each action against the pool and hands back
//! what happened; this module says what comes next.
use vstd::prelude::*;

use super::open3::{property_updates, update_pairs};
use super::properties::{ZpoolProperties, ZpoolPropertiesWrite, ZpoolPropertiesWriteView};
use super::vdev::strings_view;
use super::{ZpoolError, ZpoolResult};

verus! {

/// Where an update stands.
#[derive(Debug, Clone, Copy, PartialEq, Eq, Structural)]
pub enum UpdateStage {
    /// Waiting to learn whether the pool exists.
    CheckExists,
    /// Waiting for the current properties.
    ReadCurrent,
    /// Waiting for a property to be set.
    Setting,
    /// Waiting for the properties after the update.
    Reread,
    /// The update is over.
    Done,
}

/// What running an action gave.
#[derive(Debug)]
pub enum UpdateEvent {
    /// Whether the pool exists.
    Exists(bool),
    /// The properties the pool has.
    Properties(ZpoolProperties),
    /// The property was set.
    PropertySet,
    /// The action failed with this error.
    Failed(ZpoolError),
}

/// What to do next.
#[derive(Debug)]
pub enum UpdateAction {
    /// Ask whether the pool exists.
    CheckExists,
    /// Read the properties of the pool.
    ReadProperties,
    /// Set the property given as `key=value`.
    SetProperty(String),
    /// The update is over, with this outcome.
    Finish(ZpoolResult<ZpoolProperties>),
}

/// What an action is.
pub enum UpdateActionView {
    CheckExists,
    ReadProperties,
    SetProperty(Seq<char>),
    Finish(ZpoolResult<ZpoolProperties>),
}

impl View for UpdateAction {
    type V = UpdateActionView;

    open spec fn view(&self) -> UpdateActionView {
        match self {
            UpdateAction::CheckExists => UpdateActionView::CheckExists,
            UpdateAction::ReadProperties => UpdateActionView::ReadProperties,
            UpdateAction::SetProperty(p) => UpdateActionView::SetProperty(p@),
            UpdateAction::Finish(r) => UpdateActionView::Finish(*r),
        }
    }
}

/// An update of the properties of a pool to `props`, under way.
pub struct PropertyUpdate {
    props: ZpoolPropertiesWrite,
    pairs: Vec<String>,
    next: usize,
    stage: UpdateStage,
}

/// What an update holds: the desired properties, the `key=value` pairs to
/// set (known once the current properties are read), how many of them were
/// asked for, and the stage.
pub struct PropertyUpdateView {
    pub props: ZpoolPropertiesWriteView,
    pub pairs: Seq<Seq<char>>,
    pub next: nat,
    pub stage: UpdateStage,
}

impl View for PropertyUpdate {
    type V = PropertyUpdateView;

    closed spec fn view(&self) -> PropertyUpdateView {
        PropertyUpdateView {
            props: self.props@,
            pairs: strings_view(self.pairs@),
            next: self.next as nat,
            stage: self.stage,
        }
    }
}

/// An update that starts by asking whether the pool exists.
pub open spec fn spec_start(props: ZpoolPropertiesWriteView) -> PropertyUpdateView {
    PropertyUpdateView { props, pairs: Seq::empty(), next: 0, stage: UpdateStage::CheckExists }
}

/// Whether an update in stage `stage` can take `e`: the answer to the action
/// it asked for, or a failure.
pub open spec fn fits(stage: UpdateStage, e: UpdateEvent) -> bool {
    match e {
        UpdateEvent::Failed(_) => stage != UpdateStage::Done,
        UpdateEvent::Exists(_) => stage == UpdateStage::CheckExists,
        UpdateEvent::Properties(_) => stage == UpdateStage::ReadCurrent || stage == UpdateStage::Reread,
        UpdateEvent::PropertySet => stage == UpdateStage::Setting,
    }
}

/// The end of an update, with outcome `r`.
pub open spec fn finish(s: PropertyUpdateView, r: ZpoolResult<ZpoolProperties>) -> (PropertyUpdateView, UpdateActionView) {
    (PropertyUpdateView { stage: UpdateStage::Done, ..s }, UpdateActionView::Finish(r))
}

/// The next pair to set when `s.next` of them were asked for, else the
/// final read.
pub open spec fn set_or_reread(s: PropertyUpdateView) -> (PropertyUpdateView, UpdateActionView) {
    if s.next < s.pairs.len() {
        (
            PropertyUpdateView { next: s.next + 1, stage: UpdateStage::Setting, ..s },
            UpdateActionView::SetProperty(s.pairs[s.next as int]),
        )
    } else {
        (PropertyUpdateView { stage: UpdateStage::Reread, ..s }, UpdateActionView::ReadProperties)
    }
}

/// One step of an update: a failure ends it with that error; a missing pool
/// ends it with `PoolNotFound`; the current properties give the pairs that
/// differ, which are set one by one; the properties read at the end are
/// its outcome.
pub open spec fn spec_step(s: PropertyUpdateView, e: UpdateEvent) -> (PropertyUpdateView, UpdateActionView) {
    match e {
        UpdateEvent::Failed(err) => finish(s, Err(err)),
        UpdateEvent::Exists(true) => (
            PropertyUpdateView { stage: UpdateStage::ReadCurrent, ..s },
            UpdateActionView::ReadProperties,
        ),
        UpdateEvent::Exists(false) => finish(s, Err(ZpoolError::PoolNotFound)),
        UpdateEvent::Properties(p) => if s.stage == UpdateStage::ReadCurrent {
            set_or_reread(PropertyUpdateView { pairs: update_pairs(p, s.props), next: 0, ..s })
        } else {
            finish(s, Ok(p))
        },
        UpdateEvent::PropertySet => set_or_reread(s),
    }
}

/// The actions an update in state `s` asks for as it is given `events`.
pub open spec fn run(s: PropertyUpdateView, events: Seq<UpdateEvent>) -> Seq<UpdateActionView>
    decreases events.len(),
{
    if events.len() == 0 {
        Seq::empty()
    } else {
        let (t, a) = spec_step(s, events[0]);
        seq![a] + run(t, events.drop_first())
    }
}

/// The answers of a pool on which every action succeeds: it exists, has the
/// properties `cur`, takes each of `n` settings, and then has `after`.
pub open spec fn smooth_events(cur: ZpoolProperties, n: nat, after: ZpoolProperties) -> Seq<UpdateEvent> {
    seq![UpdateEvent::Exists(true), UpdateEvent::Properties(cur)]
        + Seq::new(n, |i: int| UpdateEvent::PropertySet)
        + seq![UpdateEvent::Properties(after)]
}

/// Setting each pair of `pairs`, in order.
pub open spec fn set_actions(pairs: Seq<Seq<char>>) -> Seq<UpdateActionView> {
    pairs.map_values(|p: Seq<char>| UpdateActionView::SetProperty(p))
}

proof fn lemma_setting_phase(s: PropertyUpdateView, after: ZpoolProperties)
    requires
        s.next <= s.pairs.len(),
    ensures
        ({
            let (t, a) = set_or_reread(s);
            seq![a] + run(
                t,
                Seq::new((s.pairs.len() - s.next) as nat, |i: int| UpdateEvent::PropertySet)
                    + seq![UpdateEvent::Properties(after)],
            )
        }) == set_actions(s.pairs.skip(s.next as int)) + seq![
            UpdateActionView::ReadProperties,
            UpdateActionView::Finish(Ok(after)),
        ],
    decreases s.pairs.len() - s.next,
{
    let n = s.pairs.len();
    let k = s.next;
    let (t, a) = set_or_reread(s);
    let evs = Seq::new((n - k) as nat, |i: int| UpdateEvent::PropertySet) + seq![UpdateEvent::Properties(after)];
    if k < n {
        assert(evs[0] == UpdateEvent::PropertySet);
        let rest = evs.drop_first();
        assert(rest =~= Seq::new((n - t.next) as nat, |i: int| UpdateEvent::PropertySet)
            + seq![UpdateEvent::Properties(after)]);
        lemma_setting_phase(t, after);
        assert(set_actions(s.pairs.skip(k as int)) =~= seq![UpdateActionView::SetProperty(s.pairs[k as int])]
            + set_actions(s.pairs.skip(t.next as int)));
        assert(run(t, evs) == seq![set_or_reread(t).1] + run(set_or_reread(t).0, rest));
        assert(seq![a] + run(t, evs) =~= set_actions(s.pairs.skip(k as int)) + seq![
            UpdateActionView::ReadProperties,
            UpdateActionView::Finish(Ok(after)),
        ]);
    } else {
        assert(evs =~= seq![UpdateEvent::Properties(after)]);
        assert(evs.drop_first() =~= Seq::<UpdateEvent>::empty());
        assert(set_actions(s.pairs.skip(k as int)) =~= Seq::<UpdateActionView>::empty());
        assert(t.stage == UpdateStage::Reread);
        assert(spec_step(t, evs[0]) == finish(t, Ok(after)));
        assert(run(finish(t, Ok(after)).0, evs.drop_first()) == Seq::<UpdateActionView>::empty());
        assert(run(t, evs) =~= seq![UpdateActionView::Finish(Ok(after))]);
        assert(seq![a] + run(t, evs) =~= set_actions(s.pairs.skip(k as int)) + seq![
            UpdateActionView::ReadProperties,
            UpdateActionView::Finish(Ok(after)),
        ]);
    }
}

/// On a pool where every action succeeds, an update reads the properties,
/// sets exactly the `key=value` pairs that differ from the current ones, in
/// the order of `update_pairs`, reads the properties again, and ends with
/// them.
pub proof fn lemma_update_sets_exactly_what_differs(
    props: ZpoolPropertiesWriteView,
    cur: ZpoolProperties,
    after: ZpoolProperties,
)
    ensures
        run(spec_start(props), smooth_events(cur, update_pairs(cur, props).len(), after)) == seq![
            UpdateActionView::ReadProperties,
        ] + set_actions(update_pairs(cur, props)) + seq![
            UpdateActionView::ReadProperties,
            UpdateActionView::Finish(Ok(after)),
        ],
{
    let pairs = update_pairs(cur, props);
    let n = pairs.len();
    let s0 = spec_start(props);
    let evs = smooth_events(cur, n, after);
    let s1 = PropertyUpdateView { stage: UpdateStage::ReadCurrent, ..s0 };
    let s2 = PropertyUpdateView { pairs, next: 0, ..s1 };
    let tail = Seq::new(n, |i: int| UpdateEvent::PropertySet) + seq![UpdateEvent::Properties(after)];
    assert(evs[0] == UpdateEvent::Exists(true));
    assert(evs.drop_first()[0] == UpdateEvent::Properties(cur));
    assert(evs.drop_first().drop_first() =~= tail);
    lemma_setting_phase(s2, after);
    assert(pairs.skip(0) =~= pairs);
    assert(run(s1, evs.drop_first()) == seq![set_or_reread(s2).1] + run(set_or_reread(s2).0, tail));
    assert(run(s0, evs) =~= seq![UpdateActionView::ReadProperties] + run(s1, evs.drop_first()));
}

impl PropertyUpdate {
    /// The stage the update is in.
    pub closed spec fn spec_stage(&self) -> UpdateStage {
        self.stage
    }

    /// An update of a pool's properties to `props`, and its first action:
    /// asking whether the pool exists.
    pub fn start(props: ZpoolPropertiesWrite) -> (r: (PropertyUpdate, UpdateAction))
        ensures
            r.0@ == spec_start(props@),
            r.1@ == UpdateActionView::CheckExists,
    {
        let u = PropertyUpdate { props, pairs: Vec::new(), next: 0, stage: UpdateStage::CheckExists };
        assert(u@.pairs =~= Seq::<Seq<char>>::empty());
        (u, UpdateAction::CheckExists)
    }

    /// Whether the update can take `e` now.
    pub fn accepts(&self, e: &UpdateEvent) -> (r: bool)
        ensures
            r == fits(self@.stage, *e),
    {
        proof {
            assert(self@.stage == self.stage);
        }
        match e {
            UpdateEvent::Failed(_) => self.stage != UpdateStage::Done,
            UpdateEvent::Exists(_) => self.stage == UpdateStage::CheckExists,
            UpdateEvent::Properties(_) => self.stage == UpdateStage::ReadCurrent || self.stage == UpdateStage::Reread,
            UpdateEvent::PropertySet => self.stage == UpdateStage::Setting,
        }
    }

    fn next_pair(&mut self) -> (a: UpdateAction)
        requires
            old(self).stage != UpdateStage::Done,
        ensures
            (final(self)@, a@) == set_or_reread(old(self)@),
    {
        if self.next < self.pairs.len() {
            let pair = self.pairs[self.next].clone();
            self.next = self.next + 1;
            self.stage = UpdateStage::Setting;
            proof {
                assert(strings_view(self.pairs@)[self.next - 1] == pair@);
            }
            UpdateAction::SetProperty(pair)
        } else {
            self.stage = UpdateStage::Reread;
            UpdateAction::ReadProperties
        }
    }

    /// Takes what running the last action gave, and says what to do next.
    pub fn step(&mut self, e: UpdateEvent) -> (a: UpdateAction)
        requires
            fits(old(self)@.stage, e),
        ensures
            (final(self)@, a@) == spec_step(old(self)@, e),
    {
        proof {
            assert(self@.stage == self.stage);
        }
        match e {
            UpdateEvent::Failed(err) => {
                self.stage = UpdateStage::Done;
                UpdateAction::Finish(Err(err))
            },
            UpdateEvent::Exists(true) => {
                self.stage = UpdateStage::ReadCurrent;
                UpdateAction::ReadProperties
            },
            UpdateEvent::Exists(false) => {
                self.stage = UpdateStage::Done;
                UpdateAction::Finish(Err(ZpoolError::PoolNotFound))
            },
            UpdateEvent::Properties(p) => {
                if self.stage == UpdateStage::ReadCurrent {
                    self.pairs = property_updates(&p, &self.props);
                    self.next = 0;
                    self.next_pair()
                } else {
                    self.stage = UpdateStage::Done;
                    UpdateAction::Finish(Ok(p))
                }
            },
            UpdateEvent::PropertySet => self.next_pair(),
        }
    }
}

} // verus!
