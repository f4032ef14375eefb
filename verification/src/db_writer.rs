//! Decisions of the state logger that stores brewery snapshots in the
//! database: when a brew starts and ends, which snapshots are buffered under
//! which brew, and when the buffer is written out.
//!
//! The database work itself (creating and ending brew rows, writing buffered
//! snapshots) is done by the caller, which reports each outcome back.
use crate::state::{brewing, is_brewing, BrewPhase};
use vstd::prelude::*;

verus! {

/// What the caller must do after a snapshot has been announced.
#[derive(Copy, Clone, Debug, PartialEq, Eq)]
pub enum SnapshotAction {
    /// Nothing: the brew state did not change.
    Nothing,
    /// A brew starts: create a brew row that started at `started_at`, then
    /// report the new row's id (or the failure) with `brew_created`.
    CreateBrew { started_at: i64 },
    /// The brew ends: write out the buffered snapshots first, then, when
    /// `brew_id` is some id, mark that brew as ended at `ended_at`.
    EndBrew { brew_id: Option<i64>, ended_at: i64 },
}

/// The logical state of the writer.
pub struct DbWriterView<S> {
    pub last_brewing: bool,
    pub current_brew_id: Option<i64>,
    pub buffer: Seq<(i64, S)>,
}

/// The database writer's bookkeeping: whether the previous snapshot was
/// taken during a brew, the id of the brew being recorded, and the snapshots
/// waiting to be written, each with its brew id.
pub struct DbWriter<S> {
    last_brewing: bool,
    current_brew_id: Option<i64>,
    buffer: Vec<(i64, S)>,
}

/// A snapshot time stamp as stored in the database: the value itself when it
/// fits in an `i64`, else zero.
pub open spec fn stored_time(timestamp: u64) -> i64 {
    if timestamp <= i64::MAX as u64 {
        timestamp as i64
    } else {
        0
    }
}

/// The action and the next state when a snapshot of phase `phase` taken at
/// `timestamp` is announced in state `v`.
pub open spec fn announce<S>(v: DbWriterView<S>, phase: BrewPhase, timestamp: u64) -> (
    DbWriterView<S>,
    SnapshotAction,
) {
    let b = brewing(phase);
    if b && !v.last_brewing {
        (
            DbWriterView { last_brewing: true, ..v },
            SnapshotAction::CreateBrew { started_at: stored_time(timestamp) },
        )
    } else if !b && v.last_brewing {
        (
            DbWriterView { last_brewing: false, current_brew_id: None, ..v },
            SnapshotAction::EndBrew {
                brew_id: v.current_brew_id,
                ended_at: stored_time(timestamp),
            },
        )
    } else {
        (DbWriterView { last_brewing: b, ..v }, SnapshotAction::Nothing)
    }
}

/// The state after the outcome of a brew creation is reported.
pub open spec fn created<S>(v: DbWriterView<S>, id: Option<i64>) -> DbWriterView<S> {
    match id {
        Some(i) => DbWriterView { current_brew_id: Some(i), ..v },
        None => v,
    }
}

/// The state after a snapshot is recorded: buffered under the current brew,
/// or dropped when no brew is being recorded.
pub open spec fn recorded<S>(v: DbWriterView<S>, snapshot: S) -> DbWriterView<S> {
    match v.current_brew_id {
        Some(i) => DbWriterView { buffer: v.buffer.push((i, snapshot)), ..v },
        None => v,
    }
}

/// Converts a snapshot time stamp to its stored form.
pub fn to_stored_time(timestamp: u64) -> (r: i64)
    ensures
        r == stored_time(timestamp),
{
    if timestamp <= i64::MAX as u64 {
        timestamp as i64
    } else {
        0
    }
}

impl<S> DbWriter<S> {
    pub closed spec fn view(&self) -> DbWriterView<S> {
        DbWriterView {
            last_brewing: self.last_brewing,
            current_brew_id: self.current_brew_id,
            buffer: self.buffer@,
        }
    }

    /// A writer that has seen no snapshot: not brewing, no brew, nothing
    /// buffered.
    pub fn new() -> (r: DbWriter<S>)
        ensures
            r.view() == (DbWriterView::<S> {
                last_brewing: false,
                current_brew_id: None,
                buffer: Seq::empty(),
            }),
    {
        DbWriter { last_brewing: false, current_brew_id: None, buffer: Vec::new() }
    }

    /// Announces a snapshot of phase `phase` taken at `timestamp`, and says
    /// what the database must do before the snapshot is recorded.
    pub fn announce(&mut self, phase: BrewPhase, timestamp: u64) -> (r: SnapshotAction)
        ensures
            (final(self).view(), r) == announce(old(self).view(), phase, timestamp),
    {
        let b = is_brewing(phase);
        let action = if b && !self.last_brewing {
            SnapshotAction::CreateBrew { started_at: to_stored_time(timestamp) }
        } else if !b && self.last_brewing {
            let id = self.current_brew_id.take();
            SnapshotAction::EndBrew { brew_id: id, ended_at: to_stored_time(timestamp) }
        } else {
            SnapshotAction::Nothing
        };
        self.last_brewing = b;
        action
    }

    /// Reports the outcome of a brew creation: the new brew's id, or `None`
    /// when the row could not be created (the current brew is then kept).
    pub fn brew_created(&mut self, id: Option<i64>)
        ensures
            final(self).view() == created(old(self).view(), id),
    {
        if let Some(i) = id {
            self.current_brew_id = Some(i);
        }
    }

    /// Records a snapshot under the current brew, if there is one.
    pub fn record(&mut self, snapshot: S)
        ensures
            final(self).view() == recorded(old(self).view(), snapshot),
    {
        if let Some(i) = self.current_brew_id {
            self.buffer.push((i, snapshot));
        }
    }

    /// Whether there are buffered snapshots to write out.
    pub fn needs_flush(&self) -> (r: bool)
        ensures
            r == (self.view().buffer.len() > 0),
    {
        self.buffer.len() > 0
    }

    /// The buffered snapshots, each with its brew id, oldest first.
    pub fn pending(&self) -> (r: &Vec<(i64, S)>)
        ensures
            r@ == self.view().buffer,
    {
        &self.buffer
    }

    /// Reports the outcome of writing out the buffer: on success it is
    /// emptied, on failure kept for the next try.
    pub fn flushed(&mut self, success: bool)
        ensures
            final(self).view().last_brewing == old(self).view().last_brewing,
            final(self).view().current_brew_id == old(self).view().current_brew_id,
            final(self).view().buffer == (if success {
                Seq::empty()
            } else {
                old(self).view().buffer
            }),
    {
        if success {
            self.buffer = Vec::new();
        }
    }

    /// The id of the brew being recorded.
    pub fn current_brew_id(&self) -> (r: Option<i64>)
        ensures
            r == self.view().current_brew_id,
    {
        self.current_brew_id
    }
}

/// Brews alternate: right after a brew has been started no other start is
/// asked for, and right after a brew has ended no other end is asked for,
/// whatever the next snapshot is.
pub proof fn law_starts_and_ends_alternate<S>(
    v: DbWriterView<S>,
    p1: BrewPhase,
    t1: u64,
    id: Option<i64>,
    p2: BrewPhase,
    t2: u64,
)
    ensures
        announce(v, p1, t1).1 is CreateBrew ==> !(announce(
            created(announce(v, p1, t1).0, id),
            p2,
            t2,
        ).1 is CreateBrew),
        announce(v, p1, t1).1 is EndBrew ==> !(announce(announce(v, p1, t1).0, p2, t2).1 is EndBrew),
{
}

/// The brew that is ended is the one that was created: after a successful
/// creation with id `id`, snapshots taken while brewing keep that brew, and
/// the first one taken outside a brew ends brew `id`.
pub proof fn law_end_names_created_brew<S>(
    v: DbWriterView<S>,
    start: BrewPhase,
    t1: u64,
    id: i64,
    during: BrewPhase,
    t2: u64,
    after: BrewPhase,
    t3: u64,
)
    requires
        announce(v, start, t1).1 is CreateBrew,
        brewing(during),
        !brewing(after),
    ensures
        ({
            let s1 = created(announce(v, start, t1).0, Some(id));
            let s2 = announce(s1, during, t2).0;
            &&& s2.current_brew_id == Some(id)
            &&& announce(s2, after, t3).1 == SnapshotAction::EndBrew {
                brew_id: Some(id),
                ended_at: stored_time(t3),
            }
        }),
{
}

/// Nothing is buffered outside a brew: once a brew has ended, recording a
/// snapshot leaves the buffer as it was.
pub proof fn law_nothing_buffered_after_end<S>(v: DbWriterView<S>, p: BrewPhase, t: u64, s: S)
    requires
        announce(v, p, t).1 is EndBrew,
    ensures
        recorded(announce(v, p, t).0, s).buffer == v.buffer,
{
}


/// The phases of a brew, named one by one: preparation, mashing, lautering,
/// boiling and cooling.
pub open spec fn listed_brewing_phase(p: BrewPhase) -> bool {
    ||| p == BrewPhase::Prep
    ||| p == BrewPhase::Mashing
    ||| p == BrewPhase::Lautering
    ||| p == BrewPhase::Boiling
    ||| p == BrewPhase::Cooling
}

/// One brew spans every phase from preparation to cooling: while a brew is
/// recorded, a snapshot in any of them asks for nothing and keeps the brew,
/// and one in `Idle` or `Done` ends it at the snapshot's time.
pub proof fn law_brew_spans_brewing_phases<S>(v: DbWriterView<S>, p: BrewPhase, t: u64)
    requires
        v.last_brewing,
    ensures
        listed_brewing_phase(p) ==> (announce(v, p, t).1 == SnapshotAction::Nothing),
        listed_brewing_phase(p) ==> (announce(v, p, t).0 == v),
        !listed_brewing_phase(p) ==> (announce(v, p, t).1 == (SnapshotAction::EndBrew {
            brew_id: v.current_brew_id,
            ended_at: stored_time(t),
        })),
        !listed_brewing_phase(p) ==> (announce(v, p, t).0.current_brew_id == None::<i64>),
        announce(v, p, t).0.buffer == v.buffer,
{
}

/// Outside a brew, a snapshot in any phase from preparation to cooling starts
/// a brew at the snapshot's time, and one in `Idle` or `Done` asks for
/// nothing.
pub proof fn law_brew_starts_in_brewing_phases<S>(v: DbWriterView<S>, p: BrewPhase, t: u64)
    requires
        !v.last_brewing,
    ensures
        listed_brewing_phase(p) ==> (announce(v, p, t).1 == (SnapshotAction::CreateBrew {
            started_at: stored_time(t),
        })),
        listed_brewing_phase(p) ==> announce(v, p, t).0.last_brewing,
        !listed_brewing_phase(p) ==> (announce(v, p, t).1 == SnapshotAction::Nothing),
        !listed_brewing_phase(p) ==> (announce(v, p, t).0 == v),
{
}

/// A brew creation that succeeded makes its id the current brew, one that
/// failed changes nothing; a snapshot is appended to the buffer under the
/// current brew, and dropped when there is none.
pub proof fn law_created_and_recorded<S>(v: DbWriterView<S>, i: i64, snapshot: S)
    ensures
        created(v, Some(i)).current_brew_id == Some(i),
        created(v, Some(i)).last_brewing == v.last_brewing,
        created(v, Some(i)).buffer == v.buffer,
        created(v, None) == v,
        v.current_brew_id == Some(i) ==> (recorded(v, snapshot).buffer == v.buffer.push(
            (i, snapshot),
        )),
        recorded(v, snapshot).current_brew_id == v.current_brew_id,
        recorded(v, snapshot).last_brewing == v.last_brewing,
        v.current_brew_id == None::<i64> ==> (recorded(v, snapshot) == v),
{
}

/// Time stamps are stored as they are whenever they fit in an `i64`.
pub proof fn law_stored_time(t: u64)
    ensures
        t <= i64::MAX ==> (stored_time(t) == t),
        t > i64::MAX ==> (stored_time(t) == 0),
{
}

} // verus!
