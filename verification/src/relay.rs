//! The decisions of the outbox relay. One run takes a batch of deliverable
//! records and, for each, asks whether the inbox has already seen it (then it
//! is skipped), else has it applied to the read model and remembered in the
//! inbox (then it is published), or, when applying fails, has the failure
//! counted in the outbox (then it failed, or went to dead letter). The run
//! ends by marking the skipped and published records delivered.
//!
//! The run is a state machine: `action` says what to do next, and `step`
//! takes what came of it. Whoever drives the run does the work.

use vstd::prelude::*;
use crate::errors::AppError;
use crate::outbox::TodoEventRecord;
use crate::projection::ProjectionRunStats;

verus! {

/// Where a run stands.
#[derive(Debug, Clone, Copy, PartialEq, Eq, Structural)]
pub enum RelayPhase {
    Checking,
    Applying,
    RecordingInbox,
    RecordingFailure,
    Publishing,
    Finished,
}

/// What the driver of a run is asked to do next.
#[derive(Debug)]
pub enum RelayAction {
    /// Ask the inbox whether it has seen `event_id`.
    CheckInbox { event_id: String },
    /// Apply `record` to the read model.
    Apply { record: TodoEventRecord },
    /// Remember `event_id` in the inbox.
    RecordInbox { event_id: String },
    /// Count a failed delivery of `event_id` in the outbox.
    RecordFailure { event_id: String, error_message: String, max_retries: u32 },
    /// Mark the records `event_ids` delivered.
    MarkPublished { event_ids: Vec<String> },
    /// Nothing more: the run is over with these counters.
    Finished { stats: ProjectionRunStats },
}

/// What came of the last action.
#[derive(Debug)]
pub enum RelayEvent {
    InboxChecked { seen: bool },
    Applied { outcome: Result<(), AppError> },
    InboxRecorded,
    FailureRecorded,
    Published,
}

/// An event as the run reads it: for an application, the text of its error if it failed.
pub enum RelayEventModel {
    InboxChecked { seen: bool },
    Applied { error: Option<Seq<char>> },
    InboxRecorded,
    FailureRecorded,
    Published,
}

impl View for RelayEvent {
    type V = RelayEventModel;

    open spec fn view(&self) -> RelayEventModel {
        match self {
            RelayEvent::InboxChecked { seen } => RelayEventModel::InboxChecked { seen: *seen },
            RelayEvent::Applied { outcome } => RelayEventModel::Applied {
                error: match outcome {
                    Ok(_) => None,
                    Err(e) => Some(e.display_view()),
                },
            },
            RelayEvent::InboxRecorded => RelayEventModel::InboxRecorded,
            RelayEvent::FailureRecorded => RelayEventModel::FailureRecorded,
            RelayEvent::Published => RelayEventModel::Published,
        }
    }
}

/// A run, as mathematical values.
pub struct RelayModel {
    pub batch: Seq<TodoEventRecord>,
    pub max_retries: u32,
    pub index: int,
    pub phase: RelayPhase,
    pub stats: ProjectionRunStats,
    pub published_ids: Seq<Seq<char>>,
    pub failure_message: Seq<char>,
    /// The outcome of each record done so far: 1 published, 2 skipped, 3 failed, 4 dead lettered.
    pub outcomes: Seq<int>,
}

/// How many of `outcomes` are `which`.
pub open spec fn count_of(outcomes: Seq<int>, which: int) -> nat
    decreases outcomes.len(),
{
    if outcomes.len() == 0 {
        0
    } else {
        count_of(outcomes.drop_last(), which) + if outcomes.last() == which {
            1nat
        } else {
            0nat
        }
    }
}

/// The identifiers of the records of `batch` whose outcome lets them be
/// marked delivered (published or skipped), in batch order.
pub open spec fn delivered_ids(batch: Seq<TodoEventRecord>, outcomes: Seq<int>) -> Seq<Seq<char>>
    decreases outcomes.len(),
{
    if outcomes.len() == 0 {
        Seq::empty()
    } else {
        let k = outcomes.len() - 1;
        let rest = delivered_ids(batch, outcomes.drop_last());
        if outcomes[k] == 1 || outcomes[k] == 2 {
            rest.push(batch[k].event_id@)
        } else {
            rest
        }
    }
}

proof fn lemma_push_outcome(batch: Seq<TodoEventRecord>, outcomes: Seq<int>, w: int)
    ensures
        forall|c: int| #[trigger] count_of(outcomes.push(w), c) == count_of(outcomes, c) + if w == c {
            1nat
        } else {
            0nat
        },
        delivered_ids(batch, outcomes.push(w)) == if w == 1 || w == 2 {
            delivered_ids(batch, outcomes).push(batch[outcomes.len() as int].event_id@)
        } else {
            delivered_ids(batch, outcomes)
        },
{
    assert(outcomes.push(w).drop_last() =~= outcomes);
}

/// A failed delivery of `r` sends it to dead letter.
pub open spec fn fails_to_dead_letter(r: TodoEventRecord, max_retries: u32) -> bool {
    r.attempt_count + 1 >= max_retries
}

/// `m` after its current record is done: on to the next record, or to publishing after the last.
pub open spec fn advanced(m: RelayModel) -> RelayModel {
    RelayModel {
        index: m.index + 1,
        phase: if m.index + 1 < m.batch.len() {
            RelayPhase::Checking
        } else {
            RelayPhase::Publishing
        },
        ..m
    }
}

/// `s` with the field named by `which` counted up by one: 1 published, 2 skipped, 3 failed, 4 dead lettered.
pub open spec fn counted(s: ProjectionRunStats, which: int) -> ProjectionRunStats {
    if which == 1 {
        ProjectionRunStats { published: (s.published + 1) as usize, ..s }
    } else if which == 2 {
        ProjectionRunStats { skipped: (s.skipped + 1) as usize, ..s }
    } else if which == 3 {
        ProjectionRunStats { failed: (s.failed + 1) as usize, ..s }
    } else {
        ProjectionRunStats { dead_lettered: (s.dead_lettered + 1) as usize, ..s }
    }
}

/// Whether the run in state `m` takes event `e`; other events leave it as it is.
pub open spec fn accepts(m: RelayModel, e: RelayEventModel) -> bool {
    match e {
        RelayEventModel::InboxChecked { .. } => m.phase is Checking,
        RelayEventModel::Applied { .. } => m.phase is Applying,
        RelayEventModel::InboxRecorded => m.phase is RecordingInbox,
        RelayEventModel::FailureRecorded => m.phase is RecordingFailure,
        RelayEventModel::Published => m.phase is Publishing,
    }
}

/// The run after event `e`.
pub open spec fn relay_next(m: RelayModel, e: RelayEventModel) -> RelayModel {
    if !accepts(m, e) {
        m
    } else {
        match e {
            RelayEventModel::InboxChecked { seen } => if seen {
                advanced(
                    RelayModel {
                        stats: counted(m.stats, 2),
                        published_ids: m.published_ids.push(m.batch[m.index].event_id@),
                        outcomes: m.outcomes.push(2),
                        ..m
                    },
                )
            } else {
                RelayModel { phase: RelayPhase::Applying, ..m }
            },
            RelayEventModel::Applied { error } => match error {
                None => RelayModel { phase: RelayPhase::RecordingInbox, ..m },
                Some(text) => RelayModel {
                    phase: RelayPhase::RecordingFailure,
                    failure_message: text,
                    ..m
                },
            },
            RelayEventModel::InboxRecorded => advanced(
                RelayModel {
                    stats: counted(m.stats, 1),
                    published_ids: m.published_ids.push(m.batch[m.index].event_id@),
                    outcomes: m.outcomes.push(1),
                    ..m
                },
            ),
            RelayEventModel::FailureRecorded => {
                let which = if fails_to_dead_letter(m.batch[m.index], m.max_retries) {
                    4int
                } else {
                    3int
                };
                advanced(RelayModel { stats: counted(m.stats, which), outcomes: m.outcomes.push(which), ..m })
            },
            RelayEventModel::Published => RelayModel { phase: RelayPhase::Finished, ..m },
        }
    }
}

/// The counters and the phase agree with how far the run got.
pub open spec fn relay_wf(m: RelayModel) -> bool {
    &&& m.batch.len() <= usize::MAX
    &&& 0 <= m.index <= m.batch.len()
    &&& (m.phase is Publishing || m.phase is Finished) <==> m.index == m.batch.len()
    &&& m.stats.fetched == m.batch.len()
    &&& m.stats.published + m.stats.skipped + m.stats.failed + m.stats.dead_lettered == m.index
    &&& m.published_ids.len() == m.stats.published + m.stats.skipped
    &&& m.outcomes.len() == m.index
    &&& forall|i: int| 0 <= i < m.outcomes.len() ==> 1 <= #[trigger] m.outcomes[i] <= 4
    &&& m.stats.published == count_of(m.outcomes, 1)
    &&& m.stats.skipped == count_of(m.outcomes, 2)
    &&& m.stats.failed == count_of(m.outcomes, 3)
    &&& m.stats.dead_lettered == count_of(m.outcomes, 4)
    &&& m.published_ids == delivered_ids(m.batch, m.outcomes)
}

/// How much work is left at most: four steps per record still to do, plus publishing.
pub open spec fn remaining_work(m: RelayModel) -> int {
    (m.batch.len() - m.index) * 4 + match m.phase {
        RelayPhase::Checking => 3int,
        RelayPhase::Applying => 2int,
        RelayPhase::RecordingInbox => 1int,
        RelayPhase::RecordingFailure => 1int,
        RelayPhase::Publishing => 1int,
        RelayPhase::Finished => 0int,
    }
}

/// Every event the run takes brings it closer to its end, and a finished run
/// has sorted each fetched record into exactly one of the four outcomes, has
/// counted each outcome, and asks to mark delivered exactly the published and
/// skipped records, in batch order.
pub proof fn lemma_relay_progress(m: RelayModel, e: RelayEventModel)
    requires
        relay_wf(m),
    ensures
        relay_wf(relay_next(m, e)),
        accepts(m, e) ==> 0 <= remaining_work(relay_next(m, e)) < remaining_work(m),
        !accepts(m, e) ==> relay_next(m, e) == m,
        m.phase is Finished ==> {
            &&& m.outcomes.len() == m.stats.fetched
            &&& m.stats.published + m.stats.skipped + m.stats.failed + m.stats.dead_lettered
                == m.stats.fetched
            &&& m.stats.published == count_of(m.outcomes, 1)
            &&& m.stats.skipped == count_of(m.outcomes, 2)
            &&& m.stats.failed == count_of(m.outcomes, 3)
            &&& m.stats.dead_lettered == count_of(m.outcomes, 4)
            &&& m.published_ids == delivered_ids(m.batch, m.outcomes)
        },
{
    if accepts(m, e) {
        match e {
            RelayEventModel::InboxChecked { seen } => {
                if seen {
                    lemma_push_outcome(m.batch, m.outcomes, 2);
                }
            },
            RelayEventModel::InboxRecorded => {
                lemma_push_outcome(m.batch, m.outcomes, 1);
            },
            RelayEventModel::FailureRecorded => {
                lemma_push_outcome(m.batch, m.outcomes, 3);
                lemma_push_outcome(m.batch, m.outcomes, 4);
            },
            _ => {},
        }
    }
}

/// The fields of a run.
struct RunState {
    batch: Vec<TodoEventRecord>,
    max_retries: u32,
    index: usize,
    phase: RelayPhase,
    stats: ProjectionRunStats,
    published_ids: Vec<String>,
    failure_message: String,
    outcomes: Ghost<Seq<int>>,
}

impl RunState {
    spec fn model(&self) -> RelayModel {
        RelayModel {
            batch: self.batch@,
            max_retries: self.max_retries,
            index: self.index as int,
            phase: self.phase,
            stats: self.stats,
            published_ids: self.published_ids@.map_values(|s: String| s@),
            failure_message: self.failure_message@,
            outcomes: self.outcomes@,
        }
    }

    /// A run over nothing, already publishing.
    fn idle() -> (r: Self)
        ensures
            relay_wf(r.model()),
    {
        let r = RunState {
            batch: Vec::new(),
            max_retries: 0,
            index: 0,
            phase: RelayPhase::Publishing,
            stats: ProjectionRunStats { fetched: 0, published: 0, skipped: 0, failed: 0, dead_lettered: 0 },
            published_ids: Vec::new(),
            failure_message: String::new(),
            outcomes: Ghost(Seq::empty()),
        };
        proof {
            assert(r.model().published_ids =~= Seq::<Seq<char>>::empty());
        }
        r
    }

    /// Counts the current record under `which` (see `counted`), remembers
    /// `id` among the records to mark delivered, and moves on.
    fn finish_record(&mut self, which: u8, id: Option<String>)
        requires
            relay_wf(old(self).model()),
            1 <= which <= 4,
            !(old(self).model().phase is Publishing) && !(old(self).model().phase is Finished),
            which <= 2 <==> id is Some,
            id matches Some(s) ==> s@ == old(self).model().batch[old(self).model().index].event_id@,
        ensures
            final(self).model() == advanced(
                RelayModel {
                    stats: counted(old(self).model().stats, which as int),
                    published_ids: match id {
                        Some(s) => old(self).model().published_ids.push(s@),
                        None => old(self).model().published_ids,
                    },
                    outcomes: old(self).model().outcomes.push(which as int),
                    ..old(self).model()
                },
            ),
    {
        let ghost old_ids = self.published_ids@;
        self.outcomes = Ghost(self.outcomes@.push(which as int));
        if which == 1 {
            self.stats.published = self.stats.published + 1;
        } else if which == 2 {
            self.stats.skipped = self.stats.skipped + 1;
        } else if which == 3 {
            self.stats.failed = self.stats.failed + 1;
        } else {
            self.stats.dead_lettered = self.stats.dead_lettered + 1;
        }
        match id {
            Some(s) => {
                self.published_ids.push(s);
            },
            None => {},
        }
        self.index = self.index + 1;
        self.phase = if self.index < self.batch.len() {
            RelayPhase::Checking
        } else {
            RelayPhase::Publishing
        };
        proof {
            assert(self.published_ids@.map_values(|s: String| s@) =~= match id {
                Some(s) => old_ids.map_values(|s: String| s@).push(s@),
                None => old_ids.map_values(|s: String| s@),
            });
        }
    }
}

/// One run of the relay over a batch of records.
pub struct OutboxRelayRun {
    st: RunState,
}

impl View for OutboxRelayRun {
    type V = RelayModel;

    closed spec fn view(&self) -> RelayModel {
        self.st.model()
    }
}

impl OutboxRelayRun {
    #[verifier::type_invariant]
    spec fn inv(&self) -> bool {
        relay_wf(self.st.model())
    }

    /// A run over the first `limit` of the `pending` records (all of them when
    /// there are fewer), whose failed deliveries go to dead letter after
    /// `max_retries` attempts.
    pub fn start(pending: Vec<TodoEventRecord>, limit: usize, max_retries: u32) -> (r: Self)
        ensures
            r@.batch == pending@.subrange(
                0,
                if pending@.len() <= limit {
                    pending@.len() as int
                } else {
                    limit as int
                },
            ),
            r@.max_retries == max_retries,
            r@.index == 0,
            r@.phase == if r@.batch.len() > 0 {
                RelayPhase::Checking
            } else {
                RelayPhase::Publishing
            },
            r@.stats == (ProjectionRunStats {
                fetched: r@.batch.len() as usize,
                published: 0,
                skipped: 0,
                failed: 0,
                dead_lettered: 0,
            }),
            r@.published_ids == Seq::<Seq<char>>::empty(),
            r@.outcomes == Seq::<int>::empty(),
    {
        let mut batch = pending;
        if batch.len() > limit {
            batch.truncate(limit);
        }
        let n = batch.len();
        let ids: Vec<String> = Vec::new();
        proof {
            assert(ids@.map_values(|s: String| s@) =~= Seq::<Seq<char>>::empty());
            assert(batch@ =~= pending@.subrange(
                0,
                if pending@.len() <= limit {
                    pending@.len() as int
                } else {
                    limit as int
                },
            ));
        }
        OutboxRelayRun {
            st: RunState {
                batch,
                max_retries,
                index: 0,
                phase: if n > 0 {
                    RelayPhase::Checking
                } else {
                    RelayPhase::Publishing
                },
                stats: ProjectionRunStats { fetched: n, published: 0, skipped: 0, failed: 0, dead_lettered: 0 },
                published_ids: ids,
                failure_message: String::new(),
                outcomes: Ghost(Seq::empty()),
            },
        }
    }

    /// What the driver is asked to do next.
    pub fn action(&self) -> (a: RelayAction)
        ensures
            match self@.phase {
                RelayPhase::Checking => a matches RelayAction::CheckInbox { event_id } && event_id@
                    == self@.batch[self@.index].event_id@,
                RelayPhase::Applying => a matches RelayAction::Apply { record } && record
                    == self@.batch[self@.index],
                RelayPhase::RecordingInbox => a matches RelayAction::RecordInbox { event_id }
                    && event_id@ == self@.batch[self@.index].event_id@,
                RelayPhase::RecordingFailure => a matches RelayAction::RecordFailure {
                    event_id,
                    error_message,
                    max_retries,
                } && event_id@ == self@.batch[self@.index].event_id@ && error_message@
                    == self@.failure_message && max_retries == self@.max_retries,
                RelayPhase::Publishing => a matches RelayAction::MarkPublished { event_ids }
                    && event_ids@.map_values(|s: String| s@) == self@.published_ids,
                RelayPhase::Finished => a matches RelayAction::Finished { stats } && stats
                    == self@.stats,
            },
    {
        proof {
            use_type_invariant(self);
        }
        let st = &self.st;
        match st.phase {
            RelayPhase::Checking => RelayAction::CheckInbox {
                event_id: st.batch[st.index].event_id.clone(),
            },
            RelayPhase::Applying => RelayAction::Apply { record: st.batch[st.index].clone() },
            RelayPhase::RecordingInbox => RelayAction::RecordInbox {
                event_id: st.batch[st.index].event_id.clone(),
            },
            RelayPhase::RecordingFailure => RelayAction::RecordFailure {
                event_id: st.batch[st.index].event_id.clone(),
                error_message: st.failure_message.clone(),
                max_retries: st.max_retries,
            },
            RelayPhase::Publishing => {
                let mut ids: Vec<String> = Vec::new();
                let mut i: usize = 0;
                while i < st.published_ids.len()
                    invariant
                        i <= st.published_ids@.len(),
                        ids@ == st.published_ids@.subrange(0, i as int),
                    decreases st.published_ids@.len() - i,
                {
                    ids.push(st.published_ids[i].clone());
                    i = i + 1;
                    proof {
                        assert(ids@ =~= st.published_ids@.subrange(0, i as int));
                    }
                }
                proof {
                    assert(ids@ =~= st.published_ids@);
                }
                RelayAction::MarkPublished { event_ids: ids }
            },
            RelayPhase::Finished => RelayAction::Finished { stats: st.stats },
        }
    }

    /// Takes what came of the last action; an event that does not answer
    /// the action asked for leaves the run as it is.
    pub fn step(&mut self, event: RelayEvent)
        ensures
            final(self)@ == relay_next(old(self)@, event@),
    {
        proof {
            use_type_invariant(&*self);
            lemma_relay_progress(self@, event@);
        }
        let ghost m = self@;
        let mut st = RunState::idle();
        std::mem::swap(&mut self.st, &mut st);
        match event {
            RelayEvent::InboxChecked { seen } => {
                if st.phase == RelayPhase::Checking {
                    if seen {
                        let id = st.batch[st.index].event_id.clone();
                        st.finish_record(2, Some(id));
                    } else {
                        st.phase = RelayPhase::Applying;
                    }
                }
            },
            RelayEvent::Applied { outcome } => {
                if st.phase == RelayPhase::Applying {
                    match outcome {
                        Ok(()) => {
                            st.phase = RelayPhase::RecordingInbox;
                        },
                        Err(e) => {
                            st.failure_message = e.to_string();
                            st.phase = RelayPhase::RecordingFailure;
                        },
                    }
                }
            },
            RelayEvent::InboxRecorded => {
                if st.phase == RelayPhase::RecordingInbox {
                    let id = st.batch[st.index].event_id.clone();
                    st.finish_record(1, Some(id));
                }
            },
            RelayEvent::FailureRecorded => {
                if st.phase == RelayPhase::RecordingFailure {
                    let attempts: u64 = st.batch[st.index].attempt_count as u64 + 1;
                    if attempts >= st.max_retries as u64 {
                        st.finish_record(4, None);
                    } else {
                        st.finish_record(3, None);
                    }
                }
            },
            RelayEvent::Published => {
                if st.phase == RelayPhase::Publishing {
                    st.phase = RelayPhase::Finished;
                }
            },
        }
        proof {
            assert(st.model().published_ids =~= relay_next(m, event@).published_ids);
            assert(st.model() == relay_next(m, event@));
        }
        self.st = st;
    }
}

/// How a drain of the outbox stands: the counters so far, the batches run,
/// and whether the last batch came back empty.
#[derive(Debug, Clone, Copy)]
pub struct DrainProgress {
    pub total: ProjectionRunStats,
    pub batches_run: usize,
    pub max_batches: usize,
    pub exhausted: bool,
}

impl DrainProgress {
    /// A drain that will run at most `max_batches` batches.
    pub fn new(max_batches: usize) -> (d: Self)
        ensures
            d.total == (ProjectionRunStats { fetched: 0, published: 0, skipped: 0, failed: 0, dead_lettered: 0 }),
            d.batches_run == 0,
            d.max_batches == max_batches,
            !d.exhausted,
    {
        DrainProgress {
            total: ProjectionRunStats { fetched: 0, published: 0, skipped: 0, failed: 0, dead_lettered: 0 },
            batches_run: 0,
            max_batches,
            exhausted: false,
        }
    }

    /// Whether another batch is to be run: the limit is not reached and the
    /// last batch fetched something.
    pub fn wants_batch(&self) -> (b: bool)
        ensures
            b == (self.batches_run < self.max_batches && !self.exhausted),
    {
        self.batches_run < self.max_batches && !self.exhausted
    }

    /// Adds the counters of a batch just run; an empty batch ends the drain.
    pub fn record_batch(&mut self, batch: ProjectionRunStats)
        requires
            old(self).batches_run < old(self).max_batches,
            crate::projection::can_merge(old(self).total, batch),
        ensures
            crate::projection::merged(old(self).total, batch) == (
                final(self).total.fetched as int,
                final(self).total.published as int,
                final(self).total.skipped as int,
                final(self).total.failed as int,
                final(self).total.dead_lettered as int,
            ),
            final(self).total.fetched == old(self).total.fetched + batch.fetched,
            final(self).total.published == old(self).total.published + batch.published,
            final(self).total.skipped == old(self).total.skipped + batch.skipped,
            final(self).total.failed == old(self).total.failed + batch.failed,
            final(self).total.dead_lettered == old(self).total.dead_lettered + batch.dead_lettered,
            final(self).batches_run == old(self).batches_run + 1,
            final(self).max_batches == old(self).max_batches,
            final(self).exhausted == (batch.fetched == 0),
    {
        let empty = batch.is_empty();
        self.total.merge(batch);
        self.batches_run = self.batches_run + 1;
        self.exhausted = empty;
    }
}

} // verus!
