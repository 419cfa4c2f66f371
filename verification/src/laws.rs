//! Properties that span several operations of the library.

use vstd::prelude::*;
use crate::events::{TodoEvent, completed_name, created_name};
use crate::outbox::{
    EventStatus, TodoEventRecord, deliverable_records, event_id_of, is_deliverable, is_fresh_record,
    published_record, status_after_failure,
};
use crate::projection::{Projected, TodoView, applied_from, projected, view_at, views_sound};
use crate::store::stored_todo;
use crate::keyed::chars_lt;
use crate::projection::{ProjectionRunStats, merged};
use crate::relay::{RelayEventModel, RelayModel, relay_next, relay_wf};
use crate::rows::{OutboxRow, read_back, written_from};
use crate::uow::event_ids_of;
use crate::errors::AppError;
use crate::todo::{Todo, TodoModel, completed_from, pulled_from};
use crate::text::{decimal, digit_char};

verus! {

proof fn lemma_decimal_digits(n: nat)
    ensures
        decimal(n).len() >= 1,
        n >= 10 ==> decimal(n).len() >= 2,
        forall|i: int| 0 <= i < decimal(n).len() ==> 48 <= (#[trigger] decimal(n)[i]) as int <= 57,
    decreases n,
{
    if n >= 10 {
        lemma_decimal_digits(n / 10);
        let d = decimal(n);
        assert forall|i: int| 0 <= i < d.len() implies 48 <= (#[trigger] d[i]) as int <= 57 by {
            if i < d.len() - 1 {
                assert(d[i] == decimal(n / 10)[i]);
            } else {
                assert(d[i] == digit_char(n % 10));
            }
        }
    }
}

/// Different numbers have different decimal renderings.
pub proof fn lemma_decimal_injective(n: nat, m: nat)
    ensures
        decimal(n) == decimal(m) ==> n == m,
    decreases n,
{
    lemma_decimal_digits(n);
    lemma_decimal_digits(m);
    if decimal(n) == decimal(m) {
        if n < 10 && m < 10 {
            assert(decimal(n)[0] == digit_char(n));
            assert(decimal(m)[0] == digit_char(m));
        } else if n >= 10 && m >= 10 {
            let a = decimal(n);
            let b = decimal(m);
            assert(a.last() == digit_char(n % 10));
            assert(b.last() == digit_char(m % 10));
            assert(a.drop_last() =~= decimal(n / 10));
            assert(b.drop_last() =~= decimal(m / 10));
            lemma_decimal_injective(n / 10, m / 10);
        }
    }
}

/// Two joined sequences with second parts of the same length are joined
/// from the same parts.
proof fn lemma_split_equal(x1: Seq<char>, y1: Seq<char>, x2: Seq<char>, y2: Seq<char>)
    requires
        x1 + y1 == x2 + y2,
        y1.len() == y2.len(),
    ensures
        x1 == x2,
        y1 == y2,
{
    let s = x1 + y1;
    assert(x1 =~= s.subrange(0, x1.len() as int));
    assert(x2 =~= s.subrange(0, x2.len() as int));
    assert(y1 =~= s.subrange(x1.len() as int, s.len() as int));
    assert(y2 =~= s.subrange(x2.len() as int, s.len() as int));
}

/// An event name a todo records.
pub open spec fn is_event_name(name: Seq<char>) -> bool {
    name == created_name() || name == completed_name()
}

/// Event identifiers tell events apart, across all todos: two identifiers
/// are equal exactly when they join the same todo identifier, version and
/// event name. The name and the version are read back from the right, and
/// neither holds a colon, so the todo identifier may hold any characters.
pub proof fn lemma_event_id_injective(a1: Seq<char>, v1: u64, n1: Seq<char>, a2: Seq<char>, v2: u64, n2: Seq<char>)
    requires
        is_event_name(n1),
        is_event_name(n2),
    ensures
        event_id_of(a1, v1, n1) == event_id_of(a2, v2, n2) <==> (a1 == a2 && v1 == v2 && n1 == n2),
{
    reveal_strlit(":");
    reveal_strlit("todo.created");
    reveal_strlit("todo.completed");
    let colon = ":"@;
    let d1 = decimal(v1 as nat);
    let d2 = decimal(v2 as nat);
    let q1 = a1 + colon + d1;
    let q2 = a2 + colon + d2;
    let p1 = q1 + colon;
    let p2 = q2 + colon;
    if event_id_of(a1, v1, n1) == event_id_of(a2, v2, n2) {
        let s = p1 + n1;
        assert(event_id_of(a1, v1, n1) =~= s);
        assert(event_id_of(a2, v2, n2) =~= p2 + n2);
        if n1 != n2 {
            // The shorter name begins with 't' where the longer one has 'd'.
            let l = s.len() as int;
            if n1 == created_name() {
                assert(s[l - 12] == n1[0]);
                assert((p2 + n2)[l - 12] == n2[2]);
            } else {
                assert(s[l - 12] == n1[2]);
                assert((p2 + n2)[l - 12] == n2[0]);
            }
        }
        lemma_split_equal(p1, n1, p2, n2);
        lemma_split_equal(q1, colon, q2, colon);
        lemma_decimal_digits(v1 as nat);
        lemma_decimal_digits(v2 as nat);
        let m = q1.len() as int;
        if d1.len() < d2.len() {
            let j = m - 1 - d1.len();
            assert(q1[j] == ':');
            assert(q2[j] == d2[d2.len() - 1 - d1.len()]);
        } else if d2.len() < d1.len() {
            let j = m - 1 - d2.len();
            assert(q2[j] == ':');
            assert(q1[j] == d1[d1.len() - 1 - d2.len()]);
        }
        lemma_split_equal(a1 + colon, d1, a2 + colon, d2);
        lemma_split_equal(a1, colon, a2, colon);
        lemma_decimal_injective(v1 as nat, v2 as nat);
    }
}

/// The identifier of a fresh event record names its event: two records
/// made by `TodoEventRecord::new` have the same identifier exactly when they
/// record the same todo, version and event name, whatever their units of
/// work and event orders.
pub proof fn lemma_record_ids_identify_events(
    r1: TodoEventRecord,
    p1: TodoEvent,
    u1: Seq<char>,
    o1: u64,
    r2: TodoEventRecord,
    p2: TodoEvent,
    u2: Seq<char>,
    o2: u64,
)
    requires
        is_fresh_record(r1, p1, u1, o1),
        is_fresh_record(r2, p2, u2, o2),
    ensures
        r1.event_id@ == r2.event_id@ <==> (r1.aggregate_id@ == r2.aggregate_id@ && r1.aggregate_version
            == r2.aggregate_version && p1.name_view() == p2.name_view()),
{
    lemma_event_id_injective(
        p1.todo_id_view(),
        p1.version_view(),
        p1.name_view(),
        p2.todo_id_view(),
        p2.version_view(),
        p2.name_view(),
    );
}

/// A creation and a completion of the same todo at the same version have different identifiers.
pub proof fn lemma_event_names_differ()
    ensures
        created_name() != completed_name(),
{
    reveal_strlit("todo.created");
    reveal_strlit("todo.completed");
    assert(created_name()[6] != completed_name()[6]);
}

/// Delivered records are never handed out for delivery again.
pub proof fn lemma_published_not_deliverable(r: TodoEventRecord)
    ensures
        !is_deliverable(published_record(r).status),
{
}

/// A record that failed as many times as retries are allowed goes to dead
/// letter and is no longer handed out; before that it is retried.
pub proof fn lemma_failures_reach_dead_letter(attempts: u32, max_retries: u32)
    ensures
        attempts >= max_retries ==> status_after_failure(attempts, max_retries) == EventStatus::DeadLetter
            && !is_deliverable(status_after_failure(attempts, max_retries)),
        attempts < max_retries ==> is_deliverable(status_after_failure(attempts, max_retries)),
{
}

/// The read model follows a todo: the view made by its creation event,
/// completed by its completion event at the next version, is the completed
/// todo at version 2 with the same identifier and title.
pub proof fn lemma_projection_follows_lifecycle(created: TodoEvent, view: TodoView, completed: TodoEvent)
    requires
        created is Created,
        created.version_view() == 1,
        projected(None, created) == (Projected::View {
            id: view.id@,
            title: view.title@,
            completed: view.completed,
            version: view.version,
        }),
        completed is Completed,
        completed.todo_id_view() == created.todo_id_view(),
        completed.version_view() == 2,
    ensures
        projected(Some(view), completed) == (Projected::View {
            id: created.todo_id_view(),
            title: view.title@,
            completed: true,
            version: 2,
        }),
{
}

/// Applying an event whose version does not follow the view's is refused,
/// so replaying an already applied completion cannot change the read model.
pub proof fn lemma_projection_refuses_replay(view: TodoView, completed: TodoEvent)
    requires
        completed is Completed,
        completed.version_view() == view.version,
    ensures
        projected(Some(view), completed) is Conflict,
{
}

/// Appending records to the outbox hands them out for delivery after the
/// records already waiting, in the order they were appended; fresh records
/// are all handed out.
pub proof fn lemma_append_then_pending(stored: Seq<TodoEventRecord>, appended: Seq<TodoEventRecord>)
    ensures
        deliverable_records(stored + appended) == deliverable_records(stored) + deliverable_records(appended),
        (forall|i: int| 0 <= i < appended.len() ==> (#[trigger] appended[i]).status is Pending)
            ==> deliverable_records(appended) == appended,
    decreases appended.len(),
{
    let p = |r: TodoEventRecord| is_deliverable(r.status);
    Seq::filter_distributes_over_add(stored, appended, p);
    if forall|i: int| 0 <= i < appended.len() ==> (#[trigger] appended[i]).status is Pending {
        if appended.len() > 0 {
            let init = appended.drop_last();
            assert forall|i: int| 0 <= i < init.len() implies (#[trigger] init[i]).status is Pending by {
                assert(init[i] == appended[i]);
            }
            lemma_append_then_pending(stored, init);
            init.lemma_filter_push(appended.last(), p);
            assert(init.push(appended.last()) =~= appended);
        } else {
            reveal(Seq::filter);
        }
    }
}

/// A fresh record is waiting for delivery.
pub proof fn lemma_fresh_record_pending(r: TodoEventRecord, payload: TodoEvent, uow_id: Seq<char>, order: u64)
    requires
        is_fresh_record(r, payload, uow_id, order),
    ensures
        is_deliverable(r.status),
{
}

/// The todo store gives back what was last persisted: after `persist(todo)`
/// turned the store `before` into `after`, `find_by_id` finds `todo` under
/// its identifier and finds under every other identifier what it found before.
pub proof fn lemma_store_read_after_write(
    before: Map<Seq<char>, Todo>,
    after: Map<Seq<char>, Todo>,
    todo: Todo,
    other: Seq<char>,
)
    requires
        after == before.insert(todo@.id, todo),
    ensures
        stored_todo(after, todo@.id) == Some(todo@),
        other != todo@.id ==> stored_todo(after, other) == stored_todo(before, other),
{
}

/// The read model gives back what an event made of it: after `apply(record)`
/// turned `before` into `after`, `get` of the event's todo gives the view
/// `projected` describes, or what it gave before when the event was
/// refused, and `get` of every other todo gives what it gave before.
pub proof fn lemma_view_read_after_apply(
    before: Map<Seq<char>, TodoView>,
    after: Map<Seq<char>, TodoView>,
    record: TodoEventRecord,
    r: Result<(), AppError>,
    other: Seq<char>,
)
    requires
        applied_from(before, after, record, r),
    ensures
        ({
            let key = record.payload.todo_id_view();
            match projected(view_at(before, key), record.payload) {
                Projected::View { id, title, completed, version } => {
                    &&& r is Ok
                    &&& view_at(after, key) matches Some(v) && v.id@ == id && v.title@ == title
                        && v.completed == completed && v.version == version
                },
                _ => r is Err && view_at(after, key) == view_at(before, key),
            }
        }),
        other != record.payload.todo_id_view() ==> view_at(after, other) == view_at(before, other),
{
    let key = record.payload.todo_id_view();
    if other != key && before.contains_key(other) {
        if projected(view_at(before, key), record.payload) is View {
            assert(after[other] == before[other]);
        }
    }
}

/// Applying events keeps the read model sound: every view stays under its
/// own todo, at version 1 or later, and at version 2 or later once completed.
pub proof fn lemma_projection_stays_sound(
    before: Map<Seq<char>, TodoView>,
    after: Map<Seq<char>, TodoView>,
    record: TodoEventRecord,
    r: Result<(), AppError>,
)
    requires
        views_sound(before),
        applied_from(before, after, record, r),
    ensures
        views_sound(after),
{
    let key = record.payload.todo_id_view();
    if projected(view_at(before, key), record.payload) is View {
        assert forall|k: Seq<char>| #[trigger] after.contains_key(k) implies after[k].id@ == k
            && after[k].version >= 1 && (after[k].completed ==> after[k].version >= 2) by {
            if k != key {
                assert(before.contains_key(k));
                assert(after[k] == before[k]);
            }
        }
    }
}

/// The inbox remembers what it recorded: after `record(id)` turned the
/// handled identifiers `before` into `after`, `contains(id)` holds and
/// `contains` of every other identifier answers as before.
pub proof fn lemma_inbox_read_after_record(before: Set<Seq<char>>, after: Set<Seq<char>>, id: Seq<char>, other: Seq<char>)
    requires
        after == before.insert(id),
    ensures
        after.contains(id),
        other != id ==> after.contains(other) == before.contains(other),
{
}

/// Recording an event a second time changes nothing: the inbox makes
/// handling idempotent.
pub proof fn lemma_inbox_record_idempotent(
    before: Set<Seq<char>>,
    after: Set<Seq<char>>,
    again: Set<Seq<char>>,
    id: Seq<char>,
)
    requires
        after == before.insert(id),
        again == after.insert(id),
    ensures
        again == after,
{
    assert(again =~= after);
}

/// A call made on a todo, with what it returned.
pub enum TodoCall {
    Complete { result: Result<(), AppError> },
    PullEvents,
}

/// `after` is what `call` leaves of a todo in state `before`, as the
/// contracts of `Todo::complete` and `Todo::pull_events` state it.
pub open spec fn call_step(before: TodoModel, after: TodoModel, call: TodoCall) -> bool {
    match call {
        TodoCall::Complete { result } => completed_from(before, after, result),
        TodoCall::PullEvents => pulled_from(before, after),
    }
}

/// How many of `calls` are completions that succeeded.
pub open spec fn successful_completions(calls: Seq<TodoCall>) -> nat
    decreases calls.len(),
{
    if calls.len() == 0 {
        0
    } else {
        successful_completions(calls.drop_last()) + match calls.last() {
            TodoCall::Complete { result } => if result is Ok {
                1nat
            } else {
                0nat
            },
            TodoCall::PullEvents => 0nat,
        }
    }
}

/// The life of a todo: from a new todo (open, at version 1), through any
/// sequence of completions and pulls, the version is one plus the number of
/// completions that succeeded and stays between 1 and 2; the todo is
/// completed exactly when its version is 2, and a completed todo refuses
/// the next completion with a conflict and stays as it is.
pub proof fn lemma_todo_lifecycle(states: Seq<TodoModel>, calls: Seq<TodoCall>)
    requires
        states.len() == calls.len() + 1,
        states[0].version == 1,
        !states[0].completed,
        forall|i: int| 0 <= i < calls.len() ==> call_step(states[i], states[i + 1], #[trigger] calls[i]),
    ensures
        states.last().version == 1 + successful_completions(calls),
        1 <= states.last().version <= 2,
        states.last().completed <==> states.last().version == 2,
        forall|after: TodoModel, r: Result<(), AppError>|
            states.last().completed && #[trigger] completed_from(states.last(), after, r) ==> (r matches Err(
                e,
            ) && e is Conflict && after == states.last()),
    decreases calls.len(),
{
    let n = calls.len() as int;
    if n > 0 {
        let ps = states.drop_last();
        let pc = calls.drop_last();
        assert forall|i: int| 0 <= i < pc.len() implies call_step(ps[i], ps[i + 1], #[trigger] pc[i]) by {
            assert(call_step(states[i], states[i + 1], calls[i]));
        }
        lemma_todo_lifecycle(ps, pc);
        assert(call_step(states[n - 1], states[n], calls[n - 1]));
        assert(ps.last() == states[n - 1]);
    }
}

/// A run counts a failed delivery as the outbox records it: when the
/// failure of the current record is recorded, the run counts it dead
/// lettered exactly when this attempt reaches the run's retry limit (the
/// state `record_failure` gives the record after it), and failed otherwise;
/// no other counter moves.
pub proof fn lemma_relay_failure_counting(m: RelayModel)
    requires
        relay_wf(m),
        m.phase is RecordingFailure,
    ensures
        ({
            let n = relay_next(m, RelayEventModel::FailureRecorded);
            let attempts = m.batch[m.index].attempt_count + 1;
            &&& attempts >= m.max_retries ==> n.stats.dead_lettered == m.stats.dead_lettered + 1
                && n.stats.failed == m.stats.failed
            &&& attempts < m.max_retries ==> n.stats.failed == m.stats.failed + 1 && n.stats.dead_lettered
                == m.stats.dead_lettered
            &&& n.stats.fetched == m.stats.fetched
            &&& n.stats.published == m.stats.published
            &&& n.stats.skipped == m.stats.skipped
            &&& m.batch[m.index].attempt_count < u32::MAX ==> ((n.stats.dead_lettered == m.stats.dead_lettered
                + 1) <==> status_after_failure(attempts as u32, m.max_retries) is DeadLetter)
        }),
{
}

/// Merging run counters adds each counter of the two runs: fetched,
/// published, skipped, failed and dead lettered alike.
pub proof fn lemma_merged_adds_each_counter(a: ProjectionRunStats, b: ProjectionRunStats)
    ensures
        merged(a, b).0 == a.fetched + b.fetched,
        merged(a, b).1 == a.published + b.published,
        merged(a, b).2 == a.skipped + b.skipped,
        merged(a, b).3 == a.failed + b.failed,
        merged(a, b).4 == a.dead_lettered + b.dead_lettered,
{
}

/// The identifiers a completed unit of work reports are those of all its
/// staged records, one for each, in staging order, whatever their events.
pub proof fn lemma_event_ids_in_order(events: Seq<TodoEventRecord>)
    ensures
        event_ids_of(events).len() == events.len(),
        forall|k: int| 0 <= k < events.len() ==> #[trigger] event_ids_of(events)[k] == events[k].event_id@,
{
}

/// Keys are ordered as `str` orders them: a proper prefix comes before the
/// longer key; otherwise the first differing character decides; and a key
/// never comes before one of its prefixes (itself included).
pub proof fn lemma_key_order_is_str_order(a: Seq<char>, b: Seq<char>, i: int)
    ensures
        a.len() < b.len() && a == b.subrange(0, a.len() as int) ==> chars_lt(a, b),
        b.len() <= a.len() && b == a.subrange(0, b.len() as int) ==> !chars_lt(a, b),
        0 <= i < a.len() && i < b.len() && a.subrange(0, i) == b.subrange(0, i) && a[i] != b[i]
            ==> (chars_lt(a, b) <==> (a[i] as int) < (b[i] as int)),
{
    if a.len() < b.len() && a == b.subrange(0, a.len() as int) {
        assert(a.subrange(0, a.len() as int) =~= a);
        crate::keyed::lemma_lt_skip_common(a, b, a.len() as int);
    }
    if b.len() <= a.len() && b == a.subrange(0, b.len() as int) {
        assert(b.subrange(0, b.len() as int) =~= b);
        crate::keyed::lemma_lt_skip_common(a, b, b.len() as int);
    }
    if 0 <= i < a.len() && i < b.len() && a.subrange(0, i) == b.subrange(0, i) && a[i] != b[i] {
        crate::keyed::lemma_lt_skip_common(a, b, i);
        let ra = a.subrange(i, a.len() as int);
        let rb = b.subrange(i, b.len() as int);
        assert(ra[0] == a[i]);
        assert(rb[0] == b[i]);
    }
}

/// A stored outbox row keeps each field of its record in its own column:
/// the event order in the order column, the todo's version in the version
/// column; reading a row back takes each from its own column too.
pub proof fn lemma_row_columns(r: TodoEventRecord, row: OutboxRow, rec: TodoEventRecord)
    ensures
        written_from(row, r) ==> {
            &&& row.event_id == r.event_id
            &&& row.uow_id == r.uow_id
            &&& row.event_order == r.event_order as i64
            &&& row.aggregate_id == r.aggregate_id
            &&& row.aggregate_version == r.aggregate_version as i64
            &&& row.attempt_count == r.attempt_count as i32
            &&& row.last_error == r.last_error
        },
        read_back(rec, row) ==> {
            &&& rec.event_order == row.event_order as u64
            &&& rec.aggregate_version == row.aggregate_version as u64
            &&& rec.payload.version_view() == row.aggregate_version as u64
        },
{
}

/// The row of a fresh record holds the order its unit of work gave it and
/// the version its event put the todo at.
pub proof fn lemma_fresh_record_row(r: TodoEventRecord, payload: TodoEvent, uow_id: Seq<char>, order: u64, row: OutboxRow)
    requires
        is_fresh_record(r, payload, uow_id, order),
        written_from(row, r),
    ensures
        row.event_order == order as i64,
        row.aggregate_version == payload.version_view() as i64,
        row.uow_id@ == uow_id,
{
}

/// How each answer moves a run on: a record the inbox has seen is counted
/// skipped and marked for delivery; a record remembered in the inbox after
/// it applied is counted published and marked for delivery; any other
/// answer leaves the counters and the records to mark as they are. A
/// counted record moves the run to the next one.
pub proof fn lemma_relay_counting(m: RelayModel, e: RelayEventModel)
    requires
        relay_wf(m),
        crate::relay::accepts(m, e),
    ensures
        ({
            let n = relay_next(m, e);
            let id = m.batch[m.index].event_id@;
            match e {
                RelayEventModel::InboxChecked { seen } => if seen {
                    &&& n.stats == (ProjectionRunStats { skipped: (m.stats.skipped + 1) as usize, ..m.stats })
                    &&& n.stats.skipped == m.stats.skipped + 1
                    &&& n.published_ids == m.published_ids.push(id)
                    &&& n.index == m.index + 1
                } else {
                    n.stats == m.stats && n.published_ids == m.published_ids && n.index == m.index
                },
                RelayEventModel::InboxRecorded => {
                    &&& n.stats == (ProjectionRunStats { published: (m.stats.published + 1) as usize, ..m.stats })
                    &&& n.stats.published == m.stats.published + 1
                    &&& n.published_ids == m.published_ids.push(id)
                    &&& n.index == m.index + 1
                },
                RelayEventModel::FailureRecorded => {
                    &&& n.published_ids == m.published_ids
                    &&& n.index == m.index + 1
                    &&& n.stats.fetched == m.stats.fetched
                    &&& n.stats.published == m.stats.published
                    &&& n.stats.skipped == m.stats.skipped
                    &&& n.stats.failed + n.stats.dead_lettered == m.stats.failed + m.stats.dead_lettered + 1
                },
                _ => n.stats == m.stats && n.published_ids == m.published_ids && n.index == m.index,
            }
        }),
{
}

} // verus!
