//! The outbox: event records waiting to be delivered, their delivery states
//! and failure counts, and the inbox of event identifiers already handled.

use vstd::prelude::*;
use crate::errors::AppError;
use crate::events::TodoEvent;
use crate::model::DomainEvent;
use crate::text::{decimal, push_decimal};

verus! {

/// Where a record stands in delivery.
#[derive(Debug, Clone, Copy, PartialEq, Eq, Structural)]
pub enum EventStatus {
    Pending,
    Failed,
    Published,
    DeadLetter,
}

/// Records in these states are still to be delivered.
pub open spec fn is_deliverable(status: EventStatus) -> bool {
    status is Pending || status is Failed
}

/// The identifier of the event that put todo `aggregate_id` at `version`,
/// such as `todo-1:2:todo.completed`.
pub open spec fn event_id_of(aggregate_id: Seq<char>, version: u64, name: Seq<char>) -> Seq<char> {
    aggregate_id + ":"@ + decimal(version as nat) + ":"@ + name
}

/// A domain event as stored in the outbox, with its delivery state.
#[derive(Debug, PartialEq, Eq)]
pub struct TodoEventRecord {
    pub event_id: String,
    pub uow_id: String,
    pub event_order: u64,
    pub aggregate_id: String,
    pub aggregate_version: u64,
    pub payload: TodoEvent,
    pub attempt_count: u32,
    pub last_error: Option<String>,
    pub status: EventStatus,
}

/// `r` is the record of `payload` made fresh in unit of work `uow_id` as its `event_order`-th event.
pub open spec fn is_fresh_record(r: TodoEventRecord, payload: TodoEvent, uow_id: Seq<char>, event_order: u64) -> bool {
    &&& r.event_id@ == event_id_of(payload.todo_id_view(), payload.version_view(), payload.name_view())
    &&& r.uow_id@ == uow_id
    &&& r.event_order == event_order
    &&& r.aggregate_id@ == payload.todo_id_view()
    &&& r.aggregate_version == payload.version_view()
    &&& r.payload == payload
    &&& r.attempt_count == 0
    &&& r.last_error is None
    &&& r.status is Pending
}

/// `r` after a successful delivery.
pub open spec fn published_record(r: TodoEventRecord) -> TodoEventRecord {
    TodoEventRecord { status: EventStatus::Published, last_error: None, ..r }
}

/// The state a failed delivery leads to: dead letter once the attempts reach
/// `max_retries`, failed (and so retried) before that.
pub open spec fn status_after_failure(attempts: u32, max_retries: u32) -> EventStatus {
    if attempts >= max_retries {
        EventStatus::DeadLetter
    } else {
        EventStatus::Failed
    }
}

/// The state a failed delivery leads to after `attempts` attempts.
pub fn failure_status(attempts: u32, max_retries: u32) -> (s: EventStatus)
    ensures
        s == status_after_failure(attempts, max_retries),
{
    if attempts >= max_retries {
        EventStatus::DeadLetter
    } else {
        EventStatus::Failed
    }
}

/// The view of an optional string.
pub open spec fn opt_view(o: Option<String>) -> Option<Seq<char>> {
    match o {
        Some(s) => Some(s@),
        None => None,
    }
}

/// `n` is `r` after one more failed delivery that failed with `message`.
pub open spec fn is_failed_record(n: TodoEventRecord, r: TodoEventRecord, message: Seq<char>, max_retries: u32) -> bool {
    &&& n.attempt_count == r.attempt_count + 1
    &&& opt_view(n.last_error) == Some(message)
    &&& n.status == status_after_failure(n.attempt_count, max_retries)
    &&& n.event_id == r.event_id
    &&& n.uow_id == r.uow_id
    &&& n.event_order == r.event_order
    &&& n.aggregate_id == r.aggregate_id
    &&& n.aggregate_version == r.aggregate_version
    &&& n.payload == r.payload
}

fn clone_opt_string(o: &Option<String>) -> (r: Option<String>)
    ensures
        r == *o,
{
    match o {
        Some(s) => Some(s.clone()),
        None => None,
    }
}

impl TodoEventRecord {
    /// A pending, never attempted record of `payload`, the `event_order`-th
    /// event of unit of work `uow_id`. Its identifier joins the todo's
    /// identifier, the version and the event name with colons.
    pub fn new(payload: TodoEvent, uow_id: String, event_order: u64) -> (r: Self)
        ensures
            is_fresh_record(r, payload, uow_id@, event_order),
    {
        let aggregate_id = payload.entity_id();
        let aggregate_version = payload.version();
        let mut event_id = aggregate_id.clone();
        event_id.append(":");
        push_decimal(&mut event_id, aggregate_version);
        event_id.append(":");
        event_id.append(payload.event_name());
        TodoEventRecord {
            event_id,
            uow_id,
            event_order,
            aggregate_id,
            aggregate_version,
            payload,
            attempt_count: 0,
            last_error: None,
            status: EventStatus::Pending,
        }
    }

    /// Whether the record is still to be delivered.
    pub fn is_deliverable(&self) -> (b: bool)
        ensures
            b == is_deliverable(self.status),
    {
        match self.status {
            EventStatus::Pending | EventStatus::Failed => true,
            _ => false,
        }
    }

    /// Marks the record delivered, clearing its last error.
    pub fn mark_published(&mut self)
        ensures
            *final(self) == published_record(*old(self)),
    {
        self.status = EventStatus::Published;
        self.last_error = None;
    }

    /// Counts one more failed delivery, remembers its error, and moves the
    /// record to dead letter once the attempts reach `max_retries`.
    pub fn record_failure(&mut self, error_message: &str, max_retries: u32)
        requires
            old(self).attempt_count < u32::MAX,
        ensures
            is_failed_record(*final(self), *old(self), error_message@, max_retries),
    {
        self.attempt_count = self.attempt_count + 1;
        self.last_error = Some(error_message.to_owned());
        self.status = failure_status(self.attempt_count, max_retries);
    }
}

impl Clone for TodoEventRecord {
    fn clone(&self) -> (r: Self)
        ensures
            r == *self,
    {
        TodoEventRecord {
            event_id: self.event_id.clone(),
            uow_id: self.uow_id.clone(),
            event_order: self.event_order,
            aggregate_id: self.aggregate_id.clone(),
            aggregate_version: self.aggregate_version,
            payload: self.payload.clone(),
            attempt_count: self.attempt_count,
            last_error: clone_opt_string(&self.last_error),
            status: self.status,
        }
    }
}

/// The records still to be delivered, in the order they were stored.
pub open spec fn deliverable_records(s: Seq<TodoEventRecord>) -> Seq<TodoEventRecord> {
    s.filter(|r: TodoEventRecord| is_deliverable(r.status))
}

/// Some string of `ids` is `id`.
pub open spec fn ids_contain(ids: Seq<String>, id: Seq<char>) -> bool {
    exists|j: int| 0 <= j < ids.len() && (#[trigger] ids[j])@ == id
}

/// Some record of `s` has identifier `id`.
pub open spec fn has_record(s: Seq<TodoEventRecord>, id: Seq<char>) -> bool {
    exists|j: int| 0 <= j < s.len() && (#[trigger] s[j]).event_id@ == id
}

/// The message of the error returned for a failure of an unknown record.
pub open spec fn unknown_record_message(id: Seq<char>) -> Seq<char> {
    "outbox record "@ + id + " does not exist"@
}

/// Whether some string of `ids` equals `id`.
pub fn contains_id(ids: &[String], id: &String) -> (b: bool)
    ensures
        b == ids_contain(ids@, id@),
{
    let mut j: usize = 0;
    while j < ids.len()
        invariant
            j <= ids@.len(),
            forall|k: int| 0 <= k < j ==> (#[trigger] ids@[k])@ != id@,
        decreases ids@.len() - j,
    {
        if ids[j] == *id {
            return true;
        }
        j = j + 1;
    }
    false
}

/// An outbox kept in memory: every record ever appended, in order.
pub struct InMemoryTodoEventOutbox {
    records: Vec<TodoEventRecord>,
}

impl View for InMemoryTodoEventOutbox {
    type V = Seq<TodoEventRecord>;

    closed spec fn view(&self) -> Seq<TodoEventRecord> {
        self.records@
    }
}

impl Default for InMemoryTodoEventOutbox {
    fn default() -> (o: Self)
        ensures
            o@ == Seq::<TodoEventRecord>::empty(),
    {
        InMemoryTodoEventOutbox { records: Vec::new() }
    }
}

impl InMemoryTodoEventOutbox {
    /// Every record, delivered or not, in the order they were appended.
    pub fn records(&self) -> (r: Result<Vec<TodoEventRecord>, AppError>)
        ensures
            r matches Ok(v) && v@ == self@,
    {
        let mut out: Vec<TodoEventRecord> = Vec::new();
        let mut i: usize = 0;
        while i < self.records.len()
            invariant
                i <= self.records@.len(),
                out@ == self.records@.subrange(0, i as int),
            decreases self.records@.len() - i,
        {
            out.push(self.records[i].clone());
            i = i + 1;
            proof {
                assert(out@ =~= self.records@.subrange(0, i as int));
            }
        }
        proof {
            assert(out@ =~= self.records@);
        }
        Ok(out)
    }

    /// Appends `records` after the stored ones.
    pub fn append(&mut self, records: &[TodoEventRecord])
        ensures
            final(self)@ == old(self)@ + records@,
    {
        let mut i: usize = 0;
        while i < records.len()
            invariant
                i <= records@.len(),
                self@ == old(self)@ + records@.subrange(0, i as int),
            decreases records@.len() - i,
        {
            self.records.push(records[i].clone());
            i = i + 1;
            proof {
                assert(self@ =~= old(self)@ + records@.subrange(0, i as int));
            }
        }
        proof {
            assert(records@.subrange(0, records@.len() as int) =~= records@);
        }
    }

    /// The records still to be delivered (pending or failed), in the order they were appended.
    pub fn pending(&self) -> (r: Vec<TodoEventRecord>)
        ensures
            r@ == deliverable_records(self@),
    {
        let mut out: Vec<TodoEventRecord> = Vec::new();
        let mut i: usize = 0;
        while i < self.records.len()
            invariant
                i <= self.records@.len(),
                out@ == deliverable_records(self.records@.subrange(0, i as int)),
            decreases self.records@.len() - i,
        {
            let ghost before = self.records@.subrange(0, i as int);
            let r = &self.records[i];
            if r.is_deliverable() {
                out.push(r.clone());
            }
            proof {
                assert(self.records@.subrange(0, i + 1) =~= before.push(*r));
                before.lemma_filter_push(*r, |r: TodoEventRecord| is_deliverable(r.status));
            }
            i = i + 1;
        }
        proof {
            assert(self.records@.subrange(0, self.records@.len() as int) =~= self.records@);
        }
        out
    }

    /// Marks delivered every record whose identifier is in `event_ids`.
    pub fn mark_published(&mut self, event_ids: &[String])
        ensures
            final(self)@.len() == old(self)@.len(),
            forall|i: int| 0 <= i < old(self)@.len() ==> #[trigger] final(self)@[i] == if ids_contain(
                event_ids@,
                old(self)@[i].event_id@,
            ) {
                published_record(old(self)@[i])
            } else {
                old(self)@[i]
            },
    {
        let mut i: usize = 0;
        while i < self.records.len()
            invariant
                i <= self.records@.len(),
                self.records@.len() == old(self)@.len(),
                forall|k: int| 0 <= k < i ==> #[trigger] self.records@[k] == if ids_contain(
                    event_ids@,
                    old(self)@[k].event_id@,
                ) {
                    published_record(old(self)@[k])
                } else {
                    old(self)@[k]
                },
                forall|k: int| i <= k < self.records@.len() ==> #[trigger] self.records@[k] == old(
                    self,
                )@[k],
            decreases self.records@.len() - i,
        {
            if contains_id(event_ids, &self.records[i].event_id) {
                let mut r = self.records[i].clone();
                r.mark_published();
                self.records.set(i, r);
            }
            i = i + 1;
        }
    }

    /// Counts a failed delivery of the records with identifier `event_id`;
    /// refused with a persistence error when there is none.
    pub fn record_failure(&mut self, event_id: &str, error_message: &str, max_retries: u32) -> (r: Result<(), AppError>)
        requires
            forall|i: int| 0 <= i < old(self)@.len() && (#[trigger] old(self)@[i]).event_id@ == event_id@
                ==> old(self)@[i].attempt_count < u32::MAX,
        ensures
            r is Ok <==> has_record(old(self)@, event_id@),
            r matches Err(e) ==> e is Persistence && e.message_view() == unknown_record_message(event_id@)
                && final(self)@ == old(self)@,
            final(self)@.len() == old(self)@.len(),
            forall|i: int| 0 <= i < old(self)@.len() ==> if (#[trigger] old(self)@[i]).event_id@ == event_id@ {
                is_failed_record(final(self)@[i], old(self)@[i], error_message@, max_retries)
            } else {
                final(self)@[i] == old(self)@[i]
            },
    {
        let id = event_id.to_owned();
        let mut found = false;
        let mut i: usize = 0;
        while i < self.records.len()
            invariant
                i <= self.records@.len(),
                id@ == event_id@,
                self.records@.len() == old(self)@.len(),
                forall|k: int| 0 <= k < old(self)@.len() && (#[trigger] old(self)@[k]).event_id@ == event_id@
                    ==> old(self)@[k].attempt_count < u32::MAX,
                found <==> exists|k: int| 0 <= k < i && (#[trigger] old(self)@[k]).event_id@ == event_id@,
                forall|k: int| 0 <= k < i ==> if (#[trigger] old(self)@[k]).event_id@ == event_id@ {
                    is_failed_record(self.records@[k], old(self)@[k], error_message@, max_retries)
                } else {
                    self.records@[k] == old(self)@[k]
                },
                forall|k: int| i <= k < self.records@.len() ==> #[trigger] self.records@[k] == old(
                    self,
                )@[k],
            decreases self.records@.len() - i,
        {
            if self.records[i].event_id == id {
                let mut r = self.records[i].clone();
                r.record_failure(error_message, max_retries);
                self.records.set(i, r);
                found = true;
            }
            i = i + 1;
        }
        if found {
            Ok(())
        } else {
            proof {
                assert(self.records@ =~= old(self)@);
            }
            let message = String::from_str("outbox record ").concat(event_id).concat(" does not exist");
            Err(AppError::Persistence { message })
        }
    }
}

/// An inbox kept in memory: the identifiers of the events already handled.
pub struct InMemoryTodoEventInbox {
    processed: Vec<String>,
}

impl View for InMemoryTodoEventInbox {
    type V = Set<Seq<char>>;

    closed spec fn view(&self) -> Set<Seq<char>> {
        Set::new(|id: Seq<char>| ids_contain(self.processed@, id))
    }
}

impl Default for InMemoryTodoEventInbox {
    fn default() -> (i: Self)
        ensures
            i@ == Set::<Seq<char>>::empty(),
    {
        let i = InMemoryTodoEventInbox { processed: Vec::new() };
        proof {
            assert(i@ =~= Set::<Seq<char>>::empty());
        }
        i
    }
}

impl InMemoryTodoEventInbox {
    /// Whether the event `event_id` was handled.
    pub fn contains(&self, event_id: &str) -> (b: bool)
        ensures
            b == self@.contains(event_id@),
    {
        contains_id(self.processed.as_slice(), &event_id.to_owned())
    }

    /// Remembers that the event `event_id` was handled.
    pub fn record(&mut self, event_id: &str)
        ensures
            final(self)@ == old(self)@.insert(event_id@),
    {
        let id = event_id.to_owned();
        if !contains_id(self.processed.as_slice(), &id) {
            self.processed.push(id);
            proof {
                assert forall|x: Seq<char>| ids_contain(self.processed@, x) <==> ids_contain(old(self).processed@, x)
                    || x == event_id@ by {
                    if ids_contain(old(self).processed@, x) {
                        let j = choose|j: int| 0 <= j < old(self).processed@.len() && (#[trigger] old(self).processed@[j])@ == x;
                        assert(self.processed@[j] == old(self).processed@[j]);
                    }
                    if ids_contain(self.processed@, x) && x != event_id@ {
                        let j = choose|j: int| 0 <= j < self.processed@.len() && (#[trigger] self.processed@[j])@ == x;
                        assert(old(self).processed@[j] == self.processed@[j]);
                    }
                    if x == event_id@ {
                        assert(self.processed@[self.processed@.len() - 1]@ == x);
                    }
                }
            }
        }
        proof {
            assert(final(self)@ =~= old(self)@.insert(event_id@));
        }
    }
}

/// The stored form of a delivery state.
pub open spec fn status_text(s: EventStatus) -> Seq<char> {
    match s {
        EventStatus::Pending => "pending"@,
        EventStatus::Failed => "failed"@,
        EventStatus::Published => "published"@,
        EventStatus::DeadLetter => "dead_letter"@,
    }
}

/// The message of the error returned for a stored state that names no delivery state.
pub open spec fn unknown_status_message(text: Seq<char>) -> Seq<char> {
    "unknown outbox status "@ + text
}

/// The stored form of a delivery state, such as `dead_letter`.
pub fn status_to_string(status: EventStatus) -> (s: String)
    ensures
        s@ == status_text(status),
{
    match status {
        EventStatus::Pending => String::from_str("pending"),
        EventStatus::Failed => String::from_str("failed"),
        EventStatus::Published => String::from_str("published"),
        EventStatus::DeadLetter => String::from_str("dead_letter"),
    }
}

/// The delivery state stored as `text`, or a persistence error naming it.
pub fn status_from_str(text: &str) -> (r: Result<EventStatus, AppError>)
    ensures
        match r {
            Ok(s) => status_text(s) == text@,
            Err(e) => (forall|s: EventStatus| status_text(s) != text@) && e is Persistence
                && e.message_view() == unknown_status_message(text@),
        },
{
    let t = text.to_owned();
    if t == String::from_str("pending") {
        Ok(EventStatus::Pending)
    } else if t == String::from_str("failed") {
        Ok(EventStatus::Failed)
    } else if t == String::from_str("published") {
        Ok(EventStatus::Published)
    } else if t == String::from_str("dead_letter") {
        Ok(EventStatus::DeadLetter)
    } else {
        proof {
            assert forall|s: EventStatus| status_text(s) != text@ by {
                match s {
                    EventStatus::Pending => {},
                    EventStatus::Failed => {},
                    EventStatus::Published => {},
                    EventStatus::DeadLetter => {},
                }
            }
        }
        Err(AppError::Persistence { message: String::from_str("unknown outbox status ").concat(text) })
    }
}

/// Reading back the stored form of a delivery state gives the state.
pub proof fn lemma_status_text_round_trip(s: EventStatus, t: EventStatus)
    ensures
        status_text(s) == status_text(t) ==> s == t,
{
    reveal_strlit("pending");
    reveal_strlit("failed");
    reveal_strlit("published");
    reveal_strlit("dead_letter");
    if status_text(s) == status_text(t) {
        match s {
            EventStatus::Pending => {
                assert(status_text(s)[0] == 'p' && status_text(s).len() == 7);
            },
            EventStatus::Failed => {
                assert(status_text(s)[0] == 'f');
            },
            EventStatus::Published => {
                assert(status_text(s)[0] == 'p' && status_text(s).len() == 9);
            },
            EventStatus::DeadLetter => {
                assert(status_text(s)[0] == 'd');
            },
        }
    }
}

} // verus!
