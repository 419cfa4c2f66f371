use todo::events::TodoEvent;
use todo::outbox::{
    status_from_str, status_to_string, EventStatus, InMemoryTodoEventInbox, InMemoryTodoEventOutbox,
    TodoEventRecord,
};
use todo::projection::{apply_to_view, InMemoryTodoProjectionStore, ProjectionRunStats, TodoView};
use todo::relay::{DrainProgress, OutboxRelayRun, RelayAction, RelayEvent};
use todo::store::InMemoryTodoStore;
use todo::todo::{CreateTodo, Todo, TodoBuilder};
use todo::uow::UnitOfWorkState;
use todo::value_objects::{TodoId, TodoTitle};
use todo::{AppError, Builder};

fn commit(uow: &mut UnitOfWorkState, store: &mut InMemoryTodoStore, outbox: &mut InMemoryTodoEventOutbox) {
    let (todos, records) = uow.take_staged();
    for t in todos {
        store.persist(t);
    }
    outbox.append(&records);
}

fn flush_batch(
    outbox: &mut InMemoryTodoEventOutbox,
    inbox: &mut InMemoryTodoEventInbox,
    store: &mut InMemoryTodoProjectionStore,
    limit: usize,
    max_retries: u32,
) -> ProjectionRunStats {
    let mut run = OutboxRelayRun::start(outbox.pending(), limit, max_retries);
    loop {
        match run.action() {
            RelayAction::CheckInbox { event_id } => {
                let seen = inbox.contains(&event_id);
                run.step(RelayEvent::InboxChecked { seen });
            }
            RelayAction::Apply { record } => {
                let outcome = store.apply(&record);
                run.step(RelayEvent::Applied { outcome });
            }
            RelayAction::RecordInbox { event_id } => {
                inbox.record(&event_id);
                run.step(RelayEvent::InboxRecorded);
            }
            RelayAction::RecordFailure { event_id, error_message, max_retries } => {
                outbox.record_failure(&event_id, &error_message, max_retries).unwrap();
                run.step(RelayEvent::FailureRecorded);
            }
            RelayAction::MarkPublished { event_ids } => {
                outbox.mark_published(&event_ids);
                run.step(RelayEvent::Published);
            }
            RelayAction::Finished { stats } => return stats,
        }
    }
}

fn todo(id: &str, title: &str) -> Todo {
    TodoBuilder
        .build(CreateTodo { id: id.to_string(), title: title.to_string() })
        .unwrap()
}

#[test]
fn record_ids_join_aggregate_version_and_name() {
    let mut t = todo("todo-1", "x");
    t.complete().unwrap();
    let events = t.pull_events();
    let r0 = TodoEventRecord::new(events[0].clone(), "uow-1".to_string(), 1);
    let r1 = TodoEventRecord::new(events[1].clone(), "uow-1".to_string(), 2);
    assert_eq!(r0.event_id, "todo-1:1:todo.created");
    assert_eq!(r1.event_id, "todo-1:2:todo.completed");
    assert_eq!(r0.aggregate_id, "todo-1");
    assert_eq!(r1.aggregate_version, 2);
    assert_eq!(r0.status, EventStatus::Pending);
    assert_eq!(r0.attempt_count, 0);
    assert!(r0.last_error.is_none());
    assert_eq!(r1.uow_id, "uow-1");
    assert_eq!(r1.event_order, 2);
}

#[test]
fn record_ids_render_large_versions() {
    let t = Todo::rehydrate(TodoId::new("t").unwrap(), TodoTitle::new("u").unwrap(), false, 1234567889);
    let mut t = t;
    t.complete().unwrap();
    let events = t.pull_events();
    let r = TodoEventRecord::new(events[0].clone(), "u".to_string(), 1);
    assert_eq!(r.event_id, "t:1234567890:todo.completed");
}

#[test]
fn unit_of_work_numbers_events_in_order() {
    let mut uow = UnitOfWorkState::new("uow-7".to_string());
    uow.stage_save(todo("todo-1", "first"));
    uow.stage_save(todo("todo-2", "second"));
    let done = uow.completion();
    assert_eq!(done.uow_id, "uow-7");
    assert_eq!(done.persisted_todos, 2);
    assert_eq!(done.persisted_event_ids, vec!["todo-1:1:todo.created".to_string(), "todo-2:1:todo.created".to_string()]);
    let (todos, records) = uow.take_staged();
    assert_eq!(todos.len(), 2);
    assert_eq!(records.len(), 2);
    assert_eq!(records[0].uow_id, records[1].uow_id);
    assert_eq!(records[0].event_order, 1);
    assert_eq!(records[1].event_order, 2);
    let failure = uow.failure(AppError::Validation { message: "boom".to_string() }.to_string());
    assert_eq!(failure.reason, "validation error: boom");
    assert_eq!(failure.staged_todos, 0);
}

#[test]
fn unit_of_work_absorbs_inner_work() {
    let mut outer = UnitOfWorkState::new("outer".to_string());
    let mut inner = UnitOfWorkState::new("inner".to_string());
    outer.stage_save(todo("a", "a"));
    inner.stage_save(todo("b", "b"));
    outer.absorb(inner);
    let done = outer.completion();
    assert_eq!(done.persisted_todos, 2);
    assert_eq!(done.persisted_event_ids.len(), 2);
    outer.clear();
    assert_eq!(outer.completion().persisted_todos, 0);
}

#[test]
fn store_persists_and_lists_by_id() {
    let mut store = InMemoryTodoStore::default();
    let mut uow = UnitOfWorkState::new("u1".to_string());
    let mut outbox = InMemoryTodoEventOutbox::default();
    uow.stage_save(todo("todo-b", "b"));
    uow.stage_save(todo("todo-a", "a"));
    commit(&mut uow, &mut store, &mut outbox);
    let listed = store.list();
    assert_eq!(listed.len(), 2);
    assert_eq!(listed[0].id().as_str(), "todo-a");
    assert_eq!(listed[1].id().as_str(), "todo-b");
    let found = store.find_by_id(&TodoId::new("todo-b").unwrap()).unwrap();
    assert_eq!(found.title().as_str(), "b");
    assert!(store.find_by_id(&TodoId::new("todo-c").unwrap()).is_none());
    let mut again = found.clone();
    again.complete().unwrap();
    store.persist(again);
    assert!(store.find_by_id(&TodoId::new("todo-b").unwrap()).unwrap().is_completed());
    assert_eq!(store.list().len(), 2);
    assert_eq!(outbox.records().unwrap().len(), 2);
}

#[test]
fn outbox_transitions_failure_state() {
    let mut outbox = InMemoryTodoEventOutbox::default();
    let mut uow = UnitOfWorkState::new("u".to_string());
    let mut t = todo("todo-2", "retry");
    t.complete().unwrap();
    uow.stage_save(t);
    let (_, records) = uow.take_staged();
    outbox.append(&records);

    let pending = outbox.pending();
    assert_eq!(pending.len(), 2);
    outbox.record_failure(&pending[0].event_id, "projection failed", 2).unwrap();
    let failed = outbox.pending();
    assert_eq!(failed[0].status, EventStatus::Failed);
    assert_eq!(failed[0].attempt_count, 1);
    assert_eq!(failed[0].last_error.as_deref(), Some("projection failed"));

    outbox.record_failure(&failed[0].event_id, "projection failed again", 2).unwrap();
    let after = outbox.pending();
    assert_eq!(after.len(), 1);
    assert_eq!(after[0].event_order, 2);
    assert!(!after.iter().any(|r| r.event_id.contains(":1:todo.created")));
    assert_eq!(outbox.records().unwrap()[0].status, EventStatus::DeadLetter);

    let e = outbox.record_failure("nope", "x", 2).unwrap_err();
    assert_eq!(e.to_string(), "persistence error: outbox record nope does not exist");
}

#[test]
fn outbox_mark_published_hides_records() {
    let mut outbox = InMemoryTodoEventOutbox::default();
    let mut uow = UnitOfWorkState::new("u".to_string());
    uow.stage_save(todo("a", "a"));
    uow.stage_save(todo("b", "b"));
    let (_, records) = uow.take_staged();
    outbox.append(&records);
    outbox.mark_published(&["a:1:todo.created".to_string()]);
    let pending = outbox.pending();
    assert_eq!(pending.len(), 1);
    assert_eq!(pending[0].aggregate_id, "b");
    assert_eq!(outbox.records().unwrap()[0].status, EventStatus::Published);
}

#[test]
fn inbox_remembers_event_ids() {
    let mut inbox = InMemoryTodoEventInbox::default();
    assert!(!inbox.contains("x:1:todo.created"));
    inbox.record("x:1:todo.created");
    inbox.record("x:1:todo.created");
    assert!(inbox.contains("x:1:todo.created"));
    assert!(!inbox.contains("x:2:todo.completed"));
}

#[test]
fn projection_applies_lifecycle_and_refuses_gaps() {
    let mut store = InMemoryTodoProjectionStore::default();
    let mut t = todo("todo-p", "project me");
    t.complete().unwrap();
    let events = t.pull_events();
    let created = TodoEventRecord::new(events[0].clone(), "u".to_string(), 1);
    let completed = TodoEventRecord::new(events[1].clone(), "u".to_string(), 2);

    let e = store.apply(&completed).unwrap_err();
    assert_eq!(e.to_string(), "not found: projection for todo todo-p does not exist");
    store.apply(&created).unwrap();
    let view = store.get("todo-p").unwrap();
    assert_eq!(view, TodoView { id: "todo-p".to_string(), title: "project me".to_string(), completed: false, version: 1 });
    store.apply(&completed).unwrap();
    let view = store.get("todo-p").unwrap();
    assert!(view.completed);
    assert_eq!(view.version, 2);
    let e = store.apply(&completed).unwrap_err();
    assert_eq!(e.to_string(), "conflict: projection version mismatch for todo todo-p: expected 3, got 2");
    assert!(store.get("other").is_none());
}

#[test]
fn projection_refuses_creation_past_version_one() {
    let id = TodoId::new("z").unwrap();
    let title = TodoTitle::new("t").unwrap();
    let event = TodoEvent::Created { todo_id: id, title, version: 2, occurred_at: std::time::SystemTime::now() };
    let e = apply_to_view(None, &event).unwrap_err();
    assert_eq!(e.to_string(), "conflict: projection create for z must start at version 1");
}

#[test]
fn projection_lists_views_by_id() {
    let mut store = InMemoryTodoProjectionStore::default();
    for id in ["todo-c", "todo-a", "todo-b"] {
        let mut t = todo(id, id);
        let ev = t.pull_events();
        store.apply(&TodoEventRecord::new(ev[0].clone(), "u".to_string(), 1)).unwrap();
    }
    let ids: Vec<String> = store.list().into_iter().map(|v| v.id).collect();
    assert_eq!(ids, vec!["todo-a".to_string(), "todo-b".to_string(), "todo-c".to_string()]);
}

#[test]
fn projection_pipeline_updates_read_model_and_inbox() {
    let mut outbox = InMemoryTodoEventOutbox::default();
    let mut inbox = InMemoryTodoEventInbox::default();
    let mut views = InMemoryTodoProjectionStore::default();
    let mut todos = InMemoryTodoStore::default();
    let mut uow = UnitOfWorkState::new("u1".to_string());
    let mut t = todo("todo-projection", "project me");
    t.complete().unwrap();
    uow.stage_save(t);
    commit(&mut uow, &mut todos, &mut outbox);

    let stats = flush_batch(&mut outbox, &mut inbox, &mut views, usize::MAX, 3);
    assert_eq!(stats.fetched, 2);
    assert_eq!(stats.published, 2);
    let view = views.get("todo-projection").unwrap();
    assert_eq!(view.title, "project me");
    assert!(view.completed);
    assert_eq!(view.version, 2);
    assert!(inbox.contains("todo-projection:1:todo.created"));
    assert!(inbox.contains("todo-projection:2:todo.completed"));
    assert!(outbox.pending().is_empty());
}

#[test]
fn relay_skips_records_already_in_inbox() {
    let mut outbox = InMemoryTodoEventOutbox::default();
    let mut inbox = InMemoryTodoEventInbox::default();
    let mut views = InMemoryTodoProjectionStore::default();
    let mut uow = UnitOfWorkState::new("u1".to_string());
    uow.stage_save(todo("s", "skip"));
    let (_, records) = uow.take_staged();
    outbox.append(&records);
    inbox.record("s:1:todo.created");
    let stats = flush_batch(&mut outbox, &mut inbox, &mut views, 10, 3);
    assert_eq!(stats, ProjectionRunStats { fetched: 1, published: 0, skipped: 1, failed: 0, dead_lettered: 0 });
    assert!(views.get("s").is_none());
    assert!(outbox.pending().is_empty());
}

#[test]
fn relay_counts_failures_until_dead_letter() {
    let mut outbox = InMemoryTodoEventOutbox::default();
    let mut inbox = InMemoryTodoEventInbox::default();
    let mut views = InMemoryTodoProjectionStore::default();
    let mut t = todo("f", "fail");
    t.complete().unwrap();
    let events = t.pull_events();
    // only the completion reaches the outbox, so it cannot apply
    outbox.append(&[TodoEventRecord::new(events[1].clone(), "u".to_string(), 1)]);
    let first = flush_batch(&mut outbox, &mut inbox, &mut views, 10, 2);
    assert_eq!(first, ProjectionRunStats { fetched: 1, published: 0, skipped: 0, failed: 1, dead_lettered: 0 });
    let stored = outbox.records().unwrap();
    assert_eq!(stored[0].last_error.as_deref(), Some("not found: projection for todo f does not exist"));
    let second = flush_batch(&mut outbox, &mut inbox, &mut views, 10, 2);
    assert_eq!(second, ProjectionRunStats { fetched: 1, published: 0, skipped: 0, failed: 0, dead_lettered: 1 });
    assert!(outbox.pending().is_empty());
    let third = flush_batch(&mut outbox, &mut inbox, &mut views, 10, 2);
    assert!(third.is_empty());
}

#[test]
fn projection_worker_drains_in_batches() {
    let mut outbox = InMemoryTodoEventOutbox::default();
    let mut inbox = InMemoryTodoEventInbox::default();
    let mut views = InMemoryTodoProjectionStore::default();
    let mut todos = InMemoryTodoStore::default();
    for (n, id) in ["todo-a", "todo-b", "todo-c"].iter().enumerate() {
        let mut uow = UnitOfWorkState::new(format!("u{n}"));
        uow.stage_save(todo(id, &format!("title-{id}")));
        commit(&mut uow, &mut todos, &mut outbox);
    }
    let mut drain = DrainProgress::new(5);
    while drain.wants_batch() {
        let batch = flush_batch(&mut outbox, &mut inbox, &mut views, 2, 3);
        drain.record_batch(batch);
    }
    assert_eq!(drain.total.fetched, 3);
    assert_eq!(drain.total.published, 3);
    assert_eq!(drain.batches_run, 3);
    assert!(outbox.pending().is_empty());
}

#[test]
fn relay_ignores_events_out_of_turn() {
    let mut run = OutboxRelayRun::start(Vec::new(), 5, 3);
    run.step(RelayEvent::InboxRecorded);
    match run.action() {
        RelayAction::MarkPublished { event_ids } => assert!(event_ids.is_empty()),
        other => panic!("unexpected action {other:?}"),
    }
    run.step(RelayEvent::Published);
    match run.action() {
        RelayAction::Finished { stats } => assert!(stats.is_empty()),
        other => panic!("unexpected action {other:?}"),
    }
}

#[test]
fn stats_merge_adds_fields() {
    let mut a = ProjectionRunStats { fetched: 2, published: 1, skipped: 1, failed: 0, dead_lettered: 0 };
    a.merge(ProjectionRunStats { fetched: 1, published: 0, skipped: 0, failed: 1, dead_lettered: 1 });
    assert_eq!(a, ProjectionRunStats { fetched: 3, published: 1, skipped: 1, failed: 1, dead_lettered: 1 });
    assert!(!a.is_empty());
    assert!(ProjectionRunStats::default().is_empty());
}

#[test]
fn status_text_round_trips() {
    for s in [EventStatus::Pending, EventStatus::Failed, EventStatus::Published, EventStatus::DeadLetter] {
        assert_eq!(status_from_str(&status_to_string(s)).unwrap(), s);
    }
    assert_eq!(status_to_string(EventStatus::DeadLetter), "dead_letter");
    let e = status_from_str("lost").unwrap_err();
    assert_eq!(e.to_string(), "persistence error: unknown outbox status lost");
}
