use std::time::SystemTime;
use todo::context::{ActorContext, RequestContext, RequestSource, TenancyContext};
use todo::outbox::{failure_status, EventStatus, TodoEventRecord};
use todo::uow::{uow_name, UnitOfWorkState};
use todo::projection::TodoView;
use todo::rows::{
    outbox_row, projection_row, record_from_row, todo_from_row, todo_to_row, view_from_projection_row,
    OutboxRow, TodoRow,
};
use todo::service::{
    build_with_view, check_absent, complete_with_view, loaded_or_not_found, view_or_not_found,
};
use todo::text::{is_whitespace, push_decimal, trim, trim_span};
use todo::todo::{CreateTodo, Todo, TodoBuilder};
use todo::value_objects::{TodoId, TodoTitle};
use todo::Builder;

fn sample_row(name: &str, title: Option<&str>, status: &str) -> OutboxRow {
    OutboxRow {
        event_id: "e-1".to_string(),
        uow_id: "u".to_string(),
        event_order: 1,
        aggregate_id: " todo-r ".to_string(),
        aggregate_version: 1,
        event_name: name.to_string(),
        title: title.map(|t| t.to_string()),
        occurred_at: SystemTime::UNIX_EPOCH,
        status: status.to_string(),
        attempt_count: 0,
        last_error: None,
    }
}

#[test]
fn todo_row_round_trips() {
    let mut t = Todo::new(TodoId::new("todo-r").unwrap(), TodoTitle::new("row").unwrap());
    t.complete().unwrap();
    let row = todo_to_row(&t);
    assert_eq!(row, TodoRow { id: "todo-r".to_string(), title: "row".to_string(), completed: true, version: 2 });
    let mut back = todo_from_row(row).unwrap();
    assert_eq!(back.id().as_str(), "todo-r");
    assert_eq!(back.version(), 2);
    assert!(back.is_completed());
    assert!(back.pull_events().is_empty());
    let bad = TodoRow { id: " ".to_string(), title: "x".to_string(), completed: false, version: 1 };
    assert!(todo_from_row(bad).is_err());
}

#[test]
fn outbox_row_round_trips() {
    let mut t = Todo::new(TodoId::new("todo-r").unwrap(), TodoTitle::new("row").unwrap());
    t.complete().unwrap();
    let events = t.pull_events();
    for (n, e) in events.iter().enumerate() {
        let mut rec = TodoEventRecord::new(e.clone(), "uow-1".to_string(), n as u64 + 1);
        rec.record_failure("boom", 5);
        let row = outbox_row(&rec);
        assert_eq!(row.status, "failed");
        let back = record_from_row(row).unwrap();
        assert_eq!(back, rec);
    }
}

#[test]
fn outbox_rows_that_do_not_read_back_are_refused() {
    let e = record_from_row(sample_row("todo.renamed", None, "pending")).unwrap_err();
    assert_eq!(e.to_string(), "persistence error: unknown todo event name todo.renamed for record e-1");
    let e = record_from_row(sample_row("todo.created", None, "pending")).unwrap_err();
    assert_eq!(e.to_string(), "persistence error: missing title for todo.created event e-1");
    let e = record_from_row(sample_row("todo.created", Some("  "), "pending")).unwrap_err();
    assert_eq!(e.to_string(), "validation error: todo title cannot be empty");
    let e = record_from_row(sample_row("todo.completed", None, "gone")).unwrap_err();
    assert_eq!(e.to_string(), "persistence error: unknown outbox status gone");
    let rec = record_from_row(sample_row("todo.completed", None, "dead_letter")).unwrap();
    assert_eq!(rec.status, EventStatus::DeadLetter);
    assert_eq!(rec.payload.todo_id().as_str(), "todo-r");
    assert_eq!(rec.aggregate_id, " todo-r ");
}

#[test]
fn projection_row_round_trips() {
    let v = TodoView { id: "a".to_string(), title: "b".to_string(), completed: true, version: 9 };
    let row = projection_row(&v);
    assert_eq!(row.version, 9);
    assert_eq!(view_from_projection_row(row), v);
}

#[test]
fn service_decisions() {
    let id = TodoId::new("todo-1").unwrap();
    let t = TodoBuilder
        .build(CreateTodo { id: "todo-1".to_string(), title: "t".to_string() })
        .unwrap();
    assert!(check_absent(&id, None).is_ok());
    let e = check_absent(&id, Some(&t)).unwrap_err();
    assert_eq!(e.to_string(), "conflict: todo todo-1 already exists");
    let e = loaded_or_not_found(&id, None).unwrap_err();
    assert_eq!(e.to_string(), "not found: todo todo-1 does not exist");
    let e = view_or_not_found(&id, None).unwrap_err();
    assert_eq!(e.to_string(), "not found: todo todo-1 does not exist");
    let mut loaded = loaded_or_not_found(&id, Some(t)).unwrap();
    let view = complete_with_view(&mut loaded).unwrap();
    assert!(view.completed);
    assert_eq!(view.version, 2);
    assert_eq!(view_or_not_found(&id, Some(view.clone())).unwrap(), view);
    assert!(complete_with_view(&mut loaded).is_err());
}

#[test]
fn trim_and_decimal_helpers() {
    assert_eq!(trim("  a  b \n"), "a  b");
    assert_eq!(trim("   "), "");
    assert_eq!(trim(""), "");
    let mut s = String::from("v");
    push_decimal(&mut s, 0);
    push_decimal(&mut s, 907);
    assert_eq!(s, "v0907");
    let mut m = String::new();
    push_decimal(&mut m, u64::MAX);
    assert_eq!(m, u64::MAX.to_string());
}

#[test]
fn request_context_builders() {
    let ctx = RequestContext::system();
    assert_eq!(ctx.meta.request_id, "system");
    assert_eq!(ctx.meta.source, RequestSource::System);
    assert_eq!(RequestContext::default(), RequestContext::new(RequestSource::System));
    let deadline = SystemTime::UNIX_EPOCH;
    let ctx = RequestContext::new(RequestSource::Http)
        .with_request_id("req-1")
        .with_actor(ActorContext { user_id: "u".to_string(), roles: vec!["admin".to_string()] })
        .with_tenancy(TenancyContext { tenant_id: "t".to_string(), workspace_id: None })
        .with_trace_id("trace")
        .with_idempotency_key("key")
        .with_deadline(deadline);
    assert_eq!(ctx.meta.request_id, "req-1");
    assert_eq!(ctx.meta.source, RequestSource::Http);
    assert_eq!(ctx.actor.as_ref().unwrap().roles, vec!["admin".to_string()]);
    assert_eq!(ctx.tenancy.as_ref().unwrap().tenant_id, "t");
    assert_eq!(ctx.trace.trace_id.as_deref(), Some("trace"));
    assert_eq!(ctx.execution.idempotency_key.as_deref(), Some("key"));
    assert_eq!(ctx.execution.deadline_at, Some(deadline));
    let copy = ctx.clone();
    assert_eq!(copy, ctx);
}

#[test]
fn unit_of_work_names_and_counters() {
    assert_eq!(uow_name("uow-", 12), "uow-12");
    assert_eq!(uow_name("sea-uow-", 1), "sea-uow-1");
    assert_eq!(failure_status(1, 2), EventStatus::Failed);
    assert_eq!(failure_status(2, 2), EventStatus::DeadLetter);
    let mut uow = UnitOfWorkState::new("u".to_string());
    assert_eq!(uow.last_event_order(), 0);
    assert_eq!(uow.next_event_order(), 1);
    assert_eq!(uow.next_event_order(), 2);
    assert_eq!(uow.last_event_order(), 2);
    assert_eq!(uow.id(), "u");
    let mut t = TodoBuilder
        .build(CreateTodo { id: "n".to_string(), title: "n".to_string() })
        .unwrap();
    t.complete().unwrap();
    assert_eq!(t.pending_event_count(), 2);
    let added = uow.stage_save(t);
    assert_eq!(added.len(), 2);
    assert_eq!(added[0].event_order, 3);
    assert_eq!(added[1].event_order, 4);
    assert_eq!(added[1].event_id, "n:2:todo.completed");
}

#[test]
fn trim_span_skips_flagged_ends() {
    assert_eq!(trim_span(&vec![true, false, true, false, true]), (1, 4));
    assert_eq!(trim_span(&vec![true, true]), (2, 2));
    assert_eq!(trim_span(&vec![]), (0, 0));
    assert_eq!(trim_span(&vec![false]), (0, 1));
}

#[test]
fn white_space_matches_char_is_whitespace() {
    for n in 0u32..=0x10FFFF {
        if let Some(c) = char::from_u32(n) {
            assert_eq!(is_whitespace(c), c.is_whitespace(), "code point {:#x}", n);
        }
    }
    assert_eq!(trim("\u{3000}\u{a0}todo-9\u{2028}\u{85}"), "todo-9");
    assert_eq!(TodoId::new("\u{2003}todo-9\t").unwrap().as_str(), "todo-9");
}

#[test]
fn stored_rows_that_do_not_validate_name_their_error() {
    let e = todo_from_row(TodoRow { id: " ".to_string(), title: "t".to_string(), completed: false, version: 1 })
        .unwrap_err();
    assert_eq!(e.to_string(), "validation error: todo id cannot be empty");
    let e = todo_from_row(TodoRow { id: "a".to_string(), title: "\t".to_string(), completed: false, version: 1 })
        .unwrap_err();
    assert_eq!(e.to_string(), "validation error: todo title cannot be empty");
    let mut row = sample_row("todo.completed", None, "pending");
    row.aggregate_id = "  ".to_string();
    let e = record_from_row(row).unwrap_err();
    assert_eq!(e.to_string(), "validation error: todo id cannot be empty");
}

#[test]
fn building_with_a_view_names_the_blank_field() {
    let e = build_with_view(&TodoBuilder, CreateTodo { id: " ".to_string(), title: " ".to_string() })
        .unwrap_err();
    assert_eq!(e.to_string(), "validation error: todo id cannot be empty");
    let e = build_with_view(&TodoBuilder, CreateTodo { id: "x".to_string(), title: " ".to_string() })
        .unwrap_err();
    assert_eq!(e.to_string(), "validation error: todo title cannot be empty");
    let (t, v) = build_with_view(&TodoBuilder, CreateTodo { id: " x ".to_string(), title: " y".to_string() })
        .unwrap();
    assert_eq!(t.id().as_str(), "x");
    assert_eq!(v.title, "y");
    assert_eq!(v.version, 1);
}
