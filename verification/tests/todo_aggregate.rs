use todo::events::TodoEvent;
use todo::outbox::TodoEventRecord;
use todo::todo::{CreateTodo, Todo, TodoBuilder};
use todo::value_objects::{TodoId, TodoTitle};
use todo::{AggregateRoot, AppError, Builder, DomainEvent, Entity, RecordsDomainEvents, ValueObject};

fn entity_id<E>(entity: &E) -> &TodoId
where
    E: Entity<TodoId>,
{
    entity.id()
}

fn accepts_aggregate_root<A>(_aggregate: &A)
where
    A: AggregateRoot<TodoId>,
{
}

fn accepts_value_object<V>(_value: &V)
where
    V: ValueObject,
{
}

fn drain_events<A>(aggregate: &mut A) -> Vec<TodoEvent>
where
    A: RecordsDomainEvents<TodoEvent>,
{
    aggregate.pull_events()
}

fn accepts_domain_event<E>(_event: &E)
where
    E: DomainEvent,
{
}

#[test]
fn create_todo_records_created_event() {
    let mut todo = Todo::new(
        TodoId::new("todo-1").expect("valid todo id"),
        TodoTitle::new("write docs").expect("valid todo title"),
    );

    accepts_aggregate_root(&todo);
    accepts_value_object(todo.id());
    accepts_value_object(todo.title());
    assert_eq!(todo.id().as_str(), "todo-1");
    assert_eq!(entity_id(&todo).as_str(), "todo-1");
    assert_eq!(todo.title().as_str(), "write docs");
    assert!(!todo.is_completed());
    assert_eq!(todo.version(), 1);
    let events = drain_events(&mut todo);
    assert_eq!(events.len(), 1);
    accepts_domain_event(&events[0]);
    assert_eq!(events[0].event_name(), "todo.created");
    assert_eq!(events[0].entity_id(), "todo-1");
}

#[test]
fn completed_todo_cannot_be_completed_again() {
    let mut todo = Todo::new(
        TodoId::new("todo-1").expect("valid todo id"),
        TodoTitle::new("ship release").expect("valid todo title"),
    );

    todo.complete().expect("first completion succeeds");
    assert_eq!(todo.version(), 2);
    let error = todo.complete().expect_err("second completion must fail");

    assert!(error.to_string().contains("already completed"));
}

#[test]
fn completion_is_recorded_after_creation() {
    let mut todo = Todo::new(TodoId::new("a").unwrap(), TodoTitle::new("b").unwrap());
    todo.complete().unwrap();
    assert!(todo.is_completed());
    let events = todo.pull_events();
    assert_eq!(events.len(), 2);
    assert_eq!(events[0].event_name(), "todo.created");
    assert_eq!(events[0].version(), 1);
    assert_eq!(events[1].event_name(), "todo.completed");
    assert_eq!(events[1].version(), 2);
    assert_eq!(events[1].entity_id(), "a");
    assert!(todo.pull_events().is_empty());
}

#[test]
fn second_completion_is_a_conflict_with_message() {
    let mut todo = Todo::new(TodoId::new("todo-9").unwrap(), TodoTitle::new("t").unwrap());
    todo.complete().unwrap();
    let before = todo.clone();
    let error = todo.complete().unwrap_err();
    assert!(matches!(error, AppError::Conflict { .. }));
    assert_eq!(error.to_string(), "conflict: todo todo-9 is already completed");
    assert_eq!(todo.version(), before.version());
    assert_eq!(todo.pull_events().len(), 2);
}

#[test]
fn rehydrated_todo_has_no_events() {
    let mut todo = Todo::rehydrate(TodoId::new("x").unwrap(), TodoTitle::new("y").unwrap(), true, 7);
    assert!(todo.is_completed());
    assert_eq!(todo.version(), 7);
    assert!(todo.pull_events().is_empty());
    assert!(todo.complete().is_err());
}

#[test]
fn ids_and_titles_are_trimmed() {
    let id = TodoId::new("  todo-1 \t").unwrap();
    assert_eq!(id.as_str(), "todo-1");
    let again = TodoId::new(id.as_str()).unwrap();
    assert_eq!(again, id);
    let title = TodoTitle::new("\n write docs  ").unwrap();
    assert_eq!(title.as_str(), "write docs");
    let inner = TodoId::new(" a b ").unwrap();
    assert_eq!(inner.as_str(), "a b");
}

#[test]
fn blank_id_and_title_are_refused() {
    let e = TodoId::new("   ").unwrap_err();
    assert!(matches!(e, AppError::Validation { .. }));
    assert_eq!(e.to_string(), "validation error: todo id cannot be empty");
    let e = TodoTitle::new("").unwrap_err();
    assert_eq!(e.to_string(), "validation error: todo title cannot be empty");
}

#[test]
fn builder_validates_id_then_title() {
    let builder = TodoBuilder;
    let todo = builder
        .build(CreateTodo { id: " todo-2 ".to_string(), title: "second".to_string() })
        .unwrap();
    assert_eq!(todo.id().as_str(), "todo-2");
    assert_eq!(todo.version(), 1);
    let e = builder
        .build(CreateTodo { id: "".to_string(), title: "".to_string() })
        .unwrap_err();
    assert_eq!(e.to_string(), "validation error: todo id cannot be empty");
    let e = builder
        .build(CreateTodo { id: "x".to_string(), title: " ".to_string() })
        .unwrap_err();
    assert_eq!(e.to_string(), "validation error: todo title cannot be empty");
}

#[test]
fn error_kinds_display_with_prefix() {
    let m = |s: &str| s.to_string();
    assert_eq!(AppError::Validation { message: m("boom") }.to_string(), "validation error: boom");
    assert_eq!(AppError::NotFound { message: m("x") }.to_string(), "not found: x");
    assert_eq!(AppError::Conflict { message: m("y") }.to_string(), "conflict: y");
    assert_eq!(AppError::Persistence { message: m("z") }.to_string(), "persistence error: z");
}

#[test]
fn version_counts_successful_completions() {
    let mut t = Todo::new(TodoId::new("todo-7").unwrap(), TodoTitle::new("walk").unwrap());
    assert_eq!((t.version(), t.is_completed()), (1, false));
    assert_eq!(t.pull_events().len(), 1);
    assert_eq!((t.version(), t.is_completed()), (1, false));
    assert!(t.complete().is_ok());
    assert_eq!((t.version(), t.is_completed()), (2, true));
    assert!(t.complete().is_err());
    assert_eq!(t.pull_events().len(), 1);
    assert!(t.complete().is_err());
    assert_eq!((t.version(), t.is_completed()), (2, true));
}

#[test]
fn event_ids_identify_events_across_todos() {
    let mut a = Todo::new(TodoId::new("a:1").unwrap(), TodoTitle::new("x").unwrap());
    let mut b = Todo::new(TodoId::new("a").unwrap(), TodoTitle::new("x").unwrap());
    let ea = a.pull_events().remove(0);
    let eb = b.pull_events().remove(0);
    let ra = TodoEventRecord::new(ea.clone(), "u1".to_string(), 1);
    let rb = TodoEventRecord::new(eb, "u2".to_string(), 2);
    assert_eq!(ra.event_id, "a:1:1:todo.created");
    assert_eq!(rb.event_id, "a:1:todo.created");
    assert_ne!(ra.event_id, rb.event_id);
    let ra2 = TodoEventRecord::new(ea, "u9".to_string(), 9);
    assert_eq!(ra.event_id, ra2.event_id);
}
