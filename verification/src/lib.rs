//! A small todo domain: validated identifiers, a todo aggregate that records
//! its own domain events, an outbox of event records, an idempotent inbox, a
//! read-model projection and the decisions of the relay that feeds it.

pub mod clock;
pub mod context;
pub mod errors;
pub mod events;
pub mod keyed;
pub mod laws;
pub mod model;
pub mod outbox;
pub mod projection;
pub mod relay;
pub mod rows;
pub mod service;
pub mod store;
pub mod text;
pub mod todo;
pub mod uow;
pub mod value_objects;

pub use errors::{AppError, DomainError};
pub use model::{
    AggregateRoot, Builder, DomainEvent, DomainEventPublisher, Entity, RecordsDomainEvents,
    ValueObject,
};
