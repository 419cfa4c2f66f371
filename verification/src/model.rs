//! The building blocks of the domain model, as traits.

use vstd::prelude::*;
use crate::errors::AppError;

verus! {

/// Something with an identity of type `Key`.
pub trait Entity<Key>: Send + Sync where Key: Send + Sync {
    /// The identity.
    fn id(&self) -> &Key;
}

/// An entity that is the root of a consistency boundary.
pub trait AggregateRoot<Key>: Entity<Key> where Key: Send + Sync {

}

/// A value compared by its contents, with no identity of its own.
pub trait ValueObject: Clone + Eq + Send + Sync + 'static {

}

/// Something that happened in the domain.
pub trait DomainEvent: Clone + Send + Sync + 'static {
    /// The name of the kind of event, such as `todo.created`.
    fn event_name(&self) -> &'static str;

    /// The identity of the entity the event happened to.
    fn entity_id(&self) -> String;

    /// When the event happened.
    fn occurred_at(&self) -> std::time::SystemTime;
}

/// Something that records domain events until they are pulled out of it.
pub trait RecordsDomainEvents<Event>: Send + Sync where Event: DomainEvent {
    /// Hands out the recorded events and forgets them.
    fn pull_events(&mut self) -> Vec<Event>;
}

/// Something that publishes domain events.
pub trait DomainEventPublisher<Event>: Send + Sync where Event: DomainEvent {
    /// Publishes `events`.
    fn publish(&self, events: &[Event]) -> Result<(), AppError>;
}

/// Something that builds an output from an input, or refuses to.
pub trait Builder: Send + Sync {
    type Input;

    type Output;

    /// Builds the output.
    fn build(&self, input: Self::Input) -> Result<Self::Output, AppError>;
}

} // verus!
