//! Side effects that follow an append.

use vstd::prelude::*;
use crate::aggregate::Aggregate;
use crate::domain_event::DomainEvent;
use crate::formated_event::FormatedEvent;

verus! {

/// The handlers of an orchestrator, in the order in which they are told.
pub type Handlers<A, E> = Vec<Box<dyn Handler<A, E>>>;

/// Someone who is told of every batch once it has been appended. A handler
/// reports nothing back: what it does with the news, and what it does when
/// that fails, is its own affair.
pub trait Handler<A: Aggregate, E: DomainEvent<A>>: Send {
    fn handle(&self, events: &Vec<FormatedEvent<A, E>>);
}

} // verus!
