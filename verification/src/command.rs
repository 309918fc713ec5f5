//! Commands: what a caller wants to happen to an aggregate.

use vstd::prelude::*;
use crate::aggregate::{Aggregate, AggregateContext};
use crate::domain_event::DomainEvent;
use crate::error::Error;
use crate::store::Store;

verus! {

/// A unit of intent. Given the current state of its aggregate, a command
/// decides which events happened, or refuses.
///
/// What a command answers is its own affair, so its methods promise
/// nothing here but what the trait does where a command leaves `before` to
/// it; the orchestrator says what it does with each answer.
pub trait Command<A: Aggregate, E: DomainEvent<A>>: Sized + Clone + Sync + Send {
    /// The aggregate the command is aimed at; `None` asks for a new one.
    fn id(&self) -> Option<String>;

    /// Decides what happened. A refusal stops the execution before anything
    /// is appended.
    fn handle(self, aggregate_context: &AggregateContext<A>) -> Result<Vec<E>, Error>;

    /// Prepares the command with read access to the store, once per
    /// execution. Unless an implementation says otherwise, the command
    /// comes back as it went in, and nothing is refused.
    ///
    /// Verus does not yet take a contract on a method with a type parameter
    /// of its own in an impl, nor an impl that leaves such a method to the
    /// trait: a command that is verified writes `before` out, without
    /// `ensures`.
    fn before<S: Store<A, E>>(command: Self, _store: &S) -> (outcome: Result<Self, Error>)
        default_ensures
            outcome == Ok::<Self, Error>(command),
    {
        Ok(command)
    }
}

} // verus!
