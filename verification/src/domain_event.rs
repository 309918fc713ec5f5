//! Domain events and what replaying them means.

use std::fmt::Debug;
use vstd::prelude::*;
use crate::aggregate::Aggregate;

verus! {

/// A fact about one kind of aggregate.
///
/// What an event does to a state is a function of the event and that state
/// alone, `applied`; `apply` performs it in place. A copy made by `clone` is
/// the event itself.
pub trait DomainEvent<A: Aggregate>: Sized + Clone + PartialEq + Debug + Sync + Send {
    /// The state that `aggregate` is in once this event has happened to it.
    spec fn applied(self, aggregate: A) -> A;

    /// Whatever `Clone::clone` returns is equal to what it was given.
    proof fn clone_is_copy(source: Self, copy: Self)
        requires
            cloned::<Self>(source, copy),
        ensures
            copy == source,
    ;

    fn apply(self, aggregate: &mut A)
        ensures
            *final(aggregate) == self.applied(*old(aggregate)),
    ;

    fn name() -> &'static str;
}

/// The state reached from `state` when `events` happen to it in order.
pub open spec fn replay<A: Aggregate, E: DomainEvent<A>>(events: Seq<E>, state: A) -> A
    decreases events.len(),
{
    if events.len() == 0 {
        state
    } else {
        events.last().applied(replay(events.drop_last(), state))
    }
}

/// Replaying a sequence and then another is replaying the two joined.
pub proof fn replay_in_two_steps<A: Aggregate, E: DomainEvent<A>>(
    first: Seq<E>,
    second: Seq<E>,
    state: A,
)
    ensures
        replay(first + second, state) == replay(second, replay(first, state)),
    decreases second.len(),
{
    if second.len() > 0 {
        assert((first + second).drop_last() =~= first + second.drop_last());
        replay_in_two_steps(first, second.drop_last(), state);
    }
}

} // verus!
