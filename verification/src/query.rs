//! Read models.

use std::fmt::Debug;
use vstd::prelude::*;
use crate::aggregate::Aggregate;
use crate::domain_event::DomainEvent;
use crate::formated_event::{Envelope, FormatedEvent};

verus! {

/// A read model that is built by showing it envelopes one after the other.
///
/// What an envelope does to a read model is a function of the read model and
/// of what the envelope says, `populated`; `populate` performs it in place.
/// A read model starts as the fixed value `empty()`.
pub trait Query<A: Aggregate, E: DomainEvent<A>>: Sized + Debug + Default {
    /// The read model that has seen nothing yet.
    spec fn empty() -> Self;

    /// The read model once it has seen `envelope`.
    spec fn populated(self, envelope: Envelope<E>) -> Self;

    /// Whatever `Default::default` returns is the empty read model.
    proof fn default_is_empty(query: Self)
        requires
            call_ensures(Self::default, (), query),
        ensures
            query == Self::empty(),
    ;

    fn populate(&mut self, event: &FormatedEvent<A, E>)
        ensures
            *final(self) == old(self).populated(event@),
    ;
}

/// The read model that `query` becomes when it sees `slice` in order.
pub open spec fn project<A: Aggregate, E: DomainEvent<A>, Q: Query<A, E>>(
    slice: Seq<Envelope<E>>,
    query: Q,
) -> Q
    decreases slice.len(),
{
    if slice.len() == 0 {
        query
    } else {
        project::<A, E, Q>(slice.drop_last(), query).populated(slice.last())
    }
}

} // verus!
