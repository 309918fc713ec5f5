//! Building a read model from a store.

use std::marker::PhantomData;
use vstd::prelude::*;
use crate::aggregate::Aggregate;
use crate::domain_event::DomainEvent;
use crate::error::Error;
use crate::formated_event::{envelopes, FormatedEvent};
use crate::query::{project, Query};
use crate::store::Store;
use crate::types::FormatedResult;

verus! {

/// Whether `slice` is what `store` may answer when it is asked for the
/// envelopes of a read model.
pub open spec fn feeds<A: Aggregate, E: DomainEvent<A>, S: Store<A, E>>(
    store: S,
    aggregate_id: Option<&str>,
    slice: FormatedResult<A, E>,
) -> bool {
    call_ensures(S::retrieve_for_query, (&store, aggregate_id), slice)
}

/// Builds read models of type `Q`. It keeps nothing between two calls: every
/// read model is built from scratch.
#[verifier::reject_recursive_types(A)]
#[verifier::reject_recursive_types(E)]
#[verifier::reject_recursive_types(Q)]
pub struct QueryProcessor<A: Aggregate, E: DomainEvent<A>, Q: Query<A, E>> {
    _a: PhantomData<A>,
    _e: PhantomData<E>,
    _q: PhantomData<Q>,
}

impl<A: Aggregate, E: DomainEvent<A>, Q: Query<A, E>> QueryProcessor<A, E, Q> {
    /// The read model of what `store` holds for `aggregate_id`: the empty
    /// read model, shown every envelope that the store answers with, in the
    /// order of the answer. Where the store refuses, its error is the
    /// answer.
    pub fn process<S: Store<A, E>>(store: &S, aggregate_id: Option<&str>) -> (outcome: Result<
        Q,
        Error,
    >)
        ensures
            match outcome {
                Ok(query) => exists|slice: Vec<FormatedEvent<A, E>>|
                    {
                        &&& #[trigger] feeds(*store, aggregate_id, Ok(slice))
                        &&& query == project::<A, E, Q>(envelopes(slice@), Q::empty())
                    },
                Err(e) => feeds(*store, aggregate_id, Err(e)),
            },
    {
        let mut query = Q::default();
        proof {
            Q::default_is_empty(query);
        }
        let answer = store.retrieve_for_query(aggregate_id);
        let events = match answer {
            Ok(events) => events,
            Err(e) => {
                return Err(e);
            },
        };
        assert(feeds(*store, aggregate_id, Ok(events)));

        let mut i: usize = 0;
        while i < events.len()
            invariant
                i <= events.len(),
                query == project::<A, E, Q>(envelopes(events@).take(i as int), Q::empty()),
            decreases events.len() - i,
        {
            assert(envelopes(events@).take(i + 1).drop_last() =~= envelopes(events@).take(
                i as int,
            ));
            query.populate(&events[i]);
            i += 1;
        }
        assert(envelopes(events@).take(events.len() as int) =~= envelopes(events@));

        Ok(query)
    }
}

} // verus!
