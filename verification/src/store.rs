//! What a store owes its callers.

use vstd::prelude::*;
use crate::aggregate::{Aggregate, AggregateContext};
use crate::domain_event::DomainEvent;
use crate::error::Error;
use crate::formated_event::{envelopes, wraps, Envelope};
use crate::log::{belongs_to, concerns, rebuilt_for};
use crate::text::opt_chars;
use crate::types::{meta_entries, FormatedResult, MetaData};

verus! {

/// Whether `context` is a faithful answer to a request to rebuild the
/// aggregate `id`: the replay of some history of that aggregate, or, where no
/// identifier was given, an aggregate that no event has touched.
pub open spec fn faithful<A: Aggregate, E: DomainEvent<A>>(
    context: AggregateContext<A>,
    id: Option<String>,
) -> bool {
    match id {
        Some(given) => exists|history: Seq<Envelope<E>>| #[trigger]
            rebuilt_for(context, given@, history),
        None => context.version == 0 && context.aggregate == A::initial(),
    }
}

/// A durable, ordered log of envelopes.
///
/// A store may fail on any call but an append of nothing, and what it holds
/// may change between calls, so the contracts below say what is true of an
/// answer whenever there is one.
pub trait Store<A: Aggregate, E: DomainEvent<A>>: Sized + Clone + Sync + Send {
    /// Rebuilds an aggregate. With an identifier, the answer is the replay of
    /// a history of that aggregate and stands at the version of its last
    /// envelope; with none, it is an untouched aggregate under a new name.
    fn assemble_aggregate(&self, id: Option<String>) -> (outcome: Result<
        AggregateContext<A>,
        Error,
    >)
        ensures
            outcome matches Ok(context) ==> faithful::<A, E>(context, id),
    ;

    /// Appends the events a command produced against `context`. The answer
    /// holds one envelope for each event, in order, numbered from the version
    /// after that of the context. An append of no events always succeeds.
    fn append(&self, events: Vec<E>, context: AggregateContext<A>, meta: MetaData) -> (outcome:
        FormatedResult<A, E>)
        ensures
            events@.len() == 0 ==> outcome is Ok,
            outcome matches Ok(stored) ==> wraps(
                envelopes(stored@),
                context.id@,
                A::tag()@,
                context.version as nat,
                events@,
                meta_entries(meta),
            ),
    ;

    /// The envelopes of one aggregate of kind `A`.
    fn retrieve(&self, aggregate_id: &str) -> (outcome: FormatedResult<A, E>)
        ensures
            outcome matches Ok(found) ==> forall|i: int|
                0 <= i < found@.len() ==> belongs_to(
                    (#[trigger] found@[i])@,
                    aggregate_id@,
                    A::tag()@,
                ),
    ;

    /// The envelopes a read model of the aggregates of kind `A` is built
    /// from.
    fn retrieve_for_query(&self, aggregate_id: Option<&str>) -> (outcome: FormatedResult<A, E>)
        ensures
            outcome matches Ok(found) ==> forall|i: int|
                0 <= i < found@.len() ==> concerns(
                    (#[trigger] found@[i])@,
                    opt_chars(aggregate_id),
                    A::tag()@,
                ),
    ;
}

} // verus!
