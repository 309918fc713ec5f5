//! The orchestrator: one command, from intent to appended events.

use std::marker::PhantomData;
use vstd::prelude::*;
use crate::aggregate::{Aggregate, AggregateContext};
use crate::command::Command;
use crate::domain_event::DomainEvent;
use crate::error::Error;
use crate::formated_event::FormatedEvent;
use crate::handler::Handlers;
use crate::store::Store;
use crate::types::{FormatedResult, MetaData};

verus! {

/// Whether `prepared` is what the command's `before` may answer when it is
/// given `command` and read access to `store`.
pub open spec fn prepares<A: Aggregate, E: DomainEvent<A>, ES: Store<A, E>, C: Command<A, E>>(
    store: ES,
    command: C,
    prepared: Result<C, Error>,
) -> bool {
    call_ensures(C::before::<ES>, (command, &store), prepared)
}

/// Whether `rebuilt` is what `store` may answer when it is asked to rebuild
/// the aggregate that `command` names.
pub open spec fn rebuilds<A: Aggregate, E: DomainEvent<A>, ES: Store<A, E>, C: Command<A, E>>(
    store: ES,
    command: C,
    rebuilt: Result<AggregateContext<A>, Error>,
) -> bool {
    exists|id: Option<String>|
        {
            &&& #[trigger] call_ensures(C::id, (&command,), id)
            &&& call_ensures(ES::assemble_aggregate, (&store, id), rebuilt)
        }
}

/// Whether `decided` is what `command` may decide when it sees `context`.
pub open spec fn decides<A: Aggregate, E: DomainEvent<A>, C: Command<A, E>>(
    command: C,
    context: AggregateContext<A>,
    decided: Result<Vec<E>, Error>,
) -> bool {
    call_ensures(C::handle, (command, &context), decided)
}

/// Whether `stored` is what `store` may answer when it is asked to append
/// `events` against `context`.
pub open spec fn stores<A: Aggregate, E: DomainEvent<A>, ES: Store<A, E>>(
    store: ES,
    events: Vec<E>,
    context: AggregateContext<A>,
    meta: MetaData,
    stored: FormatedResult<A, E>,
) -> bool {
    call_ensures(ES::append, (&store, events, context, meta), stored)
}

/// Whether an execution of `command` may get as far as deciding: the
/// command was prepared as `prepared`, and its aggregate rebuilt as
/// `context`.
pub open spec fn reaches_decision<
    A: Aggregate,
    E: DomainEvent<A>,
    ES: Store<A, E>,
    C: Command<A, E>,
>(store: ES, command: C, prepared: C, context: AggregateContext<A>) -> bool {
    &&& prepares(store, command, Ok(prepared))
    &&& rebuilds(store, prepared, Ok(context))
}

/// Whether an execution of `command` may end in success: every step
/// answered, the store was asked to append exactly what the command decided
/// against exactly the context it was shown, and it did.
pub open spec fn succeeds<A: Aggregate, E: DomainEvent<A>, ES: Store<A, E>, C: Command<A, E>>(
    store: ES,
    command: C,
    meta: MetaData,
) -> bool {
    exists|
        prepared: C,
        context: AggregateContext<A>,
        events: Vec<E>,
        stored: Vec<FormatedEvent<A, E>>,
    |
        {
            &&& #[trigger] reaches_decision(store, command, prepared, context)
            &&& decides(prepared, context, Ok(events))
            &&& #[trigger] stores(store, events, context, meta, Ok(stored))
        }
}

/// Whether an execution of `command` may end with the error `e`: the first
/// step that refused did so with `e`, and every step before it answered.
pub open spec fn fails_with<A: Aggregate, E: DomainEvent<A>, ES: Store<A, E>, C: Command<A, E>>(
    store: ES,
    command: C,
    meta: MetaData,
    e: Error,
) -> bool {
    ||| prepares(store, command, Err(e))
    ||| exists|prepared: C|
        {
            &&& #[trigger] prepares(store, command, Ok(prepared))
            &&& rebuilds(store, prepared, Err(e))
        }
    ||| exists|prepared: C, context: AggregateContext<A>|
        {
            &&& #[trigger] reaches_decision(store, command, prepared, context)
            &&& decides(prepared, context, Err(e))
        }
    ||| exists|prepared: C, context: AggregateContext<A>, events: Vec<E>|
        {
            &&& #[trigger] reaches_decision(store, command, prepared, context)
            &&& decides(prepared, context, Ok(events))
            &&& #[trigger] stores(store, events, context, meta, Err(e))
        }
}

/// Runs commands against a store and tells the handlers what was appended.
#[verifier::reject_recursive_types(A)]
#[verifier::reject_recursive_types(E)]
pub struct CQRS<A: Aggregate, E: DomainEvent<A>, ES: Store<A, E>> {
    handlers: Handlers<A, E>,
    store: ES,
    _a: PhantomData<A>,
    _e: PhantomData<E>,
}

impl<A: Aggregate, E: DomainEvent<A>, ES: Store<A, E>> CQRS<A, E, ES> {
    /// The store the orchestrator works on.
    pub closed spec fn store(&self) -> ES {
        self.store
    }

    /// The handlers the orchestrator tells, in the order in which it tells
    /// them.
    pub closed spec fn handlers(&self) -> Handlers<A, E> {
        self.handlers
    }

    pub fn new(store: ES, handlers: Handlers<A, E>) -> (cqrs: CQRS<A, E, ES>)
        ensures
            cqrs.store() == store,
            cqrs.handlers() == handlers,
    {
        Self { store, handlers, _a: PhantomData, _e: PhantomData }
    }

    /// Executes one command: prepare it, rebuild its aggregate, let it
    /// decide, append what it decided, and tell every handler in turn. The
    /// first step that refuses ends the execution, and its error is the
    /// answer; nothing is appended unless the command has decided.
    pub fn execute<C: Command<A, E>>(&mut self, command: C, meta: MetaData) -> (outcome: Result<
        (),
        Error,
    >)
        ensures
            final(self).store() == old(self).store(),
            final(self).handlers() == old(self).handlers(),
            match outcome {
                Ok(_) => succeeds(old(self).store(), command, meta),
                Err(e) => fails_with(old(self).store(), command, meta, e),
            },
    {
        let prepared = C::before(command, &self.store);
        let cmd = match prepared {
            Ok(cmd) => cmd,
            Err(e) => {
                return Err(e);
            },
        };

        assert(prepares(self.store, command, Ok(cmd)));

        let id = cmd.id();
        let rebuilt = self.store.assemble_aggregate(id);
        let aggregate_context = match rebuilt {
            Ok(context) => context,
            Err(e) => {
                return Err(e);
            },
        };
        assert(reaches_decision(self.store, command, cmd, aggregate_context));
        let ghost shown = aggregate_context;

        let decided = cmd.handle(&aggregate_context);
        let generated_events = match decided {
            Ok(events) => events,
            Err(e) => {
                return Err(e);
            },
        };
        let ghost events = generated_events;

        let stored = self.store.append(generated_events, aggregate_context, meta);
        assert(stores(self.store, events, shown, meta, stored));
        let commited_events = match stored {
            Ok(envelopes) => envelopes,
            Err(e) => {
                return Err(e);
            },
        };

        let mut i: usize = 0;
        while i < self.handlers.len()
            invariant
                i <= self.handlers.len(),
                *self == *old(self),
            decreases self.handlers.len() - i,
        {
            self.handlers[i].handle(&commited_events);
            i += 1;
        }

        Ok(())
    }
}

} // verus!
