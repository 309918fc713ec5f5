//! The event log as a sequence of envelopes: what its answers are, the
//! operations on a log held in memory that every store shares, and the laws
//! they obey.

use vstd::prelude::*;
use crate::aggregate::{is_random_id, Aggregate, AggregateContext};
use crate::domain_event::{replay, replay_in_two_steps, DomainEvent};
use crate::error::Error;
use crate::formated_event::{envelopes, payloads, wraps, Envelope, FormatedEvent};
use crate::text::{opt_chars, str_eq};
use crate::types::{meta_entries, FormatedResult, MetaData};

verus! {


/// Whether an envelope belongs to the aggregate `id` of kind `tag`.
pub open spec fn belongs_to<E>(envelope: Envelope<E>, id: Seq<char>, tag: Seq<char>) -> bool {
    envelope.aggregate_id == id && envelope.aggregate_type == tag
}

/// Whether an envelope is of interest to a read model of the aggregates of
/// kind `tag`, asked for with `id`: every envelope of that kind is, and so is
/// every envelope filed under the identifier, where one is given.
pub open spec fn concerns<E>(envelope: Envelope<E>, id: Option<Seq<char>>, tag: Seq<char>) -> bool {
    envelope.aggregate_type == tag || (id matches Some(wanted) && envelope.aggregate_id == wanted)
}

/// The history of one aggregate: the envelopes of `log` that belong to it, in
/// the order of the log.
pub open spec fn history_of<E>(log: Seq<Envelope<E>>, id: Seq<char>, tag: Seq<char>) -> Seq<
    Envelope<E>,
> {
    log.filter(|envelope: Envelope<E>| belongs_to(envelope, id, tag))
}

/// What a read model is fed: the envelopes of `log` that concern it, in the
/// order of the log.
pub open spec fn slice_for_query<E>(
    log: Seq<Envelope<E>>,
    id: Option<Seq<char>>,
    tag: Seq<char>,
) -> Seq<Envelope<E>> {
    log.filter(|envelope: Envelope<E>| concerns(envelope, id, tag))
}

/// The version an aggregate stands at after `history`: that of its last
/// envelope, and 0 where it has none.
pub open spec fn last_version<E>(history: Seq<Envelope<E>>) -> nat {
    if history.len() == 0 {
        0
    } else {
        history.last().version
    }
}

/// Whether `context` is what replaying `history` from the initial state
/// gives.
pub open spec fn rebuilt_from<A: Aggregate, E: DomainEvent<A>>(
    context: AggregateContext<A>,
    history: Seq<Envelope<E>>,
) -> bool {
    &&& context.aggregate == replay(payloads(history), A::initial())
    &&& context.version == last_version(history)
}

/// Whether `context` is what replaying some history of the aggregate `id`
/// gives, namely `history`.
pub open spec fn rebuilt_for<A: Aggregate, E: DomainEvent<A>>(
    context: AggregateContext<A>,
    id: Seq<char>,
    history: Seq<Envelope<E>>,
) -> bool {
    &&& context.id@ == id
    &&& rebuilt_from(context, history)
    &&& forall|i: int| 0 <= i < history.len() ==> belongs_to(#[trigger] history[i], id, A::tag()@)
}

/// The envelopes of `log` that belong to the aggregate `aggregate_id` of kind
/// `A`, in the order of the log.
pub fn retrieve_from<A: Aggregate, E: DomainEvent<A>>(
    log: &Vec<FormatedEvent<A, E>>,
    aggregate_id: &str,
) -> (found: Vec<FormatedEvent<A, E>>)
    ensures
        envelopes(found@) == history_of(envelopes(log@), aggregate_id@, A::tag()@),
{
    let mut filtered_events: Vec<FormatedEvent<A, E>> = Vec::new();
    let ghost wanted = |envelope: Envelope<E>| belongs_to(envelope, aggregate_id@, A::tag()@);
    let mut i: usize = 0;
    proof {
        reveal(Seq::filter);
    }
    while i < log.len()
        invariant
            i <= log.len(),
            wanted == |envelope: Envelope<E>| belongs_to(envelope, aggregate_id@, A::tag()@),
            envelopes(filtered_events@) == envelopes(log@).take(i as int).filter(wanted),
        decreases log.len() - i,
    {
        let e = &log[i];
        let keep = str_eq(e.aggregate_id.as_str(), aggregate_id) && str_eq(
            e.aggregate_type.as_str(),
            A::aggregate_type(),
        );
        if keep {
            filtered_events.push(e.clone());
        }
        proof {
            let seen = envelopes(log@).take(i as int);
            assert(envelopes(log@).take(i + 1) =~= seen.push(e@));
            seen.lemma_filter_push(e@, wanted);
        }
        i += 1;
    }
    assert(envelopes(log@).take(log.len() as int) =~= envelopes(log@));
    filtered_events
}

/// The envelopes of `log` that a read model of the aggregates of kind `A` is
/// built from, in the order of the log: all of that kind, and, where an
/// identifier is given, those filed under it as well.
pub fn retrieve_for_query_from<A: Aggregate, E: DomainEvent<A>>(
    log: &Vec<FormatedEvent<A, E>>,
    aggregate_id: Option<&str>,
) -> (found: Vec<FormatedEvent<A, E>>)
    ensures
        envelopes(found@) == slice_for_query(
            envelopes(log@),
            opt_chars(aggregate_id),
            A::tag()@,
        ),
{
    let mut filtered_events: Vec<FormatedEvent<A, E>> = Vec::new();
    let ghost wanted = |envelope: Envelope<E>|
        concerns(envelope, opt_chars(aggregate_id), A::tag()@);
    let mut i: usize = 0;
    proof {
        reveal(Seq::filter);
    }
    while i < log.len()
        invariant
            i <= log.len(),
            wanted == |envelope: Envelope<E>|
                concerns(envelope, opt_chars(aggregate_id), A::tag()@),
            envelopes(filtered_events@) == envelopes(log@).take(i as int).filter(wanted),
        decreases log.len() - i,
    {
        let e = &log[i];
        let by_id = match aggregate_id {
            Some(id) => str_eq(e.aggregate_id.as_str(), id),
            None => false,
        };
        let keep = by_id || str_eq(e.aggregate_type.as_str(), A::aggregate_type());
        if keep {
            filtered_events.push(e.clone());
        }
        proof {
            let seen = envelopes(log@).take(i as int);
            assert(envelopes(log@).take(i + 1) =~= seen.push(e@));
            seen.lemma_filter_push(e@, wanted);
        }
        i += 1;
    }
    assert(envelopes(log@).take(log.len() as int) =~= envelopes(log@));
    filtered_events
}

/// Replays `history` into `context`: each event is applied to the state in
/// turn, and the context moves to the version of the envelope it came in.
pub fn replay_into<A: Aggregate, E: DomainEvent<A>>(
    context: &mut AggregateContext<A>,
    history: Vec<FormatedEvent<A, E>>,
)
    ensures
        final(context).id == old(context).id,
        final(context).aggregate == replay(
            payloads(envelopes(history@)),
            old(context).aggregate,
        ),
        final(context).version == (if history@.len() == 0 {
            old(context).version as nat
        } else {
            last_version(envelopes(history@))
        }),
{
    let ghost all = history@;
    for fmt_event in iter: history
        invariant
            iter.seq() == all,
            context.id == old(context).id,
            context.aggregate == replay(
                payloads(envelopes(all.take(iter.index() as int))),
                old(context).aggregate,
            ),
            context.version == (if iter.index() == 0 {
                old(context).version as nat
            } else {
                last_version(envelopes(all.take(iter.index() as int)))
            }),
    {
        proof {
            let k = iter.index() as int;
            assert(payloads(envelopes(all.take(k + 1))).drop_last() =~= payloads(
                envelopes(all.take(k)),
            ));
        }
        let version = fmt_event.version;
        fmt_event.payload.apply(&mut context.aggregate);
        context.version = version;
    }
    assert(all.take(all.len() as int) =~= all);
}

/// Stamps the events a command produced against `context`, for a store to
/// keep: one envelope for each event, in order, numbered from the version
/// after that of the context. No events give no envelopes. The one refusal
/// is for versions that would leave the range of `usize`.
pub fn stamp<A: Aggregate, E: DomainEvent<A>>(
    events: Vec<E>,
    context: AggregateContext<A>,
    meta: MetaData,
) -> (outcome: FormatedResult<A, E>)
    ensures
        outcome is Ok <==> context.version + events@.len() <= usize::MAX,
        outcome matches Ok(batch) ==> wraps(
            envelopes(batch@),
            context.id@,
            A::tag()@,
            context.version as nat,
            events@,
            meta_entries(meta),
        ),
        outcome matches Err(e) ==> e == version_out_of_range(),
{
    if events.len() > usize::MAX - context.version {
        return Err(Error::new("Event version out of range", Some("INTERNAL"), None));
    }
    Ok(FormatedEvent::create_many(context.id.as_str(), context.version, events, meta))
}

/// The error that stands for a version beyond the range of `usize`.
pub open spec fn version_out_of_range() -> Error {
    Error::spec_new("Event version out of range", Some("INTERNAL"), None)
}

/// Rebuilds an aggregate from a log held in memory. With an identifier, the
/// context is the replay of the history that the log holds of that
/// aggregate; with none, it is an untouched aggregate under a new name.
pub fn assemble_from<A: Aggregate, E: DomainEvent<A>>(
    log: &Vec<FormatedEvent<A, E>>,
    id: Option<String>,
) -> (context: AggregateContext<A>)
    ensures
        match id {
            Some(given) => rebuilt_for(
                context,
                given@,
                history_of(envelopes(log@), given@, A::tag()@),
            ),
            None => {
                &&& is_random_id(context.id@)
                &&& context.version == 0
                &&& context.aggregate == A::initial()
            },
        },
{
    let mut context: AggregateContext<A> = AggregateContext::default();
    match id {
        Some(x) => {
            let history = retrieve_from(log, x.as_str());
            context.set_id(Some(x));
            replay_into(&mut context, history);
            proof {
                let ghost wanted = |envelope: Envelope<E>| belongs_to(envelope, x@, A::tag()@);
                assert forall|i: int| 0 <= i < envelopes(history@).len() implies belongs_to(
                    #[trigger] envelopes(history@)[i],
                    x@,
                    A::tag()@,
                ) by {
                    envelopes(log@).lemma_filter_pred(wanted, i);
                }
            }
        },
        None => {
            context.set_id(None);
        },
    }
    context
}

/// Whether the versions of a history count up from 1 without a gap.
pub open spec fn gapless<E>(history: Seq<Envelope<E>>) -> bool {
    forall|i: int| 0 <= i < history.len() ==> (#[trigger] history[i]).version == i + 1
}

/// Every envelope of a history belongs to the aggregate the history is of,
/// and every envelope of a slice concerns the read model the slice is for.
pub proof fn answers_hold_what_was_asked<E>(
    log: Seq<Envelope<E>>,
    id: Seq<char>,
    wanted: Option<Seq<char>>,
    tag: Seq<char>,
)
    ensures
        forall|i: int|
            0 <= i < history_of(log, id, tag).len() ==> belongs_to(
                #[trigger] history_of(log, id, tag)[i],
                id,
                tag,
            ),
        forall|i: int|
            0 <= i < slice_for_query(log, wanted, tag).len() ==> concerns(
                #[trigger] slice_for_query(log, wanted, tag)[i],
                wanted,
                tag,
            ),
{
    let in_history = |envelope: Envelope<E>| belongs_to(envelope, id, tag);
    let in_slice = |envelope: Envelope<E>| concerns(envelope, wanted, tag);
    assert forall|i: int| 0 <= i < history_of(log, id, tag).len() implies belongs_to(
        #[trigger] history_of(log, id, tag)[i],
        id,
        tag,
    ) by {
        log.lemma_filter_pred(in_history, i);
    }
    assert forall|i: int| 0 <= i < slice_for_query(log, wanted, tag).len() implies concerns(
        #[trigger] slice_for_query(log, wanted, tag)[i],
        wanted,
        tag,
    ) by {
        log.lemma_filter_pred(in_slice, i);
    }
}

/// Two contexts rebuilt from histories that carry the same events are in
/// the same state: the state depends on the events and their order, and
/// on nothing else.
pub proof fn replay_is_deterministic<A: Aggregate, E: DomainEvent<A>>(
    first: AggregateContext<A>,
    second: AggregateContext<A>,
    history: Seq<Envelope<E>>,
    again: Seq<Envelope<E>>,
)
    requires
        rebuilt_from(first, history),
        rebuilt_from(second, again),
        payloads(history) == payloads(again),
    ensures
        first.aggregate == second.aggregate,
{
}

/// A batch that is appended for an aggregate lengthens the history of that
/// aggregate by itself.
pub proof fn history_grows_by_own_batch<E>(
    log: Seq<Envelope<E>>,
    batch: Seq<Envelope<E>>,
    id: Seq<char>,
    tag: Seq<char>,
)
    requires
        forall|i: int| 0 <= i < batch.len() ==> belongs_to(#[trigger] batch[i], id, tag),
    ensures
        history_of(log + batch, id, tag) == history_of(log, id, tag) + batch,
{
    let mine = |envelope: Envelope<E>| belongs_to(envelope, id, tag);
    Seq::filter_distributes_over_add(log, batch, mine);
    keeps_all(batch, mine);
}

/// A batch that is appended for other aggregates leaves the history of this
/// one as it is.
pub proof fn history_ignores_foreign_batch<E>(
    log: Seq<Envelope<E>>,
    batch: Seq<Envelope<E>>,
    id: Seq<char>,
    tag: Seq<char>,
)
    requires
        forall|i: int| 0 <= i < batch.len() ==> !belongs_to(#[trigger] batch[i], id, tag),
    ensures
        history_of(log + batch, id, tag) == history_of(log, id, tag),
{
    let mine = |envelope: Envelope<E>| belongs_to(envelope, id, tag);
    Seq::filter_distributes_over_add(log, batch, mine);
    batch.lemma_all_neg_filter_empty(mine);
}

/// After `events` are appended against a context that stands where the log
/// stands, the aggregate stands as many versions further as there were
/// events, its versions still count up without a gap, and its state is the
/// state of the context with the events applied.
pub proof fn append_moves_aggregate<A: Aggregate, E: DomainEvent<A>>(
    log: Seq<Envelope<E>>,
    batch: Seq<Envelope<E>>,
    context: AggregateContext<A>,
    events: Seq<E>,
    meta: Map<Seq<char>, Seq<char>>,
)
    requires
        rebuilt_from(context, history_of(log, context.id@, A::tag()@)),
        wraps(batch, context.id@, A::tag()@, context.version as nat, events, meta),
    ensures
        last_version(history_of(log + batch, context.id@, A::tag()@)) == context.version
            + events.len(),
        gapless(history_of(log, context.id@, A::tag()@)) ==> gapless(
            history_of(log + batch, context.id@, A::tag()@),
        ),
        replay(payloads(history_of(log + batch, context.id@, A::tag()@)), A::initial())
            == replay(events, context.aggregate),
{
    let id = context.id@;
    let tag = A::tag()@;
    let before = history_of(log, id, tag);
    let after = history_of(log + batch, id, tag);
    history_grows_by_own_batch(log, batch, id, tag);
    assert(payloads(after) =~= payloads(before) + events);
    replay_in_two_steps(payloads(before), events, A::initial());
    if gapless(before) {
        assert forall|i: int| 0 <= i < after.len() implies (#[trigger] after[i]).version == i
            + 1 by {}
    }
}

/// An append of no events gives no envelopes and leaves the log as it is.
pub proof fn append_of_nothing_changes_nothing<E>(
    log: Seq<Envelope<E>>,
    batch: Seq<Envelope<E>>,
    id: Seq<char>,
    tag: Seq<char>,
    version: nat,
    meta: Map<Seq<char>, Seq<char>>,
)
    requires
        wraps(batch, id, tag, version, Seq::<E>::empty(), meta),
    ensures
        batch == Seq::<Envelope<E>>::empty(),
        log + batch == log,
{
}

/// Two appends that were both decided against the same context give the
/// aggregate the same version twice: a store does not notice, so an
/// aggregate must have one writer at a time.
pub proof fn appends_against_one_context_collide<A: Aggregate, E: DomainEvent<A>>(
    log: Seq<Envelope<E>>,
    first: Seq<Envelope<E>>,
    second: Seq<Envelope<E>>,
    context: AggregateContext<A>,
    events: Seq<E>,
    others: Seq<E>,
    meta: Map<Seq<char>, Seq<char>>,
)
    requires
        wraps(first, context.id@, A::tag()@, context.version as nat, events, meta),
        wraps(second, context.id@, A::tag()@, context.version as nat, others, meta),
        events.len() > 0,
        others.len() > 0,
    ensures
        !gapless(history_of(log + first + second, context.id@, A::tag()@)),
{
    let id = context.id@;
    let tag = A::tag()@;
    let before = history_of(log, id, tag);
    let after = history_of(log + first + second, id, tag);
    history_grows_by_own_batch(log, first, id, tag);
    history_grows_by_own_batch(log + first, second, id, tag);
    let i = before.len() as int;
    let j = (before.len() + first.len()) as int;
    assert(after[i].version == after[j].version);
}

/// The history of an aggregate holds no envelope of another kind, and is
/// the same whether or not the log holds envelopes of other kinds: two
/// aggregates that share an identifier and differ in kind never see each
/// other's events.
pub proof fn history_keeps_to_its_kind<E>(
    log: Seq<Envelope<E>>,
    id: Seq<char>,
    tag: Seq<char>,
    other_tag: Seq<char>,
)
    requires
        other_tag != tag,
    ensures
        forall|i: int|
            0 <= i < history_of(log, id, tag).len() ==> !history_of(log, id, other_tag).contains(
                #[trigger] history_of(log, id, tag)[i],
            ),
        history_of(log.filter(|envelope: Envelope<E>| envelope.aggregate_type == tag), id, tag)
            == history_of(log, id, tag),
{
    let mine = |envelope: Envelope<E>| belongs_to(envelope, id, tag);
    let theirs = |envelope: Envelope<E>| belongs_to(envelope, id, other_tag);
    let of_kind = |envelope: Envelope<E>| envelope.aggregate_type == tag;
    assert forall|i: int| 0 <= i < history_of(log, id, tag).len() implies !history_of(
        log,
        id,
        other_tag,
    ).contains(#[trigger] history_of(log, id, tag)[i]) by {
        let envelope = history_of(log, id, tag)[i];
        log.lemma_filter_pred(mine, i);
        if history_of(log, id, other_tag).contains(envelope) {
            let j = choose|j: int|
                0 <= j < history_of(log, id, other_tag).len() && history_of(log, id, other_tag)[j]
                    == envelope;
            log.lemma_filter_pred(theirs, j);
        }
    }
    filter_of_filter(log, of_kind, mine);
}

/// What a read model is fed when it asks with an identifier is the union
/// of what is filed under the identifier and what is of its kind of
/// aggregate, whether or not the two overlap; without an identifier it is
/// what is of its kind.
pub proof fn query_slice_is_union<E>(log: Seq<Envelope<E>>, id: Seq<char>, tag: Seq<char>)
    ensures
        forall|envelope: Envelope<E>| #[trigger]
            slice_for_query(log, Some(id), tag).contains(envelope) <==> log.filter(
                |e: Envelope<E>| e.aggregate_id == id,
            ).contains(envelope) || log.filter(
                |e: Envelope<E>| e.aggregate_type == tag,
            ).contains(envelope),
        slice_for_query(log, None, tag) == log.filter(|e: Envelope<E>| e.aggregate_type == tag),
{
    let either = |e: Envelope<E>| concerns(e, Some(id), tag);
    let by_id = |e: Envelope<E>| e.aggregate_id == id;
    let by_kind = |e: Envelope<E>| e.aggregate_type == tag;
    let no_id = |e: Envelope<E>| concerns(e, None, tag);
    assert forall|envelope: Envelope<E>| #[trigger]
        slice_for_query(log, Some(id), tag).contains(envelope) <==> log.filter(by_id).contains(
            envelope,
        ) || log.filter(by_kind).contains(envelope) by {
        member_of_filter(log, either, envelope);
        member_of_filter(log, by_id, envelope);
        member_of_filter(log, by_kind, envelope);
    }
    same_filter(log, no_id, by_kind);
}

/// A filter keeps every element of a sequence that passes it.
proof fn keeps_all<T>(s: Seq<T>, pred: spec_fn(T) -> bool)
    requires
        forall|i: int| 0 <= i < s.len() ==> pred(#[trigger] s[i]),
    ensures
        s.filter(pred) == s,
    decreases s.len(),
{
    reveal(Seq::filter);
    if s.len() > 0 {
        keeps_all(s.drop_last(), pred);
    }
}

/// Two tests that agree on every element of a sequence filter it alike.
proof fn same_filter<T>(s: Seq<T>, p: spec_fn(T) -> bool, q: spec_fn(T) -> bool)
    requires
        forall|i: int| 0 <= i < s.len() ==> p(#[trigger] s[i]) == q(s[i]),
    ensures
        s.filter(p) == s.filter(q),
    decreases s.len(),
{
    reveal(Seq::filter);
    if s.len() > 0 {
        same_filter(s.drop_last(), p, q);
    }
}

/// Filtering by a test and then by a stricter one is filtering by the
/// stricter one.
proof fn filter_of_filter<T>(s: Seq<T>, p: spec_fn(T) -> bool, q: spec_fn(T) -> bool)
    requires
        forall|x: T| #[trigger] q(x) ==> p(x),
    ensures
        s.filter(p).filter(q) == s.filter(q),
    decreases s.len(),
{
    reveal(Seq::filter);
    if s.len() > 0 {
        let rest = s.drop_last();
        filter_of_filter(rest, p, q);
        if p(s.last()) {
            rest.filter(p).lemma_filter_push(s.last(), q);
        }
    }
}

/// What a filter of a sequence holds: the elements of the sequence that
/// pass it.
proof fn member_of_filter<T>(s: Seq<T>, pred: spec_fn(T) -> bool, x: T)
    ensures
        s.filter(pred).contains(x) <==> s.contains(x) && pred(x),
{
    if s.filter(pred).contains(x) {
        s.lemma_filter_contains_rev(pred, x);
        let i = choose|i: int| 0 <= i < s.filter(pred).len() && s.filter(pred)[i] == x;
        s.lemma_filter_pred(pred, i);
    }
    if s.contains(x) && pred(x) {
        let i = choose|i: int| 0 <= i < s.len() && s[i] == x;
        s.lemma_filter_contains(pred, i);
    }
}

} // verus!
