//! The envelope an event is stored in.

use std::marker::PhantomData;
use vstd::prelude::*;
use crate::aggregate::Aggregate;
use crate::domain_event::DomainEvent;
use crate::text::{are_digits, are_letters};
use crate::types::{meta_entries, same_entries_same_meaning, MetaData};

verus! {

/// What an envelope says, as plain values.
pub struct Envelope<E> {
    /// Which aggregate the event belongs to.
    pub aggregate_id: Seq<char>,
    /// Which kind of aggregate that is.
    pub aggregate_type: Seq<char>,
    /// The position of the event in the history of its aggregate.
    pub version: nat,
    /// The event itself.
    pub payload: E,
    /// The metadata of the batch the event was appended with.
    pub meta: Map<Seq<char>, Seq<char>>,
    /// When the envelope was made.
    pub created_at: Seq<char>,
}

/// A domain event together with its place in the log.
#[derive(Debug)]
pub struct FormatedEvent<A: Aggregate, E: DomainEvent<A>> {
    pub aggregate_id: String,
    pub aggregate_type: String,
    pub version: usize,
    pub payload: E,
    pub meta: MetaData,
    pub created_at: String,
    pub _phantom: PhantomData<A>,
}

impl<A: Aggregate, E: DomainEvent<A>> View for FormatedEvent<A, E> {
    type V = Envelope<E>;

    open spec fn view(&self) -> Envelope<E> {
        Envelope {
            aggregate_id: self.aggregate_id@,
            aggregate_type: self.aggregate_type@,
            version: self.version as nat,
            payload: self.payload,
            meta: meta_entries(self.meta),
            created_at: self.created_at@,
        }
    }
}

/// What each envelope of a sequence says.
pub open spec fn envelopes<A: Aggregate, E: DomainEvent<A>>(
    events: Seq<FormatedEvent<A, E>>,
) -> Seq<Envelope<E>> {
    events.map_values(|event: FormatedEvent<A, E>| event@)
}

/// The events that a sequence of envelopes carries.
pub open spec fn payloads<E>(history: Seq<Envelope<E>>) -> Seq<E> {
    history.map_values(|envelope: Envelope<E>| envelope.payload)
}

/// Whether `batch` wraps `events`, one envelope each and in the same order,
/// for the aggregate `id` of kind `tag`: with the versions that follow
/// `version` without a gap, and each with the metadata `meta`.
pub open spec fn wraps<E>(
    batch: Seq<Envelope<E>>,
    id: Seq<char>,
    tag: Seq<char>,
    version: nat,
    events: Seq<E>,
    meta: Map<Seq<char>, Seq<char>>,
) -> bool {
    &&& batch.len() == events.len()
    &&& forall|i: int|
        0 <= i < batch.len() ==> {
            &&& (#[trigger] batch[i]).aggregate_id == id
            &&& batch[i].aggregate_type == tag
            &&& batch[i].version == version + i + 1
            &&& batch[i].payload == events[i]
            &&& batch[i].meta == meta
        }
}

/// Whether a text has the form of a time in UTC written out after RFC 2822,
/// such as `Tue, 1 Jul 2003 10:52:37 +0000`: the day of the week, the day
/// of the month in one or two digits, the month, the year in four digits,
/// the time of day, and the offset `+0000`.
pub open spec fn is_utc_stamp(stamp: Seq<char>) -> bool {
    let d = stamp.len() - 29;
    &&& 1 <= d <= 2
    &&& are_letters(stamp.subrange(0, 3))
    &&& stamp.subrange(3, 5) == seq![',', ' ']
    &&& are_digits(stamp.subrange(5, 5 + d))
    &&& stamp[5 + d] == ' '
    &&& are_letters(stamp.subrange(6 + d, 9 + d))
    &&& stamp[9 + d] == ' '
    &&& are_digits(stamp.subrange(10 + d, 14 + d))
    &&& stamp[14 + d] == ' '
    &&& are_digits(stamp.subrange(15 + d, 17 + d))
    &&& stamp[17 + d] == ':'
    &&& are_digits(stamp.subrange(18 + d, 20 + d))
    &&& stamp[20 + d] == ':'
    &&& are_digits(stamp.subrange(21 + d, 23 + d))
    &&& stamp.subrange(23 + d, 29 + d) == seq![' ', '+', '0', '0', '0', '0']
}

/// `Utc::now` of the `chrono` crate, written out with `to_rfc2822`: the
/// current time as text such as `Tue, 1 Jul 2003 10:52:37 +0000`. The day
/// of the week and the month are the first three letters of their English
/// names, the day of the month is not padded, and the offset of UTC is
/// written `+0000`. The text differs from call to call. The call panics
/// where the system clock stands before 1970 or after the year 9999.
#[verifier::external_body]
fn now_rfc2822() -> (stamp: String)
    ensures
        is_utc_stamp(stamp@),
{
    chrono::Utc::now().to_rfc2822()
}

impl<A: Aggregate, E: DomainEvent<A>> Clone for FormatedEvent<A, E> {
    fn clone(&self) -> (copy: FormatedEvent<A, E>)
        ensures
            copy@ == self@,
    {
        let payload = self.payload.clone();
        let meta = self.meta.clone();
        proof {
            E::clone_is_copy(self.payload, payload);
            same_entries_same_meaning(self.meta, meta);
        }
        FormatedEvent {
            aggregate_id: self.aggregate_id.clone(),
            aggregate_type: self.aggregate_type.clone(),
            version: self.version,
            payload,
            meta,
            created_at: self.created_at.clone(),
            _phantom: PhantomData,
        }
    }
}

impl<A: Aggregate, E: DomainEvent<A>> FormatedEvent<A, E> {
    /// Wraps one event. The envelope is stamped with `created_at` where one
    /// is given, and with the current time (RFC 2822) where none is.
    pub fn new(
        aggregate_id: String,
        aggregate_type: String,
        version: usize,
        payload: E,
        meta: MetaData,
        created_at: Option<&str>,
    ) -> (event: FormatedEvent<A, E>)
        ensures
            event.aggregate_id == aggregate_id,
            event.aggregate_type == aggregate_type,
            event.version == version,
            event.payload == payload,
            event.meta == meta,
            created_at matches Some(stamp) ==> event.created_at@ == stamp@,
            created_at is None ==> is_utc_stamp(event.created_at@),
    {
        FormatedEvent {
            aggregate_id,
            aggregate_type,
            version,
            payload,
            meta,
            created_at: match created_at {
                Some(x) => x.to_owned(),
                None => now_rfc2822(),
            },
            _phantom: PhantomData,
        }
    }

    /// Wraps the events a command produced for the aggregate `aggregate_id`,
    /// which stands at `current_version`: the first event gets the next
    /// version, and so on without a gap.
    pub fn create_many(
        aggregate_id: &str,
        current_version: usize,
        events: Vec<E>,
        meta: MetaData,
    ) -> (batch: Vec<FormatedEvent<A, E>>)
        requires
            current_version + events.len() <= usize::MAX,
        ensures
            wraps(
                envelopes(batch@),
                aggregate_id@,
                A::tag()@,
                current_version as nat,
                events@,
                meta_entries(meta),
            ),
            forall|i: int| 0 <= i < batch@.len() ==> is_utc_stamp((#[trigger] batch@[i]).created_at@),
    {
        let mut formated_events: Vec<FormatedEvent<A, E>> = Vec::new();
        let mut version = current_version;
        let ghost all = events@;

        for payload in iter: events
            invariant
                iter.seq() == all,
                current_version + all.len() <= usize::MAX,
                version == current_version + iter.index(),
                wraps(
                    envelopes(formated_events@),
                    aggregate_id@,
                    A::tag()@,
                    current_version as nat,
                    all.take(iter.index() as int),
                    meta_entries(meta),
                ),
                forall|i: int|
                    0 <= i < formated_events@.len() ==> is_utc_stamp(
                        (#[trigger] formated_events@[i]).created_at@,
                    ),
        {
            let aggregate_type = A::aggregate_type().to_owned();
            version += 1;
            let copy = meta.clone();
            let ghost done = formated_events@;
            let event = FormatedEvent::new(
                aggregate_id.to_owned(),
                aggregate_type,
                version,
                payload,
                copy,
                None,
            );
            formated_events.push(event);
            proof {
                same_entries_same_meaning(meta, copy);
                let k = iter.index() as int;
                let batch = envelopes(formated_events@);
                assert forall|i: int| 0 <= i < batch.len() implies {
                    &&& (#[trigger] batch[i]).aggregate_id == aggregate_id@
                    &&& batch[i].aggregate_type == A::tag()@
                    &&& batch[i].version == current_version + i + 1
                    &&& batch[i].payload == all.take(k + 1)[i]
                    &&& batch[i].meta == meta_entries(meta)
                } by {
                    if i < k {
                        assert(batch[i] == envelopes(done)[i]);
                    }
                }
            }
        }
        formated_events
    }
}

} // verus!
