//! Aliases shared by the whole crate.

use std::collections::HashMap;
use vstd::prelude::*;
use crate::error::Error;
use crate::formated_event::FormatedEvent;

verus! {

/// Caller-supplied key/value pairs attached to every event of one batch.
pub type MetaData = HashMap<String, String>;

/// The envelopes a store hands out.
pub type FormatedEvents<A, E> = Vec<FormatedEvent<A, E>>;

/// What a store answers: envelopes, or the reason why there are none.
pub type FormatedResult<A, E> = Result<FormatedEvents<A, E>, Error>;

/// The meaning of a piece of metadata: which text is filed under which key.
pub open spec fn meta_entries(meta: MetaData) -> Map<Seq<char>, Seq<char>> {
    meta.deep_view()
}

/// Two maps that hold the same entries mean the same metadata.
pub proof fn same_entries_same_meaning(a: MetaData, b: MetaData)
    requires
        a@ == b@,
    ensures
        meta_entries(a) == meta_entries(b),
{
    reveal(vstd::std_specs::hash::hash_map_deep_view_impl);
}

/// A map without entries means no metadata.
pub proof fn no_entries(meta: MetaData)
    requires
        meta@ == Map::<String, String>::empty(),
    ensures
        meta_entries(meta) == Map::<Seq<char>, Seq<char>>::empty(),
{
    reveal(vstd::std_specs::hash::hash_map_deep_view_impl);
}

} // verus!
