//! Aggregates and the context a command sees them in.

use std::fmt::Debug;
use vstd::prelude::*;
use crate::text::is_lower_hex;

verus! {

/// A domain state that is rebuilt from its events alone.
///
/// The state an aggregate starts from is a fixed value, `initial()`, and the
/// name its events are filed under is a fixed text, `tag()`: whoever
/// implements the trait says what they are and shows that `Default::default`
/// and `aggregate_type` return them.
pub trait Aggregate: Sized + Debug + Default + Sync + Send {
    /// The name under which the events of this kind of aggregate are filed.
    spec fn tag() -> &'static str;

    /// The state of an aggregate that no event has touched yet.
    spec fn initial() -> Self;

    /// Whatever `Default::default` returns is the initial state.
    proof fn default_is_initial(state: Self)
        requires
            call_ensures(Self::default, (), state),
        ensures
            state == Self::initial(),
    ;

    fn aggregate_type() -> (name: &'static str)
        ensures
            name@ == Self::tag()@,
    ;
}

/// An aggregate as a command sees it: which one it is, how many events have
/// shaped it, and its current state. A context is derived from the log and
/// never stored.
pub struct AggregateContext<A: Aggregate> {
    pub id: String,
    pub version: usize,
    pub aggregate: A,
}

/// Whether a text has the form of a random identifier: 32 hexadecimal
/// digits in lower case, in groups of 8, 4, 4, 4 and 12 that hyphens join,
/// where the third group starts with the version, `4`, and the fourth with
/// the variant, one of `8`, `9`, `a` and `b`.
pub open spec fn is_random_id(id: Seq<char>) -> bool {
    &&& id.len() == 36
    &&& forall|i: int|
        0 <= i < 36 ==> if i == 8 || i == 13 || i == 18 || i == 23 {
            #[trigger] id[i] == '-'
        } else {
            is_lower_hex(id[i])
        }
    &&& id[14] == '4'
    &&& (id[19] == '8' || id[19] == '9' || id[19] == 'a' || id[19] == 'b')
}

/// `Uuid::new_v4` of the `uuid` crate, written out with `to_string`: 128
/// random bits, but for the version and the variant, in the hyphenated form
/// in lower case. Two calls need not return the same text. The call panics
/// where the operating system's source of random bytes fails.
#[verifier::external_body]
fn fresh_id() -> (id: String)
    ensures
        is_random_id(id@),
{
    uuid::Uuid::new_v4().to_string()
}

impl<A: Aggregate> AggregateContext<A> {
    pub fn aggregate(&self) -> (state: &A)
        ensures
            *state == self.aggregate,
    {
        &self.aggregate
    }

    /// Names the aggregate: by the given identifier, or, where none is given,
    /// by a freshly drawn one. Version and state stay as they are.
    pub fn set_id(&mut self, id: Option<String>)
        ensures
            final(self).version == old(self).version,
            final(self).aggregate == old(self).aggregate,
            id matches Some(given) ==> final(self).id == given,
            id is None ==> is_random_id(final(self).id@),
    {
        self.id = match id {
            Some(x) => x,
            None => fresh_id(),
        };
    }
}

impl<A: Aggregate> Default for AggregateContext<A> {
    /// The context of an aggregate that has no name and no history yet.
    fn default() -> (context: AggregateContext<A>)
        ensures
            context.id@ == Seq::<char>::empty(),
            context.version == 0,
            context.aggregate == A::initial(),
    {
        let aggregate = A::default();
        proof {
            A::default_is_initial(aggregate);
        }
        AggregateContext { id: String::default(), version: 0_usize, aggregate }
    }
}

} // verus!
