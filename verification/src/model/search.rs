use crate::lookup::LookupTableLevel;
use crate::model::direction::Direction;
use crate::model::identifier::Identifier;
use vstd::prelude::*;

verus! {

/// Correlates a reply with the request it answers. Set once by the originator of a
/// request and carried unchanged through every hop.
#[derive(Copy, Clone, PartialEq, Eq, Hash, Debug, Structural)]
pub struct Nonce {
    pub value: u128,
}

/// Draws a number with `rand::random`. Nothing is claimed of the number: it comes from
/// the thread-local generator of the `rand` crate.
#[verifier::external_body]
fn random_u128() -> (r: u128) {
    rand::random::<u128>()
}

/// Whether the generator can draw `value`.
pub closed spec fn is_draw(value: u128) -> bool {
    call_ensures(random_u128, (), value)
}

impl Nonce {
    /// Draws a fresh nonce: its number is what the random generator gave. Which number that
    /// is is left to the generator.
    pub fn random() -> (r: Nonce)
        ensures
            is_draw(r.value),
    {
        Nonce { value: random_u128() }
    }
}

/// A search for the node closest to `target` on the near side of it.
#[derive(Copy, Clone, PartialEq, Eq, Debug)]
pub struct IdSearchReq {
    /// Correlation nonce.
    pub nonce: Nonce,
    /// The identifier being searched for.
    pub target: Identifier,
    /// The node that started the search and gets the response.
    pub origin: Identifier,
    /// The highest lookup-table level that the receiver may use.
    pub level: LookupTableLevel,
    /// The side of the lookup tables along which the search moves.
    pub direction: Direction,
}

/// The outcome of a search.
#[derive(Copy, Clone, PartialEq, Eq, Debug)]
pub struct IdSearchRes {
    /// Correlation nonce of the request.
    pub nonce: Nonce,
    /// The identifier that was searched for.
    pub target: Identifier,
    /// The level at which the result was found.
    pub termination_level: LookupTableLevel,
    /// The identifier found.
    pub result: Identifier,
}

/// The number of a fresh nonce is what the generator gave, unchanged.
proof fn law_nonce_is_the_number_drawn(nonce: Nonce)
    requires
        call_ensures(Nonce::random, (), nonce),
    ensures
        call_ensures(random_u128, (), nonce.value),
{
}

} // verus!
