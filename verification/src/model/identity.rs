use crate::model::address::Address;
use crate::model::identifier::Identifier;
use crate::model::memvec::MembershipVector;
use vstd::prelude::*;
use vstd::std_specs::cmp::PartialEqSpecImpl;

verus! {

/// What one node knows about another: its identifier, its membership vector and its
/// address. Two identities are equal when all three agree.
#[derive(Copy, Clone, Eq, Hash, Debug)]
pub struct Identity {
    pub id: Identifier,
    pub mem_vec: MembershipVector,
    pub address: Address,
}

impl Identity {
    /// The node's identifier as a number.
    pub open spec fn key(self) -> nat {
        self.id.key()
    }

    /// Creates an identity from its parts.
    pub fn new(id: Identifier, mem_vec: MembershipVector, address: Address) -> (r: Identity)
        ensures
            r == (Identity { id, mem_vec, address }),
    {
        Identity { id, mem_vec, address }
    }

    /// Returns the node's identifier.
    pub fn id(&self) -> (r: Identifier)
        ensures
            r == self.id,
    {
        self.id
    }

    /// Returns the node's membership vector.
    pub fn mem_vec(&self) -> (r: MembershipVector)
        ensures
            r == self.mem_vec,
    {
        self.mem_vec
    }

    /// Returns the node's address.
    pub fn address(&self) -> (r: Address)
        ensures
            r == self.address,
    {
        self.address
    }
}

impl PartialEq for Identity {
    fn eq(&self, other: &Identity) -> (r: bool) {
        self.id == other.id && self.mem_vec == other.mem_vec && self.address == other.address
    }
}

impl PartialEqSpecImpl for Identity {
    open spec fn obeys_eq_spec() -> bool {
        true
    }

    open spec fn eq_spec(&self, other: &Identity) -> bool {
        *self == *other
    }
}

/// An identity gives back the parts that it was made of.
pub proof fn law_identity_gives_back_its_parts(
    parts: (Identifier, MembershipVector, Address),
    identity: Identity,
    id: Identifier,
    mem_vec: MembershipVector,
    address: Address,
)
    requires
        call_ensures(Identity::new, parts, identity),
        call_ensures(Identity::id, (&identity,), id),
        call_ensures(Identity::mem_vec, (&identity,), mem_vec),
        call_ensures(Identity::address, (&identity,), address),
    ensures
        (id, mem_vec, address) == parts,
        identity.key() == parts.0.key(),
{
}

} // verus!
