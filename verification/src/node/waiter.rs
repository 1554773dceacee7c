use crate::model::search::Nonce;
use std::collections::HashMap;
use vstd::prelude::*;

verus! {

/// The handles through which replies are passed to the callers that wait for them, one
/// type for each kind of request.
pub trait ReplyChannels {
    type Search;

    type MaxLevel;

    type Neighbor;

    type Link;
}

/// An outstanding request that waits for a reply from the network.
pub enum Waiter<C: ReplyChannels> {
    /// A search, resolved by a `SearchByIdResponse`.
    AsyncSearch(C::Search),
    /// A request for the highest level, resolved by a `RetMaxLevelOp`.
    MaxLevel(C::MaxLevel),
    /// A request for a neighbor, resolved by a `RetNeighborOp`.
    Neighbor(C::Neighbor),
    /// A link request, resolved by a `SetLinkOp`.
    Link(C::Link),
}

/// The kinds of outstanding requests.
#[derive(Copy, Clone, PartialEq, Eq, Debug, Structural)]
pub enum WaiterKind {
    AsyncSearch,
    MaxLevel,
    Neighbor,
    Link,
}

impl<C: ReplyChannels> Waiter<C> {
    /// The kind of request that waits.
    pub open spec fn spec_kind(self) -> WaiterKind {
        match self {
            Waiter::AsyncSearch(_) => WaiterKind::AsyncSearch,
            Waiter::MaxLevel(_) => WaiterKind::MaxLevel,
            Waiter::Neighbor(_) => WaiterKind::Neighbor,
            Waiter::Link(_) => WaiterKind::Link,
        }
    }

    /// Returns the kind of request that waits.
    pub fn kind(&self) -> (r: WaiterKind)
        ensures
            r == self.spec_kind(),
    {
        match self {
            Waiter::AsyncSearch(_) => WaiterKind::AsyncSearch,
            Waiter::MaxLevel(_) => WaiterKind::MaxLevel,
            Waiter::Neighbor(_) => WaiterKind::Neighbor,
            Waiter::Link(_) => WaiterKind::Link,
        }
    }
}

/// The waiters by the number of their nonce.
pub type Waiters<C> = Map<u128, Waiter<C>>;

/// Whether a request of the given kind waits under `nonce`.
pub open spec fn awaits<C: ReplyChannels>(
    waiters: Waiters<C>,
    nonce: Nonce,
    kind: WaiterKind,
) -> bool {
    waiters.dom().contains(nonce.value) && waiters[nonce.value].spec_kind() == kind
}

/// The requests that a node has outstanding, by nonce.
pub struct WaiterMap<C: ReplyChannels> {
    map: HashMap<u128, Waiter<C>>,
}

impl<C: ReplyChannels> View for WaiterMap<C> {
    type V = Waiters<C>;

    closed spec fn view(&self) -> Waiters<C> {
        self.map@
    }
}

impl<C: ReplyChannels> WaiterMap<C> {
    /// Creates a map without waiters.
    pub fn new() -> (r: WaiterMap<C>)
        ensures
            r@ == Map::<u128, Waiter<C>>::empty(),
    {
        WaiterMap { map: HashMap::new() }
    }

    /// Whether no request is outstanding.
    pub fn is_empty(&self) -> (r: bool)
        ensures
            r == self@.is_empty(),
    {
        broadcast use vstd::std_specs::hash::group_hash_axioms;

        self.map.is_empty()
    }

    /// Registers a waiter under `nonce`, in place of one that is already there.
    pub fn register(&mut self, nonce: Nonce, waiter: Waiter<C>)
        ensures
            final(self)@ == old(self)@.insert(nonce.value, waiter),
    {
        broadcast use vstd::std_specs::hash::group_hash_axioms;

        self.map.insert(nonce.value, waiter);
    }

    /// Removes and returns the waiter under `nonce`, but only when it is of the expected
    /// kind. A waiter of another kind is left in place, since it may belong to a different
    /// request.
    pub fn take(&mut self, nonce: Nonce, expected: WaiterKind) -> (r: Option<Waiter<C>>)
        ensures
            if awaits(old(self)@, nonce, expected) {
                &&& r == Some(old(self)@[nonce.value])
                &&& final(self)@ == old(self)@.remove(nonce.value)
            } else {
                r is None && final(self)@ == old(self)@
            },
    {
        broadcast use vstd::std_specs::hash::group_hash_axioms;

        let matches = match self.map.get(&nonce.value) {
            Some(waiter) => waiter.kind() == expected,
            None => false,
        };
        if matches {
            self.map.remove(&nonce.value)
        } else {
            None
        }
    }

    /// Removes the waiter under `nonce`, whatever its kind, if there is one.
    pub fn forget(&mut self, nonce: Nonce)
        ensures
            final(self)@ == old(self)@.remove(nonce.value),
    {
        broadcast use vstd::std_specs::hash::group_hash_axioms;

        self.map.remove(&nonce.value);
    }
}

/// A waiter that was registered is taken under its nonce, once, by whoever expects its kind
/// and by nobody else. Taking it leaves every other waiter in place.
pub proof fn law_registered_waiter_is_taken_by_its_kind<C: ReplyChannels>(
    register: (&mut WaiterMap<C>, Nonce, Waiter<C>),
    take: (&mut WaiterMap<C>, Nonce, WaiterKind),
    r: Option<Waiter<C>>,
)
    requires
        call_ensures(WaiterMap::<C>::register, register, ()),
        old(take.0)@ == final(register.0)@,
        take.1 == register.1,
        call_ensures(WaiterMap::<C>::take, take, r),
    ensures
        match (register.2, take.2) {
            (Waiter::AsyncSearch(_), WaiterKind::AsyncSearch)
            | (Waiter::MaxLevel(_), WaiterKind::MaxLevel)
            | (Waiter::Neighbor(_), WaiterKind::Neighbor)
            | (Waiter::Link(_), WaiterKind::Link) => {
                &&& r matches Some(taken) && taken == register.2
                &&& !final(take.0)@.dom().contains(take.1.value)
            },
            _ => r is None && final(take.0)@ == old(take.0)@,
        },
        forall|other: u128|
            other != register.1.value ==> {
                &&& #[trigger] final(take.0)@.dom().contains(other) <==> old(
                    register.0,
                )@.dom().contains(other)
                &&& old(register.0)@.dom().contains(other) ==> final(take.0)@[other] == old(
                    register.0,
                )@[other]
            },
{
}

/// A waiter that is forgotten is gone, and every other one stays. A map is empty exactly when
/// nobody waits.
pub proof fn law_forgotten_waiter_is_gone<C: ReplyChannels>(
    forget: (&mut WaiterMap<C>, Nonce),
    fresh: WaiterMap<C>,
    empty: bool,
)
    requires
        call_ensures(WaiterMap::<C>::forget, forget, ()),
        call_ensures(WaiterMap::<C>::new, (), fresh),
        call_ensures(WaiterMap::<C>::is_empty, (&*final(forget.0),), empty),
    ensures
        forall|other: u128|
            #![trigger final(forget.0)@.dom().contains(other)]
            {
                &&& final(forget.0)@.dom().contains(other) <==> old(forget.0)@.dom().contains(other)
                    && other != forget.1.value
                &&& final(forget.0)@.dom().contains(other) ==> final(forget.0)@[other] == old(
                    forget.0,
                )@[other]
            },
        forall|other: u128| !#[trigger] fresh@.dom().contains(other),
        empty <==> forall|other: u128| !#[trigger] final(forget.0)@.dom().contains(other),
{
    if forall|other: u128| !#[trigger] final(forget.0)@.dom().contains(other) {
        assert(final(forget.0)@ =~= Map::<u128, Waiter<C>>::empty());
    }
}

} // verus!
