//! Actor addresses, held as plain values.

use vstd::prelude::*;

verus! {

/// Length in bytes of the key hash that a secp256k1 or actor address carries.
pub const PAYLOAD_HASH_LEN: usize = 20;

/// Length in bytes of a BLS public key.
pub const BLS_PUB_LEN: usize = 48;

/// Longest sub-address that a delegated address may carry.
pub const MAX_SUBADDRESS_LEN: usize = 54;

/// Identifier of the system actor, the sender of every implicit message.
pub const SYSTEM_ACTOR_ID: u64 = 0;

/// Identifier of the cron actor, ticked once per block.
pub const CRON_ACTOR_ID: u64 = 3;

/// Identifier of the actor that keeps the hashes of recent blocks.
pub const CHAINMETADATA_ACTOR_ID: u64 = 48;

/// A delegated address: the actor that manages the namespace, and a
/// sub-address of at most `MAX_SUBADDRESS_LEN` bytes held in a fixed buffer.
#[derive(Clone, Copy, Debug, PartialEq, Eq, Hash)]
pub struct DelegatedAddress {
    pub namespace: u64,
    pub length: usize,
    pub buffer: [u8; MAX_SUBADDRESS_LEN],
}

impl DelegatedAddress {
    /// The sub-address: the first `length` bytes of the buffer.
    pub open spec fn subaddress(self) -> Seq<u8> {
        self.buffer@.take(self.length as int)
    }

    /// A delegated address is valid when its length fits the buffer and the
    /// bytes behind the sub-address are zero.
    pub open spec fn valid(self) -> bool {
        &&& self.length <= MAX_SUBADDRESS_LEN
        &&& forall|i: int| self.length <= i < MAX_SUBADDRESS_LEN ==> self.buffer@[i] == 0
    }

    /// Builds a delegated address, or `None` when the sub-address is longer
    /// than `MAX_SUBADDRESS_LEN`.
    pub fn new(namespace: u64, subaddress: &[u8]) -> (made: Option<DelegatedAddress>)
        ensures
            made is Some <==> subaddress@.len() <= MAX_SUBADDRESS_LEN,
            made matches Some(addr) ==> {
                &&& addr.valid()
                &&& addr.namespace == namespace
                &&& addr.subaddress() == subaddress@
            },
    {
        let length: usize = subaddress.len();
        if length > MAX_SUBADDRESS_LEN {
            return None;
        }
        let mut buffer: [u8; MAX_SUBADDRESS_LEN] = [0u8; MAX_SUBADDRESS_LEN];
        let mut i: usize = 0;
        while i < length
            invariant
                i <= length,
                length == subaddress@.len(),
                length <= MAX_SUBADDRESS_LEN,
                forall|k: int| 0 <= k < i ==> buffer@[k] == subaddress@[k],
                forall|k: int| i <= k < MAX_SUBADDRESS_LEN ==> buffer@[k] == 0,
            decreases length - i,
        {
            buffer[i] = subaddress[i];
            i = i + 1;
        }
        let addr = DelegatedAddress { namespace, length, buffer };
        assert(addr.subaddress() =~= subaddress@);
        Some(addr)
    }
}

/// Tells whether two arrays hold the same bytes.
pub fn same_bytes<const N: usize>(a: &[u8; N], b: &[u8; N]) -> (yes: bool)
    ensures
        yes == (*a == *b),
{
    let mut i: usize = 0;
    while i < N
        invariant
            i <= N,
            forall|k: int| 0 <= k < i ==> a@[k] == b@[k],
        decreases N - i,
    {
        if a[i] != b[i] {
            return false;
        }
        i = i + 1;
    }
    assert(*a =~= *b);
    true
}

/// The address of an actor.
#[derive(Clone, Copy, Debug, PartialEq, Eq, Hash)]
pub enum Address {
    /// An actor identifier.
    Id(u64),
    /// The hash of a secp256k1 public key.
    Secp256k1([u8; PAYLOAD_HASH_LEN]),
    /// The hash that names an actor.
    Actor([u8; PAYLOAD_HASH_LEN]),
    /// A BLS public key.
    Bls([u8; BLS_PUB_LEN]),
    /// An address in a namespace that another actor manages.
    Delegated(DelegatedAddress),
}

impl Address {
    /// The address of the actor with identifier `id`.
    pub fn new_id(id: u64) -> (addr: Address)
        ensures
            addr == Address::Id(id),
    {
        Address::Id(id)
    }

    /// Tells whether two addresses are the same address.
    pub fn same(&self, other: &Address) -> (yes: bool)
        ensures
            yes == (*self == *other),
    {
        match (self, other) {
            (Address::Id(a), Address::Id(b)) => *a == *b,
            (Address::Secp256k1(a), Address::Secp256k1(b)) => same_bytes(a, b),
            (Address::Actor(a), Address::Actor(b)) => same_bytes(a, b),
            (Address::Bls(a), Address::Bls(b)) => same_bytes(a, b),
            (Address::Delegated(a), Address::Delegated(b)) => a.namespace == b.namespace
                && a.length == b.length && same_bytes(&a.buffer, &b.buffer),
            _ => false,
        }
    }

    /// Whether this is the reserved system address.
    pub open spec fn is_system(self) -> bool {
        self == Address::Id(SYSTEM_ACTOR_ID)
    }

    /// Tells whether this is the reserved system address.
    pub fn is_system_actor(&self) -> (yes: bool)
        ensures
            yes == self.is_system(),
    {
        match self {
            Address::Id(id) => *id == SYSTEM_ACTOR_ID,
            _ => false,
        }
    }
}

/// The reserved system address.
pub fn system_actor_addr() -> (addr: Address)
    ensures
        addr == Address::Id(SYSTEM_ACTOR_ID),
{
    Address::Id(SYSTEM_ACTOR_ID)
}

/// The address of the cron actor.
pub fn cron_actor_addr() -> (addr: Address)
    ensures
        addr == Address::Id(CRON_ACTOR_ID),
{
    Address::Id(CRON_ACTOR_ID)
}

/// The address of the actor that keeps the hashes of recent blocks.
pub fn chainmetadata_actor_addr() -> (addr: Address)
    ensures
        addr == Address::Id(CHAINMETADATA_ACTOR_ID),
{
    Address::Id(CHAINMETADATA_ACTOR_ID)
}

} // verus!
