use vstd::prelude::*;

verus! {

/// Compact numeric identifier of an actor.
pub type ActorID = u64;

/// The lowest identifier available to actors that are not built-in singletons.
pub const FIRST_NON_SINGLETON_ADDR: u64 = 100;

/// The protocol that an address belongs to.
#[derive(Clone, Copy, Debug, PartialEq, Eq, Structural)]
pub enum Protocol {
    Id,
    Secp256k1,
    Bls,
    Actor,
    Delegated,
}

/// A chain address: its protocol and its payload bytes.
///
/// An `Id` address carries the actor identifier as eight little-endian bytes.
#[derive(Debug)]
pub struct Address {
    pub protocol: Protocol,
    pub payload: Vec<u8>,
}

/// The mathematical value of an address.
pub type AddressView = (Protocol, Seq<u8>);

impl View for Address {
    type V = AddressView;

    open spec fn view(&self) -> AddressView {
        (self.protocol, self.payload@)
    }
}

/// Byte `k` (little-endian) of an identifier.
pub open spec fn id_byte(id: u64, k: int) -> u8 {
    ((id >> ((8 * k) as u64)) & 0xff) as u8
}

/// The payload of the `Id` address of `id`.
pub open spec fn id_payload(id: u64) -> Seq<u8> {
    Seq::new(8, |k: int| id_byte(id, k))
}

impl Address {
    /// The `Id` address of an actor identifier.
    pub fn new_id(id: u64) -> (r: Address)
        ensures
            r@ == (Protocol::Id, id_payload(id)),
    {
        let mut payload: Vec<u8> = Vec::new();
        let mut k: u64 = 0;
        while k < 8
            invariant
                k <= 8,
                payload@ == Seq::new(k as nat, |j: int| id_byte(id, j)),
            decreases 8 - k,
        {
            let b: u8 = ((id >> (8 * k)) & 0xff) as u8;
            payload.push(b);
            k = k + 1;
            assert(payload@ =~= Seq::new(k as nat, |j: int| id_byte(id, j)));
        }
        Address { protocol: Protocol::Id, payload }
    }

    /// An address of the given protocol with the given payload.
    pub fn new(protocol: Protocol, payload: Vec<u8>) -> (r: Address)
        ensures
            r@ == (protocol, payload@),
    {
        Address { protocol, payload }
    }

    pub fn protocol(&self) -> (r: Protocol)
        ensures
            r == self.protocol,
    {
        self.protocol
    }

    /// Whether two addresses are the same address.
    pub fn equals(&self, other: &Address) -> (r: bool)
        ensures
            r == (self@ == other@),
    {
        if self.protocol != other.protocol || self.payload.len() != other.payload.len() {
            proof {
                if self.payload.len() != other.payload.len() {
                    assert(self@.1.len() != other@.1.len());
                }
            }
            return false;
        }
        let n = self.payload.len();
        let mut i: usize = 0;
        while i < n
            invariant
                n == self.payload@.len(),
                n == other.payload@.len(),
                i <= n,
                forall|j: int| 0 <= j < i ==> self.payload@[j] == other.payload@[j],
            decreases n - i,
        {
            if self.payload[i] != other.payload[i] {
                assert(self@.1[i as int] != other@.1[i as int]);
                return false;
            }
            i = i + 1;
        }
        assert(self.payload@ =~= other.payload@);
        true
    }

    /// A copy of this address.
    pub fn duplicate(&self) -> (r: Address)
        ensures
            r@ == self@,
    {
        let mut payload: Vec<u8> = Vec::new();
        let n = self.payload.len();
        let mut i: usize = 0;
        while i < n
            invariant
                n == self.payload@.len(),
                i <= n,
                payload@ == self.payload@.subrange(0, i as int),
            decreases n - i,
        {
            payload.push(self.payload[i]);
            i = i + 1;
            assert(payload@ =~= self.payload@.subrange(0, i as int));
        }
        assert(payload@ =~= self.payload@);
        Address { protocol: self.protocol, payload }
    }
}

} // verus!
