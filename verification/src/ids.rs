//! Fixed-width identifiers: 32-byte content hashes and 20-byte player addresses.

use vstd::prelude::*;

verus! {

/// Number of bytes in an [`Id`].
pub const ID_LEN: usize = 32;

/// Number of bytes in an [`Address`].
pub const ADDRESS_LEN: usize = 20;

/// The SHA-256 digest of `data`, as a sequence of 32 bytes.
pub uninterp spec fn sha256_digest(data: Seq<u8>) -> Seq<u8>;

/// A 32-byte identifier. Blocks are identified by the SHA-256 digest of their
/// canonical bytes.
#[derive(Clone, Copy, Debug, Hash, Eq)]
pub struct Id {
    pub bytes: [u8; 32],
}

/// A 20-byte account address identifying a player.
#[derive(Clone, Copy, Debug, Hash, Eq)]
pub struct Address {
    pub bytes: [u8; 20],
}

impl View for Id {
    type V = Seq<u8>;

    open spec fn view(&self) -> Seq<u8> {
        self.bytes@
    }
}

impl View for Address {
    type V = Seq<u8>;

    open spec fn view(&self) -> Seq<u8> {
        self.bytes@
    }
}

/// Calls `avalanche_types::ids::Id::sha256`, which hashes the bytes with
/// SHA-256 and holds the 32-byte digest. The contract names that digest.
/// On Windows the outside function is not written yet and does not return.
#[verifier::external_body]
fn sha256_bytes(data: &[u8]) -> (digest: [u8; 32])
    ensures
        digest@ == sha256_digest(data@),
{
    let id = avalanche_types::ids::Id::sha256(data);
    let mut digest = [0u8; 32];
    digest.copy_from_slice(id.as_ref());
    digest
}

impl Id {
    /// The identifier whose bytes are all zero; it names the parent of a
    /// genesis block.
    pub fn empty() -> (id: Id)
        ensures
            id@ == Seq::new(32, |i: int| 0u8),
    {
        let id = Id { bytes: [0u8; 32] };
        assert(id@ =~= Seq::new(32, |i: int| 0u8));
        id
    }

    /// The bytes of the identifier.
    pub fn to_vec(&self) -> (v: Vec<u8>)
        ensures
            v@ == self@,
    {
        let mut v: Vec<u8> = Vec::new();
        let mut i: usize = 0;
        while i < 32
            invariant
                i <= 32,
                v@ == self.bytes@.subrange(0, i as int),
            decreases 32 - i,
        {
            v.push(self.bytes[i]);
            assert(v@ =~= self.bytes@.subrange(0, i + 1));
            i += 1;
        }
        assert(v@ =~= self@);
        v
    }

    /// The identifier that starts with the bytes of `d` and is zero after
    /// them.
    pub fn from_slice(d: &[u8]) -> (id: Id)
        requires
            d@.len() <= 32,
        ensures
            id@ == d@ + Seq::new((32 - d@.len()) as nat, |i: int| 0u8),
    {
        let mut bytes = [0u8; 32];
        let mut i: usize = 0;
        while i < d.len()
            invariant
                i <= d@.len() <= 32,
                forall|j: int| 0 <= j < i ==> bytes@[j] == d@[j],
                forall|j: int| i <= j < 32 ==> bytes@[j] == 0,
            decreases d@.len() - i,
        {
            bytes[i] = d[i];
            i += 1;
        }
        let id = Id { bytes };
        assert(id@ =~= d@ + Seq::new((32 - d@.len()) as nat, |i: int| 0u8));
        id
    }

    /// The bytes of the identifier.
    pub fn as_slice(&self) -> (s: &[u8])
        ensures
            s@ == self@,
    {
        self.bytes.as_slice()
    }

    /// The identifier that is the SHA-256 digest of `data`.
    pub fn sha256(data: &[u8]) -> (id: Id)
        ensures
            id@ == sha256_digest(data@),
    {
        Id { bytes: sha256_bytes(data) }
    }
}

impl Default for Id {
    fn default() -> (id: Id)
        ensures
            id@ == Seq::new(32, |i: int| 0u8),
    {
        Id::empty()
    }
}

impl Address {
    /// The address whose bytes are all zero.
    pub fn zero() -> (address: Address)
        ensures
            address@ == Seq::new(20, |i: int| 0u8),
    {
        let address = Address { bytes: [0u8; 20] };
        assert(address@ =~= Seq::new(20, |i: int| 0u8));
        address
    }

    /// The address that starts with the bytes of `d` and is zero after
    /// them.
    pub fn from_slice(d: &[u8]) -> (address: Address)
        requires
            d@.len() <= 20,
        ensures
            address@ == d@ + Seq::new((20 - d@.len()) as nat, |i: int| 0u8),
    {
        let mut bytes = [0u8; 20];
        let mut i: usize = 0;
        while i < d.len()
            invariant
                i <= d@.len() <= 20,
                forall|j: int| 0 <= j < i ==> bytes@[j] == d@[j],
                forall|j: int| i <= j < 20 ==> bytes@[j] == 0,
            decreases d@.len() - i,
        {
            bytes[i] = d[i];
            i += 1;
        }
        let address = Address { bytes };
        assert(address@ =~= d@ + Seq::new((20 - d@.len()) as nat, |i: int| 0u8));
        address
    }

    /// The bytes of the address.
    pub fn as_slice(&self) -> (s: &[u8])
        ensures
            s@ == self@,
    {
        self.bytes.as_slice()
    }
}

impl Default for Address {
    fn default() -> (address: Address)
        ensures
            address@ == Seq::new(20, |i: int| 0u8),
    {
        Address::zero()
    }
}

} // verus!
