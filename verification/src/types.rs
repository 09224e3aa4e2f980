//! The plain fixed-width values the module works on: entropy drawn from
//! the host, account identities, record identifiers, and the record
//! itself.

use vstd::prelude::*;

verus! {

/// One 32-byte value supplied by the host's randomness source.
#[derive(Clone, Copy, PartialEq, Eq, Debug)]
pub struct Entropy {
    bytes: [u8; 32],
}

impl View for Entropy {
    type V = Seq<u8>;

    closed spec fn view(&self) -> Seq<u8> {
        self.bytes@
    }
}

impl Entropy {
    pub fn new(bytes: [u8; 32]) -> (r: Entropy)
        ensures
            r@ == bytes@,
    {
        Entropy { bytes }
    }

    pub fn to_bytes(&self) -> (b: [u8; 32])
        ensures
            b@ == self@,
    {
        self.bytes
    }
}

/// Every entropy value is exactly 32 bytes wide.
pub proof fn lemma_entropy_len(e: Entropy)
    ensures
        e@.len() == 32,
{
}

/// An opaque account identity, as the host's authentication resolves it.
#[derive(Clone, Copy, PartialEq, Eq, Debug)]
pub struct AccountId {
    bytes: [u8; 32],
}

impl View for AccountId {
    type V = Seq<u8>;

    closed spec fn view(&self) -> Seq<u8> {
        self.bytes@
    }
}

impl AccountId {
    pub fn new(bytes: [u8; 32]) -> (r: AccountId)
        ensures
            r@ == bytes@,
    {
        AccountId { bytes }
    }

    pub fn to_bytes(&self) -> (b: [u8; 32])
        ensures
            b@ == self@,
    {
        self.bytes
    }

    pub fn equals(&self, other: &AccountId) -> (r: bool)
        ensures
            r <==> self@ == other@,
    {
        bytes_equal(&self.bytes, &other.bytes)
    }
}

/// Every account identity is exactly 32 bytes wide.
pub proof fn lemma_account_id_len(a: AccountId)
    ensures
        a@.len() == 32,
{
}

/// A record identifier: a fixed-width hash value, used as the registry
/// key and as the record's dna payload.
#[derive(Clone, Copy, PartialEq, Eq, Debug)]
pub struct KittenId {
    bytes: [u8; 32],
}

impl View for KittenId {
    type V = Seq<u8>;

    closed spec fn view(&self) -> Seq<u8> {
        self.bytes@
    }
}

impl KittenId {
    pub fn new(bytes: [u8; 32]) -> (r: KittenId)
        ensures
            r@ == bytes@,
    {
        KittenId { bytes }
    }

    pub fn to_bytes(&self) -> (b: [u8; 32])
        ensures
            b@ == self@,
    {
        self.bytes
    }

    pub fn equals(&self, other: &KittenId) -> (r: bool)
        ensures
            r <==> self@ == other@,
    {
        bytes_equal(&self.bytes, &other.bytes)
    }
}

/// Every record identifier is exactly 32 bytes wide.
pub proof fn lemma_kitten_id_len(k: KittenId)
    ensures
        k@.len() == 32,
{
}

fn bytes_equal(a: &[u8; 32], b: &[u8; 32]) -> (r: bool)
    ensures
        r <==> a@ == b@,
{
    let mut i: usize = 0;
    while i < 32
        invariant
            0 <= i <= 32,
            forall|j: int| 0 <= j < i ==> a@[j] == b@[j],
        decreases 32 - i,
    {
        if a[i] != b[i] {
            assert(a@[i as int] != b@[i as int]);
            return false;
        }
        i = i + 1;
    }
    assert(a@ =~= b@);
    true
}

/// The minted record. Its dna payload is set bit-identical to its
/// identifier, as the reference design has it.
#[derive(Clone, Copy, PartialEq, Eq, Debug)]
pub struct Kitty {
    id: KittenId,
    dna: KittenId,
}

/// What a record is: its identifier and its dna payload.
pub struct KittyView {
    pub id: Seq<u8>,
    pub dna: Seq<u8>,
}

impl View for Kitty {
    type V = KittyView;

    closed spec fn view(&self) -> KittyView {
        KittyView { id: self.id@, dna: self.dna@ }
    }
}

impl Kitty {
    /// Mints the record value for a freshly derived identifier. The dna
    /// payload duplicates the identifier by design.
    pub fn new(id: KittenId) -> (k: Kitty)
        ensures
            k@.id == id@,
            k@.dna == id@,
    {
        Kitty { id, dna: id }
    }

    pub fn id(&self) -> (r: KittenId)
        ensures
            r@ == self@.id,
    {
        self.id
    }

    pub fn dna(&self) -> (r: KittenId)
        ensures
            r@ == self@.dna,
    {
        self.dna
    }
}

} // verus!
