//! Addresses, and how the address of a record follows from what the record is.
//!
//! An address is 32 bytes. A record's address is derived from a namespace tag,
//! the record's key material and the program that owns the record, so a record
//! is found again by deriving its address anew: there is no directory.

use crate::store::Key;
use vstd::prelude::*;
use vstd::slice::slice_to_vec;
use vstd::utf8::encode_utf8;

verus! {

/// A 32-byte identity: a wallet, a mint, a program or a derived record.
#[derive(Clone, Copy, Debug)]
pub struct Address {
    pub bytes: [u8; 32],
}

impl View for Address {
    type V = Seq<u8>;

    open spec fn view(&self) -> Seq<u8> {
        self.bytes@
    }
}

impl PartialEq for Address {
    fn eq(&self, other: &Address) -> (r: bool) {
        let mut i: usize = 0;
        while i < 32
            invariant
                i <= 32,
                forall|j: int| 0 <= j < i ==> self.bytes@[j] == other.bytes@[j],
            decreases 32 - i,
        {
            if self.bytes[i] != other.bytes[i] {
                return false;
            }
            i += 1;
        }
        assert(self.bytes@ =~= other.bytes@);
        assert(self.bytes == other.bytes);
        true
    }
}

impl Eq for Address {}

impl vstd::std_specs::cmp::PartialEqSpecImpl for Address {
    open spec fn obeys_eq_spec() -> bool {
        true
    }

    open spec fn eq_spec(&self, other: &Address) -> bool {
        *self == *other
    }
}

impl Key for Address {
    fn same(&self, other: &Address) -> (r: bool) {
        *self == *other
    }
}

impl Address {
    /// The address made of the given bytes.
    pub fn new(bytes: [u8; 32]) -> (a: Address)
        ensures
            a.bytes == bytes,
    {
        Address { bytes }
    }

    /// The address as a byte string, as it enters a derivation.
    pub fn to_vec(&self) -> (v: Vec<u8>)
        ensures
            v@ == self@,
    {
        slice_to_vec(self.bytes.as_slice())
    }

    /// Two addresses with the same bytes are the same address.
    pub proof fn lemma_view_injective(a: Address, b: Address)
        requires
            a@ == b@,
        ensures
            a == b,
    {
        assert(a.bytes@ =~= b.bytes@);
        assert(a.bytes == b.bytes);
    }
}

/// An address together with the bump byte that shows it was derived.
#[derive(Clone, Copy, Debug, PartialEq, Eq)]
pub struct Derived {
    pub address: Address,
    pub bump: u8,
}

/// What `Pubkey::try_find_program_address` gives for a list of seeds and the
/// bytes of a program's address: the bytes of the derived address and the bump
/// byte that was appended to the seeds to reach it, or nothing where no
/// address can be derived.
pub uninterp spec fn program_address(seeds: Seq<Seq<u8>>, program: Seq<u8>) -> Option<(Seq<u8>, u8)>;

/// The byte strings that a list of keys holds.
pub open spec fn byte_strings(keys: Seq<Vec<u8>>) -> Seq<Seq<u8>> {
    keys.map_values(|key: Vec<u8>| key@)
}

/// The seeds of a derivation: the namespace tag first, then the keys in order.
pub open spec fn seeds_of(namespace: Seq<char>, keys: Seq<Seq<u8>>) -> Seq<Seq<u8>> {
    seq![encode_utf8(namespace)] + keys
}

/// The address that has the given bytes.
pub open spec fn address_with(bytes: Seq<u8>) -> Address {
    choose|a: Address| a@ == bytes
}

/// The address derived for `program` from a namespace tag and keys, with its
/// bump, or nothing where the seeds admit no address.
pub open spec fn derived(namespace: Seq<char>, keys: Seq<Seq<u8>>, program: Address) -> Option<
    Derived,
> {
    match program_address(seeds_of(namespace, keys), program@) {
        Some((bytes, bump)) => Some(Derived { address: address_with(bytes), bump }),
        None => None,
    }
}

/// Calls `Pubkey::try_find_program_address` of `anchor_lang` on the seeds and the
/// program's address. The claim is only that the outcome is the one named
/// `program_address` for these arguments: the function hashes its arguments and
/// reads nothing else, so equal arguments give equal outcomes.
#[verifier::external_body]
fn find_program_address(seeds: &Vec<Vec<u8>>, program: &Address) -> (r: Option<(Address, u8)>)
    ensures
        match r {
            Some((address, bump)) => program_address(byte_strings(seeds@), program@) == Some(
                (address@, bump),
            ),
            None => program_address(byte_strings(seeds@), program@) is None,
        },
{
    let parts: Vec<&[u8]> = seeds.iter().map(|seed| seed.as_slice()).collect();
    let id = anchor_lang::prelude::Pubkey::new_from_array(program.bytes);
    match anchor_lang::prelude::Pubkey::try_find_program_address(&parts, &id) {
        Some((key, bump)) => Some((Address { bytes: key.to_bytes() }, bump)),
        None => None,
    }
}

/// A copy of a byte string.
fn copy_bytes(bytes: &Vec<u8>) -> (r: Vec<u8>)
    ensures
        r@ == bytes@,
{
    slice_to_vec(bytes.as_slice())
}

/// Derives the address of the record that `namespace` and `keys` identify among
/// the records of `program`. Equal arguments always give the equal result.
pub fn derive(namespace: &str, keys: &Vec<Vec<u8>>, program: &Address) -> (r: Option<Derived>)
    ensures
        r == derived(namespace@, byte_strings(keys@), *program),
{
    let mut seeds: Vec<Vec<u8>> = Vec::new();
    seeds.push(slice_to_vec(namespace.as_bytes()));
    let mut i: usize = 0;
    while i < keys.len()
        invariant
            i <= keys.len(),
            seeds@.len() == i + 1,
            seeds@[0]@ == encode_utf8(namespace@),
            forall|j: int| 0 <= j < i ==> seeds@[j + 1]@ == #[trigger] keys@[j]@,
        decreases keys.len() - i,
    {
        seeds.push(copy_bytes(&keys[i]));
        i += 1;
    }
    assert(byte_strings(seeds@) =~= seeds_of(namespace@, byte_strings(keys@)));
    match find_program_address(&seeds, program) {
        Some((address, bump)) => {
            proof {
                Address::lemma_view_injective(address_with(address@), address);
            }
            Some(Derived { address, bump })
        },
        None => None,
    }
}

/// What a record of the marketplace is known by: its kind, which gives the
/// namespace tag, and its key material.
pub enum RecordKey {
    /// The marketplace of a name.
    Marketplace { name: Seq<char> },
    /// The treasury of the marketplace at an address.
    Treasury { market: Address },
    /// The rewards mint of the marketplace at an address.
    Rewards { market: Address },
    /// The listing of the items of a mint on the marketplace at an address.
    Listing { market: Address, item_mint: Address },
}

impl RecordKey {
    /// The namespace tag of the record's kind.
    pub open spec fn namespace(self) -> Seq<char> {
        match self {
            RecordKey::Marketplace { .. } => "marketplace"@,
            RecordKey::Treasury { .. } => "treasury"@,
            RecordKey::Rewards { .. } => "rewards"@,
            RecordKey::Listing { .. } => "listing"@,
        }
    }

    /// The record's key material, in order.
    pub open spec fn keys(self) -> Seq<Seq<u8>> {
        match self {
            RecordKey::Marketplace { name } => seq![encode_utf8(name)],
            RecordKey::Treasury { market } => seq![market@],
            RecordKey::Rewards { market } => seq![market@],
            RecordKey::Listing { market, item_mint } => seq![market@, item_mint@],
        }
    }

    /// The seeds from which the record's address is derived.
    pub open spec fn seeds(self) -> Seq<Seq<u8>> {
        seeds_of(self.namespace(), self.keys())
    }

    /// The record's address among the records of `program`, with its bump.
    pub open spec fn address(self, program: Address) -> Option<Derived> {
        derived(self.namespace(), self.keys(), program)
    }
}

/// The seeds written one after the other. An address is a hash of this, of the
/// bump and of the program, so two lists of seeds that are written the same
/// derive the same address.
pub open spec fn joined(seeds: Seq<Seq<u8>>) -> Seq<u8>
    decreases seeds.len(),
{
    if seeds.len() == 0 {
        Seq::<u8>::empty()
    } else {
        joined(seeds.drop_last()) + seeds.last()
    }
}

/// The address of the marketplace called `name`.
pub open spec fn marketplace_at(name: Seq<char>, program: Address) -> Option<Derived> {
    RecordKey::Marketplace { name }.address(program)
}

/// The address of the treasury of the marketplace at `market`.
pub open spec fn treasury_at(market: Address, program: Address) -> Option<Derived> {
    RecordKey::Treasury { market }.address(program)
}

/// The address of the rewards mint of the marketplace at `market`.
pub open spec fn rewards_at(market: Address, program: Address) -> Option<Derived> {
    RecordKey::Rewards { market }.address(program)
}

/// The address of the listing of `item_mint` on the marketplace at `market`.
pub open spec fn listing_at(market: Address, item_mint: Address, program: Address) -> Option<
    Derived,
> {
    RecordKey::Listing { market, item_mint }.address(program)
}

/// Derives the address of the marketplace called `name`.
pub fn marketplace_address(name: &str, program: &Address) -> (r: Option<Derived>)
    ensures
        r == marketplace_at(name@, *program),
{
    let mut keys: Vec<Vec<u8>> = Vec::new();
    keys.push(slice_to_vec(name.as_bytes()));
    assert(byte_strings(keys@) =~= seq![encode_utf8(name@)]);
    derive("marketplace", &keys, program)
}

/// Derives the address of the treasury of the marketplace at `market`.
pub fn treasury_address(market: &Address, program: &Address) -> (r: Option<Derived>)
    ensures
        r == treasury_at(*market, *program),
{
    let mut keys: Vec<Vec<u8>> = Vec::new();
    keys.push(market.to_vec());
    assert(byte_strings(keys@) =~= seq![market@]);
    derive("treasury", &keys, program)
}

/// Derives the address of the rewards mint of the marketplace at `market`.
pub fn rewards_address(market: &Address, program: &Address) -> (r: Option<Derived>)
    ensures
        r == rewards_at(*market, *program),
{
    let mut keys: Vec<Vec<u8>> = Vec::new();
    keys.push(market.to_vec());
    assert(byte_strings(keys@) =~= seq![market@]);
    derive("rewards", &keys, program)
}

/// Derives the address of the listing of `item_mint` on the marketplace at
/// `market`.
pub fn listing_address(market: &Address, item_mint: &Address, program: &Address) -> (r: Option<
    Derived,
>)
    ensures
        r == listing_at(*market, *item_mint, *program),
{
    let mut keys: Vec<Vec<u8>> = Vec::new();
    keys.push(market.to_vec());
    keys.push(item_mint.to_vec());
    assert(byte_strings(keys@) =~= seq![market@, item_mint@]);
    derive("listing", &keys, program)
}

} // verus!
