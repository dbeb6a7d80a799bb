//! Account identifiers and the derivation of the addresses that the program
//! controls.

use solana_program::pubkey::Pubkey;
use vstd::prelude::*;
use vstd::slice::slice_to_vec;

verus! {

/// The identifier of an account on the ledger.
#[derive(Clone, Copy, Debug, PartialEq, Eq)]
pub struct Address {
    pub bytes: [u8; 32],
}

impl View for Address {
    type V = Seq<u8>;

    open spec fn view(&self) -> Seq<u8> {
        self.bytes@
    }
}

impl Address {
    /// The identifier made of the given bytes.
    pub fn new(bytes: [u8; 32]) -> (address: Address)
        ensures
            address.bytes == bytes,
    {
        Address { bytes }
    }

    /// The identifier whose bytes are all zero.
    pub fn zero() -> (address: Address)
        ensures
            address == zero_address(),
    {
        let address = Address { bytes: [0u8; 32] };
        proof {
            lemma_address_of(Seq::new(32, |i: int| 0u8));
            assert(address@ =~= Seq::new(32, |i: int| 0u8));
            address.lemma_view_injective(zero_address());
        }
        address
    }

    /// Two identifiers with the same bytes are the same identifier.
    pub proof fn lemma_view_injective(self, other: Address)
        ensures
            (self@ == other@) <==> (self == other),
    {
        if self@ == other@ {
            assert(self.bytes =~= other.bytes);
        }
    }

    /// Whether the two identifiers are the same.
    pub fn same(&self, other: &Address) -> (equal: bool)
        ensures
            equal == (self@ == other@),
            equal == (*self == *other),
    {
        proof {
            self.lemma_view_injective(*other);
        }
        let mut i: usize = 0;
        while i < 32
            invariant
                i <= 32,
                forall|j: int| 0 <= j < i ==> self@[j] == other@[j],
            decreases 32 - i,
        {
            if self.bytes[i] != other.bytes[i] {
                return false;
            }
            i += 1;
        }
        assert(self@ =~= other@);
        true
    }

    /// The bytes of the identifier, in order.
    pub fn to_vec(&self) -> (bytes: Vec<u8>)
        ensures
            bytes@ == self@,
    {
        let mut bytes: Vec<u8> = Vec::new();
        let mut i: usize = 0;
        while i < 32
            invariant
                i <= 32,
                bytes@ == self@.subrange(0, i as int),
            decreases 32 - i,
        {
            bytes.push(self.bytes[i]);
            i += 1;
        }
        bytes
    }

    /// The identifier held in exactly 32 bytes; no other length holds one.
    pub fn from_slice(bytes: &[u8]) -> (address: Option<Address>)
        ensures
            match address {
                Some(address) => bytes@.len() == 32 && address@ == bytes@,
                None => bytes@.len() != 32,
            },
    {
        if bytes.len() != 32 {
            return None;
        }
        let mut out: [u8; 32] = [0u8; 32];
        let mut i: usize = 0;
        while i < 32
            invariant
                i <= 32,
                bytes@.len() == 32,
                forall|j: int| 0 <= j < i ==> out@[j] == bytes@[j],
            decreases 32 - i,
        {
            out[i] = bytes[i];
            i += 1;
        }
        let address = Address { bytes: out };
        Some(address)
    }
}

/// The identifier whose bytes are the first 32 of `bytes`.
pub open spec fn address_of(bytes: Seq<u8>) -> Address {
    Address {
        bytes: [
            bytes[0], bytes[1], bytes[2], bytes[3], bytes[4], bytes[5], bytes[6], bytes[7],
            bytes[8], bytes[9], bytes[10], bytes[11], bytes[12], bytes[13], bytes[14], bytes[15],
            bytes[16], bytes[17], bytes[18], bytes[19], bytes[20], bytes[21], bytes[22], bytes[23],
            bytes[24], bytes[25], bytes[26], bytes[27], bytes[28], bytes[29], bytes[30], bytes[31],
        ],
    }
}

/// Thirty-two bytes are the bytes of the identifier made of them.
pub proof fn lemma_address_of(bytes: Seq<u8>)
    requires
        bytes.len() == 32,
    ensures
        address_of(bytes)@ == bytes,
{
}

/// The identifier whose bytes are all zero.
pub open spec fn zero_address() -> Address {
    address_of(Seq::new(32, |i: int| 0u8))
}

/// The views of a list of seeds, in order.
pub open spec fn seeds_view(seeds: Seq<Vec<u8>>) -> Seq<Seq<u8>> {
    Seq::new(seeds.len(), |i: int| seeds[i]@)
}

/// The address that the ledger derives for a program from a list of seeds,
/// with the bump that makes it an address no private key controls, or `None`
/// where the ledger derives none. It is the result of
/// `Pubkey::try_find_program_address` on these seeds and this program.
pub uninterp spec fn program_address(seeds: Seq<Seq<u8>>, program_id: Seq<u8>) -> Option<
    (Seq<u8>, u8),
>;

/// Calls `solana_program::pubkey::Pubkey::try_find_program_address`.
///
/// Trusted: what comes back is `program_address` of the seeds and the
/// program, which says only that the search is a function of its arguments.
#[verifier::external_body]
pub(crate) fn find_program_address(seeds: &Vec<Vec<u8>>, program_id: &Address) -> (found: Option<
    (Address, u8),
>)
    ensures
        match found {
            Some((address, bump)) => program_address(seeds_view(seeds@), program_id@) == Some(
                (address@, bump),
            ),
            None => program_address(seeds_view(seeds@), program_id@) is None,
        },
{
    let slices: Vec<&[u8]> = seeds.iter().map(|seed| seed.as_slice()).collect();
    let program = Pubkey::new_from_array(program_id.bytes);
    match Pubkey::try_find_program_address(&slices, &program) {
        Some((key, bump)) => Some((Address { bytes: key.to_bytes() }, bump)),
        None => None,
    }
}

/// The address and bump that the ledger derives, as an identifier.
pub open spec fn found_address(found: Option<(Seq<u8>, u8)>) -> Option<(Address, u8)> {
    match found {
        Some((bytes, bump)) => Some((address_of(bytes), bump)),
        None => None,
    }
}

/// The record address of a party under a domain seed, with its bump: what
/// the ledger derives from the party's identifier followed by the seed.
pub open spec fn derived_address(seed: Seq<u8>, party: Address, program_id: Address) -> Option<
    (Address, u8),
> {
    found_address(program_address(seq![party@, seed], program_id@))
}

/// The address under which the program itself signs for a domain, with its
/// bump: what the ledger derives from the seed alone.
pub open spec fn authority_address(seed: Seq<u8>, program_id: Address) -> Option<(Address, u8)> {
    found_address(program_address(seq![seed], program_id@))
}

/// Whether an address was derived and is `key`.
pub open spec fn is_address(derived: Option<(Address, u8)>, key: Address) -> bool {
    match derived {
        Some((address, _)) => address == key,
        None => false,
    }
}

/// Whether `key` is the record address of `party` under `seed`.
pub open spec fn is_record_address(
    seed: Seq<u8>,
    party: Address,
    program_id: Address,
    key: Address,
) -> bool {
    is_address(derived_address(seed, party, program_id), key)
}

/// Derives the record address of `party` under `seed` for `program_id`,
/// together with the bump that proves it.
///
/// The result depends on the three arguments alone: two calls on the same
/// seed, party and program give the same address and the same bump.
pub fn derive(seed: &[u8], party: &Address, program_id: &Address) -> (found: Option<
    (Address, u8),
>)
    ensures
        found == derived_address(seed@, *party, *program_id),
{
    let mut seeds: Vec<Vec<u8>> = Vec::new();
    seeds.push(party.to_vec());
    seeds.push(slice_to_vec(seed));
    assert(seeds_view(seeds@) =~= seq![party@, seed@]);
    let found = find_program_address(&seeds, program_id);
    proof {
        if let Some((address, _)) = found {
            lemma_address_of(address@);
            address.lemma_view_injective(address_of(address@));
        }
    }
    found
}

/// Derives the address under which the program signs for the domain `seed`,
/// together with its bump.
pub fn derive_authority(seed: &[u8], program_id: &Address) -> (found: Option<(Address, u8)>)
    ensures
        found == authority_address(seed@, *program_id),
{
    let mut seeds: Vec<Vec<u8>> = Vec::new();
    seeds.push(slice_to_vec(seed));
    assert(seeds_view(seeds@) =~= seq![seed@]);
    let found = find_program_address(&seeds, program_id);
    proof {
        if let Some((address, _)) = found {
            lemma_address_of(address@);
            address.lemma_view_injective(address_of(address@));
        }
    }
    found
}

} // verus!
