//! Account addresses and the derivation of program-controlled addresses.

use anchor_lang::prelude::Pubkey;
use anchor_spl::associated_token::get_associated_token_address_with_program_id;
use vstd::bytes::{spec_u64_to_le_bytes, u64_to_le_bytes};
use vstd::prelude::*;
use vstd::std_specs::cmp::PartialEqSpecImpl;

verus! {

/// A 32-byte account address.
#[derive(Clone, Copy, Debug)]
pub struct Address {
    pub bytes: [u8; 32],
}

impl View for Address {
    type V = Seq<u8>;

    open spec fn view(&self) -> Seq<u8> {
        self.bytes@
    }
}

impl PartialEq for Address {
    fn eq(&self, other: &Address) -> (same: bool) {
        let mut i: usize = 0;
        while i < 32
            invariant
                i <= 32,
                forall|j: int| 0 <= j < i ==> self.bytes[j] == other.bytes[j],
            decreases 32 - i,
        {
            if self.bytes[i] != other.bytes[i] {
                return false;
            }
            i += 1;
        }
        assert(self.bytes =~= other.bytes);
        true
    }
}

impl PartialEqSpecImpl for Address {
    open spec fn obeys_eq_spec() -> bool {
        true
    }

    open spec fn eq_spec(&self, other: &Address) -> bool {
        *self == *other
    }
}

impl Eq for Address {

}

impl Address {
    /// The address whose bytes are all zero.
    pub open spec fn spec_zero() -> Address {
        Address {
            bytes: [
                0u8, 0u8, 0u8, 0u8, 0u8, 0u8, 0u8, 0u8, 0u8, 0u8, 0u8, 0u8, 0u8, 0u8, 0u8, 0u8,
                0u8, 0u8, 0u8, 0u8, 0u8, 0u8, 0u8, 0u8, 0u8, 0u8, 0u8, 0u8, 0u8, 0u8, 0u8, 0u8,
            ],
        }
    }

    /// The address whose bytes are all zero.
    pub fn zero() -> (address: Address)
        ensures
            address == Self::spec_zero(),
    {
        Address {
            bytes: [
                0u8, 0u8, 0u8, 0u8, 0u8, 0u8, 0u8, 0u8, 0u8, 0u8, 0u8, 0u8, 0u8, 0u8, 0u8, 0u8,
                0u8, 0u8, 0u8, 0u8, 0u8, 0u8, 0u8, 0u8, 0u8, 0u8, 0u8, 0u8, 0u8, 0u8, 0u8, 0u8,
            ],
        }
    }

    /// The address with the given bytes, where they are 32.
    pub fn from_slice(bytes: &[u8]) -> (address: Option<Address>)
        ensures
            address is Some <==> bytes@.len() == 32,
            address matches Some(a) ==> a@ == bytes@,
    {
        if bytes.len() != 32 {
            return None;
        }
        let mut address = Address::zero();
        let mut i: usize = 0;
        while i < 32
            invariant
                i <= 32,
                bytes@.len() == 32,
                forall|j: int| 0 <= j < i ==> address.bytes[j] == bytes@[j],
            decreases 32 - i,
        {
            address.bytes[i] = bytes[i];
            i += 1;
        }
        assert(address@ =~= bytes@);
        Some(address)
    }

    /// The bytes of the address.
    pub fn to_vec(&self) -> (bytes: Vec<u8>)
        ensures
            bytes@ == self@,
    {
        let mut bytes: Vec<u8> = Vec::new();
        let mut i: usize = 0;
        while i < 32
            invariant
                i <= 32,
                bytes@ == self@.subrange(0, i as int),
            decreases 32 - i,
        {
            bytes.push(self.bytes[i]);
            assert(bytes@ =~= self@.subrange(0, i + 1));
            i += 1;
        }
        assert(bytes@ =~= self@);
        bytes
    }
}

/// Two addresses with the same bytes are the same address.
pub proof fn lemma_address_by_bytes(a: Address, b: Address)
    requires
        a@ == b@,
    ensures
        a == b,
{
    assert(a.bytes =~= b.bytes);
}

/// The bytes of the identifier under which this program is deployed.
pub open spec fn spec_program_id() -> Address {
    Address {
        bytes: [
            208u8, 231u8, 228u8, 35u8, 143u8, 23u8, 244u8, 29u8, 198u8, 128u8, 189u8, 137u8, 208u8,
            5u8, 140u8, 190u8, 202u8, 41u8, 241u8, 57u8, 103u8, 14u8, 204u8, 218u8, 111u8, 150u8,
            122u8, 255u8, 211u8, 197u8, 160u8, 72u8,
        ],
    }
}

/// The identifier under which this program is deployed. Every escrow
/// authority is derived under it.
pub fn program_id() -> (id: Address)
    ensures
        id == spec_program_id(),
{
    Address {
        bytes: [
            208u8, 231u8, 228u8, 35u8, 143u8, 23u8, 244u8, 29u8, 198u8, 128u8, 189u8, 137u8, 208u8,
            5u8, 140u8, 190u8, 202u8, 41u8, 241u8, 57u8, 103u8, 14u8, 204u8, 218u8, 111u8, 150u8,
            122u8, 255u8, 211u8, 197u8, 160u8, 72u8,
        ],
    }
}

/// The bytes of the identifier of the associated-token-account program.
pub open spec fn spec_associated_token_program_id() -> Address {
    Address {
        bytes: [
            140u8, 151u8, 37u8, 143u8, 78u8, 36u8, 137u8, 241u8, 187u8, 61u8, 16u8, 41u8, 20u8,
            142u8, 13u8, 131u8, 11u8, 90u8, 19u8, 153u8, 218u8, 255u8, 16u8, 132u8, 4u8, 142u8,
            123u8, 216u8, 219u8, 233u8, 248u8, 89u8,
        ],
    }
}

/// The identifier of the associated-token-account program, under which the
/// token account of a wallet for a mint is derived.
pub fn associated_token_program_id() -> (id: Address)
    ensures
        id == spec_associated_token_program_id(),
{
    Address {
        bytes: [
            140u8, 151u8, 37u8, 143u8, 78u8, 36u8, 137u8, 241u8, 187u8, 61u8, 16u8, 41u8, 20u8,
            142u8, 13u8, 131u8, 11u8, 90u8, 19u8, 153u8, 218u8, 255u8, 16u8, 132u8, 4u8, 142u8,
            123u8, 216u8, 219u8, 233u8, 248u8, 89u8,
        ],
    }
}

/// The bytes of each seed in a list of seeds.
pub open spec fn seed_bytes(seeds: Seq<Vec<u8>>) -> Seq<Seq<u8>> {
    Seq::new(seeds.len(), |i: int| seeds[i]@)
}

/// What `Pubkey::try_find_program_address` returns for a list of seeds and a
/// program identifier: the derived address with its bump seed, or `None`
/// where no bump seed gives an address.
pub uninterp spec fn found_program_address(seeds: Seq<Seq<u8>>, program: Seq<u8>) -> Option<
    (Seq<u8>, u8),
>;

/// What `Pubkey::create_program_address` returns for a list of seeds and a
/// program identifier, its error taken as `None`.
pub uninterp spec fn created_program_address(seeds: Seq<Seq<u8>>, program: Seq<u8>) -> Option<
    Seq<u8>,
>;

/// Calls `Pubkey::try_find_program_address`. Trusted: the result is the one
/// that function computes from the seeds and the program identifier alone,
/// and an address it finds is the one that `Pubkey::create_program_address`
/// gives for the same seeds followed by the bump seed as a seed of one byte.
#[verifier::external_body]
fn try_find_program_address(seeds: &Vec<Vec<u8>>, program: &Address) -> (found: Option<
    (Address, u8),
>)
    ensures
        match found {
            Some((address, bump)) => found_program_address(seed_bytes(seeds@), program@) == Some(
                (address@, bump),
            ),
            None => found_program_address(seed_bytes(seeds@), program@) is None,
        },
        found matches Some((address, bump)) ==> created_program_address(
            seed_bytes(seeds@).push(seq![bump]),
            program@,
        ) == Some(address@),
{
    let parts: Vec<&[u8]> = seeds.iter().map(|seed| seed.as_slice()).collect();
    match Pubkey::try_find_program_address(&parts, &Pubkey::new_from_array(program.bytes)) {
        Some((key, bump)) => Some((Address { bytes: key.to_bytes() }, bump)),
        None => None,
    }
}

/// Calls `Pubkey::create_program_address`. Trusted: the result is the one
/// that function computes from the seeds and the program identifier alone,
/// with every error of it given as `None`.
#[verifier::external_body]
fn create_program_address(seeds: &Vec<Vec<u8>>, program: &Address) -> (created: Option<Address>)
    ensures
        match created {
            Some(address) => created_program_address(seed_bytes(seeds@), program@) == Some(
                address@,
            ),
            None => created_program_address(seed_bytes(seeds@), program@) is None,
        },
{
    let parts: Vec<&[u8]> = seeds.iter().map(|seed| seed.as_slice()).collect();
    match Pubkey::create_program_address(&parts, &Pubkey::new_from_array(program.bytes)) {
        Ok(key) => Some(Address { bytes: key.to_bytes() }),
        Err(_) => None,
    }
}

/// The seed namespace of escrow records: the ASCII bytes of `escrow`.
pub open spec fn spec_escrow_namespace() -> Seq<u8> {
    seq![101u8, 115u8, 99u8, 114u8, 111u8, 119u8]
}

/// The seed namespace of escrow records.
pub fn escrow_namespace() -> (namespace: Vec<u8>)
    ensures
        namespace@ == spec_escrow_namespace(),
{
    let mut namespace: Vec<u8> = Vec::new();
    namespace.push(101u8);
    namespace.push(115u8);
    namespace.push(99u8);
    namespace.push(114u8);
    namespace.push(111u8);
    namespace.push(119u8);
    assert(namespace@ =~= spec_escrow_namespace());
    namespace
}

/// The seeds from which an address is derived: the namespace, then the
/// index as eight little-endian bytes.
pub open spec fn spec_seeds(namespace: Seq<u8>, index: u64) -> Seq<Seq<u8>> {
    seq![namespace, spec_u64_to_le_bytes(index)]
}

/// The seeds that sign for a derived address: the derivation seeds, then the
/// proof as a seed of one byte.
pub open spec fn spec_signer_seeds(namespace: Seq<u8>, index: u64, proof: u8) -> Seq<Seq<u8>> {
    spec_seeds(namespace, index).push(seq![proof])
}

/// The address derived from a namespace and an index under this program,
/// with the proof that re-derives it; `None` where none can be derived.
pub open spec fn spec_derive_address(namespace: Seq<u8>, index: u64) -> Option<(Address, u8)> {
    match found_program_address(spec_seeds(namespace, index), spec_program_id()@) {
        Some((bytes, proof)) => Some((address_of(bytes), proof)),
        None => None,
    }
}

/// The address that a namespace, an index and a proof re-derive under this
/// program; `None` where the proof gives no address.
pub open spec fn spec_rederive(namespace: Seq<u8>, index: u64, proof: u8) -> Option<Address> {
    match created_program_address(spec_signer_seeds(namespace, index, proof), spec_program_id()@) {
        Some(bytes) => Some(address_of(bytes)),
        None => None,
    }
}

/// The address with the given bytes.
pub closed spec fn address_of(bytes: Seq<u8>) -> Address {
    choose|a: Address| a@ == bytes
}

/// `address_of` undoes the view.
pub proof fn lemma_address_of_view(a: Address)
    ensures
        address_of(a@) == a,
{
    let b = address_of(a@);
    assert(b@ == a@);
    lemma_address_by_bytes(a, b);
}

fn seeds(namespace: Vec<u8>, index: u64) -> (seeds: Vec<Vec<u8>>)
    ensures
        seed_bytes(seeds@) == spec_seeds(namespace@, index),
{
    let mut seeds: Vec<Vec<u8>> = Vec::new();
    seeds.push(namespace);
    seeds.push(u64_to_le_bytes(index));
    assert(seed_bytes(seeds@) =~= spec_seeds(namespace@, index));
    seeds
}

/// The seeds that sign for the address derived from `namespace` and `index`
/// with `proof`.
pub fn signer_seeds(namespace: Vec<u8>, index: u64, proof: u8) -> (seeds: Vec<Vec<u8>>)
    ensures
        seed_bytes(seeds@) == spec_signer_seeds(namespace@, index, proof),
{
    let mut seeds: Vec<Vec<u8>> = self::seeds(namespace, index);
    let mut last: Vec<u8> = Vec::new();
    last.push(proof);
    assert(last@ =~= seq![proof]);
    seeds.push(last);
    assert(seed_bytes(seeds@) =~= spec_signer_seeds(namespace@, index, proof));
    seeds
}

/// Derives the address for `namespace` and `index` under this program,
/// together with the proof by which anyone can re-derive it.
pub fn derive_address(namespace: Vec<u8>, index: u64) -> (derived: Option<(Address, u8)>)
    ensures
        derived == spec_derive_address(namespace@, index),
        derived matches Some((address, proof)) ==> spec_rederive(namespace@, index, proof) == Some(
            address,
        ),
{
    let seeds = seeds(namespace, index);
    let program = program_id();
    match try_find_program_address(&seeds, &program) {
        Some((address, proof)) => {
            proof {
                lemma_address_of_view(address);
            }
            Some((address, proof))
        },
        None => None,
    }
}

/// Re-derives the address for `namespace` and `index` from its proof.
pub fn rederive(namespace: Vec<u8>, index: u64, proof: u8) -> (address: Option<Address>)
    ensures
        address == spec_rederive(namespace@, index, proof),
{
    let seeds = signer_seeds(namespace, index, proof);
    let program = program_id();
    match create_program_address(&seeds, &program) {
        Some(address) => {
            proof {
                lemma_address_of_view(address);
            }
            Some(address)
        },
        None => None,
    }
}

/// The seeds of the token account that belongs to `wallet` for `mint` under
/// `token_program`: the wallet, the token program and the mint, in this
/// order.
pub open spec fn spec_associated_seeds(wallet: Address, mint: Address, token_program: Address) -> Seq<
    Seq<u8>,
> {
    seq![wallet@, token_program@, mint@]
}

/// The address of the token account that belongs to `wallet` for `mint`
/// under `token_program`: the address derived from its seeds under the
/// associated-token-account program. `None` where none can be derived.
pub open spec fn spec_associated_token_address(
    wallet: Address,
    mint: Address,
    token_program: Address,
) -> Option<Address> {
    match found_program_address(
        spec_associated_seeds(wallet, mint, token_program),
        spec_associated_token_program_id()@,
    ) {
        Some((bytes, _)) => Some(address_of(bytes)),
        None => None,
    }
}

/// Calls `get_associated_token_address_with_program_id`. Trusted: the
/// result is the address that `Pubkey::find_program_address` finds for the
/// wallet, the token program and the mint, in this order, under the
/// associated-token-account program. That function panics where it finds
/// none, so the call is made only where an address is known to be found.
#[verifier::external_body]
fn get_associated_token_address(wallet: &Address, mint: &Address, token_program: &Address) -> (address:
    Address)
    requires
        found_program_address(
            spec_associated_seeds(*wallet, *mint, *token_program),
            spec_associated_token_program_id()@,
        ) is Some,
    ensures
        address@ == found_program_address(
            spec_associated_seeds(*wallet, *mint, *token_program),
            spec_associated_token_program_id()@,
        )->Some_0.0,
{
    let key = get_associated_token_address_with_program_id(
        &Pubkey::new_from_array(wallet.bytes),
        &Pubkey::new_from_array(mint.bytes),
        &Pubkey::new_from_array(token_program.bytes),
    );
    Address { bytes: key.to_bytes() }
}

/// The address of the token account that belongs to `wallet` for `mint`
/// under `token_program`, or `None` where none can be derived.
pub fn associated_token_address(
    wallet: &Address,
    mint: &Address,
    token_program: &Address,
) -> (address: Option<Address>)
    ensures
        address == spec_associated_token_address(*wallet, *mint, *token_program),
{
    let mut seeds: Vec<Vec<u8>> = Vec::new();
    seeds.push(wallet.to_vec());
    seeds.push(token_program.to_vec());
    seeds.push(mint.to_vec());
    assert(seed_bytes(seeds@) =~= spec_associated_seeds(*wallet, *mint, *token_program));
    let program = associated_token_program_id();
    match try_find_program_address(&seeds, &program) {
        Some(_) => {
            let address = get_associated_token_address(wallet, mint, token_program);
            proof {
                lemma_address_of_view(address);
            }
            Some(address)
        },
        None => None,
    }
}

} // verus!
