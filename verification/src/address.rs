//! Addresses and the derivation of key-less authority addresses.

use vstd::prelude::*;

verus! {

/// A 32-byte account or program address.
#[derive(Clone, Copy, Debug, PartialEq, Eq, Hash)]
pub struct Address {
    pub bytes: [u8; 32],
}

impl View for Address {
    type V = Seq<u8>;

    open spec fn view(&self) -> Seq<u8> {
        self.bytes@
    }
}

impl Address {
    /// The address made of the given bytes.
    pub fn new(bytes: [u8; 32]) -> (r: Address)
        ensures
            r.bytes == bytes,
            r@ == bytes@,
    {
        Address { bytes }
    }

    /// Exact equality of two addresses, byte by byte over all 32 bytes.
    pub fn same(&self, other: &Address) -> (r: bool)
        ensures
            r == (self@ == other@),
    {
        let mut i: usize = 0;
        while i < 32
            invariant
                i <= 32,
                forall|j: int| 0 <= j < i ==> self.bytes@[j] == other.bytes@[j],
            decreases 32 - i,
        {
            if self.bytes[i] != other.bytes[i] {
                return false;
            }
            i += 1;
        }
        proof {
            assert(self.bytes@ =~= other.bytes@);
        }
        true
    }

    /// The 32 bytes of the address, as a seed of a derivation.
    pub fn to_seed(&self) -> (r: Vec<u8>)
        ensures
            r@ == self@,
    {
        let mut out: Vec<u8> = Vec::new();
        let mut i: usize = 0;
        while i < 32
            invariant
                i <= 32,
                out@.len() == i,
                forall|j: int| 0 <= j < i ==> out@[j] == self.bytes@[j],
            decreases 32 - i,
        {
            out.push(self.bytes[i]);
            i += 1;
        }
        proof {
            assert(out@ =~= self.bytes@);
        }
        out
    }
}

/// The bytes of a fixed tag, as a seed of a derivation.
pub fn seed_of<const N: usize>(tag: &[u8; N]) -> (r: Vec<u8>)
    ensures
        r@ == tag@,
{
    let mut out: Vec<u8> = Vec::new();
    let mut i: usize = 0;
    while i < N
        invariant
            i <= N,
            out@.len() == i,
            forall|j: int| 0 <= j < i ==> out@[j] == tag@[j],
        decreases N - i,
    {
        out.push(tag[i]);
        i += 1;
    }
    proof {
        assert(out@ =~= tag@);
    }
    out
}

/// The view of an address that a derivation may have given.
pub open spec fn address_view(a: Option<Address>) -> Option<Seq<u8>> {
    match a {
        Some(x) => Some(x@),
        None => None,
    }
}

/// The views of a search result.
pub open spec fn search_view(found: Option<(Address, u8)>) -> Option<(Seq<u8>, u8)> {
    match found {
        Some((a, bump)) => Some((a@, bump)),
        None => None,
    }
}

/// The byte strings that a list of seeds stands for.
pub open spec fn seed_bytes(seeds: Seq<Vec<u8>>) -> Seq<Seq<u8>> {
    seeds.map_values(|s: Vec<u8>| s@)
}

/// The address that the host chain derives from `seeds` under the program
/// `program_id`, or `None` where the seeds are refused (too many, too long,
/// or hashing to an address that has a private key).
pub uninterp spec fn program_address(seeds: Seq<Seq<u8>>, program_id: Seq<u8>) -> Option<Seq<u8>>;

/// The address and bump that the host chain's search finds for `seeds` under
/// the program `program_id`, or `None` where no bump gives an address.
pub uninterp spec fn found_program_address(seeds: Seq<Seq<u8>>, program_id: Seq<u8>) -> Option<
    (Seq<u8>, u8),
>;

/// Calls `Pubkey::create_program_address` of anchor_lang (solana_program).
/// Trusted: the result is the derivation named `program_address` on the same
/// seeds and program, with every failure of the outside function as `None`.
#[verifier::external_body]
fn create_program_address(seeds: &Vec<Vec<u8>>, program_id: &Address) -> (r: Option<Address>)
    ensures
        address_view(r) == program_address(seed_bytes(seeds@), program_id@),
{
    let parts: Vec<&[u8]> = seeds.iter().map(|s| s.as_slice()).collect();
    let owner = anchor_lang::prelude::Pubkey::new_from_array(program_id.bytes);
    match anchor_lang::prelude::Pubkey::create_program_address(&parts, &owner) {
        Ok(key) => Some(Address { bytes: key.to_bytes() }),
        Err(_) => None,
    }
}

/// Calls `Pubkey::try_find_program_address` of anchor_lang (solana_program).
/// Trusted: the result is the search named `found_program_address`, and an
/// address that the search returns with a bump is the derivation from the
/// same seeds followed by that bump as a one-byte seed.
#[verifier::external_body]
fn try_find_program_address(seeds: &Vec<Vec<u8>>, program_id: &Address) -> (r: Option<
    (Address, u8),
>)
    ensures
        search_view(r) == found_program_address(seed_bytes(seeds@), program_id@),
        r matches Some((a, bump)) ==> program_address(
            seed_bytes(seeds@).push(seq![bump]),
            program_id@,
        ) == Some(a@),
{
    let parts: Vec<&[u8]> = seeds.iter().map(|s| s.as_slice()).collect();
    let owner = anchor_lang::prelude::Pubkey::new_from_array(program_id.bytes);
    match anchor_lang::prelude::Pubkey::try_find_program_address(&parts, &owner) {
        Some((key, bump)) => Some((Address { bytes: key.to_bytes() }, bump)),
        None => None,
    }
}

/// What `derive_address` computes: the derivation from `seeds` followed by `bump`.
pub open spec fn derived(seeds: Seq<Seq<u8>>, bump: u8, program_id: Seq<u8>) -> Option<Seq<u8>> {
    program_address(seeds.push(seq![bump]), program_id)
}

/// Derives the authority address for `seeds` and the stored `bump` under
/// `program_id`. `None` where the seeds with this bump give no address.
pub fn derive_address(seeds: &Vec<Vec<u8>>, bump: u8, program_id: &Address) -> (r: Option<Address>)
    ensures
        address_view(r) == derived(seed_bytes(seeds@), bump, program_id@),
{
    let mut all: Vec<Vec<u8>> = seeds.clone();
    let mut last: Vec<u8> = Vec::new();
    last.push(bump);
    all.push(last);
    proof {
        assert(seed_bytes(all@) =~= seed_bytes(seeds@).push(seq![bump]));
    }
    create_program_address(&all, program_id)
}

/// The program that owns the pool and its custody account.
pub const CIRCLE_INTEGRATION_ID: [u8; 32] = [
    89, 236, 56, 217, 55, 97, 24, 183, 158, 144, 249, 179, 197, 85, 96, 59, 225, 146, 43, 188, 223,
    193, 164, 46, 121, 0, 136, 52, 149, 226, 46, 163,
];

/// The downstream burn target.
pub const TOKEN_MESSENGER_MINTER_ID: [u8; 32] = [
    166, 95, 201, 67, 65, 154, 90, 213, 144, 4, 47, 214, 124, 151, 145, 253, 1, 90, 207, 83, 165,
    76, 200, 35, 237, 184, 255, 129, 185, 237, 114, 46,
];

/// The program that receives relayed messages.
pub const SOLANA_MESSENGER_ID: [u8; 32] = [
    11, 112, 97, 170, 28, 112, 251, 12, 244, 202, 247, 177, 152, 25, 152, 135, 156, 127, 2, 12, 220,
    111, 198, 95, 121, 148, 192, 70, 88, 135, 92, 144,
];

/// The system program.
pub const SYSTEM_PROGRAM_ID: [u8; 32] = [
    0, 0, 0, 0, 0, 0, 0, 0, 0, 0, 0, 0, 0, 0, 0, 0, 0, 0, 0, 0, 0, 0, 0, 0, 0, 0, 0, 0, 0, 0, 0, 0,
];

/// The token program under which custody accounts live.
pub const TOKEN_PROGRAM_ID: [u8; 32] = [
    6, 221, 246, 225, 215, 101, 161, 147, 217, 203, 225, 70, 206, 235, 121, 172, 28, 180, 133, 237,
    95, 91, 55, 145, 58, 140, 245, 133, 126, 255, 0, 169,
];

/// The program under which associated token addresses are derived.
pub const ASSOCIATED_TOKEN_PROGRAM_ID: [u8; 32] = [
    140, 151, 37, 143, 78, 36, 137, 241, 187, 61, 16, 41, 20, 142, 13, 131, 11, 90, 19, 153, 218,
    255, 16, 132, 4, 142, 123, 216, 219, 233, 248, 89,
];

/// What `find` computes: the search over bumps for `seeds`.
pub open spec fn found(seeds: Seq<Seq<u8>>, program_id: Seq<u8>) -> Option<(Seq<u8>, u8)> {
    found_program_address(seeds, program_id)
}

/// Searches the bump for `seeds` under `program_id` and returns the derived
/// address with it. An address that is found derives from the seeds with the
/// bump found.
pub fn find(seeds: &Vec<Vec<u8>>, program_id: &Address) -> (r: Option<(Address, u8)>)
    ensures
        search_view(r) == found(seed_bytes(seeds@), program_id@),
        r matches Some((a, bump)) ==> derived(seed_bytes(seeds@), bump, program_id@) == Some(a@),
{
    try_find_program_address(seeds, program_id)
}

/// The seeds of an associated token address: wallet, token program, mint.
pub open spec fn associated_token_seeds(wallet: Seq<u8>, mint: Seq<u8>) -> Seq<Seq<u8>> {
    seq![wallet, TOKEN_PROGRAM_ID@, mint]
}

/// Searches the token account address associated with `wallet` for `mint`.
pub fn find_associated_token_address(wallet: &Address, mint: &Address) -> (r: Option<
    (Address, u8),
>)
    ensures
        search_view(r) == found(
            associated_token_seeds(wallet@, mint@),
            ASSOCIATED_TOKEN_PROGRAM_ID@,
        ),
{
    let mut seeds: Vec<Vec<u8>> = Vec::new();
    seeds.push(wallet.to_seed());
    seeds.push(Address::new(TOKEN_PROGRAM_ID).to_seed());
    seeds.push(mint.to_seed());
    proof {
        assert(seed_bytes(seeds@) =~= associated_token_seeds(wallet@, mint@));
    }
    find(&seeds, &Address::new(ASSOCIATED_TOKEN_PROGRAM_ID))
}

} // verus!
