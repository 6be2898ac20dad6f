//! The narrow boundary to the host ledger's crates: address derivation and
//! token-account decoding.  Each `external_body` function below wraps exactly
//! one outside routine and converts between its types and plain byte
//! vectors; everything else in this module is verified.

use vstd::prelude::*;
use vstd::bytes::*;
use solana_program::program_pack::Pack;
use crate::accounts::copy_bytes;

verus! {

/// What `Pubkey::try_find_program_address` returns for a seed list and a
/// program id: the derived address and bump, or `None` when the derivation
/// fails.  A pure function of its arguments.
pub uninterp spec fn pda_of(seeds: Seq<Seq<u8>>, program_id: Seq<u8>) -> Option<(Seq<u8>, u8)>;

/// What `get_associated_token_address` returns for a wallet and a mint.  A
/// pure function of its arguments.
pub uninterp spec fn ata_of(wallet: Seq<u8>, mint: Seq<u8>) -> Seq<u8>;

/// What `spl_token::state::Account::unpack` yields from an account's bytes:
/// the `(mint, owner, amount)` triple, or `None` when the bytes are not an
/// initialized token account.  A pure function of its argument.
pub uninterp spec fn token_account_of(data: Seq<u8>) -> Option<(Seq<u8>, Seq<u8>, u64)>;

/// Whether `spl_token::state::Mint::unpack` accepts these bytes as an
/// initialized mint.  A pure function of its argument.
pub uninterp spec fn mint_parses(data: Seq<u8>) -> bool;

/// Whether a key is the generic allocator's (the system program's) id.
pub uninterp spec fn is_system_program_id(key: Seq<u8>) -> bool;

/// Whether a key is the token service's (the token program's) id.
pub uninterp spec fn is_token_program_id(key: Seq<u8>) -> bool;

/// Relies on `solana_program::pubkey::Pubkey::try_find_program_address`:
/// deterministic in the seeds and program id; yields a 32-byte address and
/// the bump that produced it, or `None` when every bump fails (over-long
/// seeds, or no off-curve address exists).
#[verifier::external_body]
pub(crate) fn try_find_pda(seeds: &Vec<Vec<u8>>, program_id: &Vec<u8>) -> (r: Option<
    (Vec<u8>, u8),
>)
    requires
        program_id@.len() == 32,
    ensures
        r is Some <==> pda_of(seeds.deep_view(), program_id@) is Some,
        r matches Some(p) ==> Some((p.0@, p.1)) == pda_of(seeds.deep_view(), program_id@)
            && p.0@.len() == 32,
{
    let pid = solana_program::pubkey::Pubkey::try_from(program_id.as_slice()).unwrap();
    let seed_refs: Vec<&[u8]> = seeds.iter().map(|s| s.as_slice()).collect();
    solana_program::pubkey::Pubkey::try_find_program_address(&seed_refs, &pid)
        .map(|(key, bump)| (key.to_bytes().to_vec(), bump))
}

/// Relies on `spl_associated_token_account::get_associated_token_address`:
/// the canonical token account address for a wallet and mint, deterministic
/// in its arguments.  (It aborts only if no bump exists for the seed tuple,
/// which has no known instance.)
#[verifier::external_body]
pub(crate) fn derive_ata(wallet: &Vec<u8>, mint: &Vec<u8>) -> (r: Vec<u8>)
    requires
        wallet@.len() == 32,
        mint@.len() == 32,
    ensures
        r@ == ata_of(wallet@, mint@),
        r@.len() == 32,
{
    let w = solana_program::pubkey::Pubkey::try_from(wallet.as_slice()).unwrap();
    let m = solana_program::pubkey::Pubkey::try_from(mint.as_slice()).unwrap();
    spl_associated_token_account::get_associated_token_address(&w, &m).to_bytes().to_vec()
}

/// A token account's fields, as plain values.
pub struct TokenAccountView {
    pub mint: Vec<u8>,
    pub owner: Vec<u8>,
    pub amount: u64,
}

/// Relies on `spl_token::state::Account::unpack`: accepts only 165-byte
/// buffers holding an initialized account; the mint is bytes 0..32, the
/// owner bytes 32..64, the amount little-endian at 64..72.
#[verifier::external_body]
pub(crate) fn unpack_token_account(data: &[u8]) -> (r: Option<TokenAccountView>)
    ensures
        r is Some <==> token_account_of(data@) is Some,
        r matches Some(v) ==> Some((v.mint@, v.owner@, v.amount)) == token_account_of(data@)
            && data@.len() == 165 && v.mint@ == data@.subrange(0, 32) && v.owner@
            == data@.subrange(32, 64) && v.amount == spec_u64_from_le_bytes(
            data@.subrange(64, 72),
        ),
        data@.len() != 165 ==> r is None,
{
    match spl_token::state::Account::unpack(data) {
        Ok(a) => Some(
            TokenAccountView {
                mint: a.mint.to_bytes().to_vec(),
                owner: a.owner.to_bytes().to_vec(),
                amount: a.amount,
            },
        ),
        Err(_) => None,
    }
}

/// Relies on `spl_token::state::Mint::unpack`: accepts only 82-byte buffers
/// holding an initialized mint.
#[verifier::external_body]
pub(crate) fn check_mint(data: &[u8]) -> (r: bool)
    ensures
        r == mint_parses(data@),
        data@.len() != 82 ==> !r,
{
    spl_token::state::Mint::unpack(data).is_ok()
}

/// Relies on `solana_program::system_program::id`: compares a key against
/// the system program's fixed id.
#[verifier::external_body]
pub(crate) fn is_system_program_key(key: &Vec<u8>) -> (r: bool)
    ensures
        r == is_system_program_id(key@),
{
    key.as_slice() == solana_program::system_program::id().to_bytes()
}

/// Relies on `spl_token::id`: compares a key against the token program's
/// fixed id.
#[verifier::external_body]
pub(crate) fn is_token_program_key(key: &Vec<u8>) -> (r: bool)
    ensures
        r == is_token_program_id(key@),
{
    key.as_slice() == spl_token::id().to_bytes()
}

// ---------------------------------------------------------------------------
// Verified seed construction: the three derivations this program uses.
// ---------------------------------------------------------------------------

/// The bytes of the ASCII string "vesting".
pub open spec fn spec_vesting_seed() -> Seq<u8> {
    seq![118u8, 101u8, 115u8, 116u8, 105u8, 110u8, 103u8]
}

/// The bytes of the ASCII string "vault".
pub open spec fn spec_vault_seed() -> Seq<u8> {
    seq![118u8, 97u8, 117u8, 108u8, 116u8]
}

/// The bytes of the ASCII string "authority".
pub open spec fn spec_authority_seed() -> Seq<u8> {
    seq![97u8, 117u8, 116u8, 104u8, 111u8, 114u8, 105u8, 116u8, 121u8]
}

fn vesting_seed() -> (s: Vec<u8>)
    ensures
        s@ == spec_vesting_seed(),
{
    let mut s: Vec<u8> = Vec::new();
    s.push(118u8);
    s.push(101u8);
    s.push(115u8);
    s.push(116u8);
    s.push(105u8);
    s.push(110u8);
    s.push(103u8);
    proof {
        assert(s@ =~= spec_vesting_seed());
    }
    s
}

fn vault_seed() -> (s: Vec<u8>)
    ensures
        s@ == spec_vault_seed(),
{
    let mut s: Vec<u8> = Vec::new();
    s.push(118u8);
    s.push(97u8);
    s.push(117u8);
    s.push(108u8);
    s.push(116u8);
    proof {
        assert(s@ =~= spec_vault_seed());
    }
    s
}

fn authority_seed() -> (s: Vec<u8>)
    ensures
        s@ == spec_authority_seed(),
{
    let mut s: Vec<u8> = Vec::new();
    s.push(97u8);
    s.push(117u8);
    s.push(116u8);
    s.push(104u8);
    s.push(111u8);
    s.push(114u8);
    s.push(105u8);
    s.push(116u8);
    s.push(121u8);
    proof {
        assert(s@ =~= spec_authority_seed());
    }
    s
}

/// Address and bump of the vesting record for a creator and nonce.
pub open spec fn spec_vesting_record_pda(program_id: Seq<u8>, creator: Seq<u8>, nonce: u64) -> Option<
    (Seq<u8>, u8),
> {
    pda_of(seq![spec_vesting_seed(), creator, spec_u64_to_le_bytes(nonce)], program_id)
}

/// Address and bump of the vault for a vesting record.
pub open spec fn spec_vault_pda(program_id: Seq<u8>, record_key: Seq<u8>) -> Option<(Seq<u8>, u8)> {
    pda_of(seq![spec_vault_seed(), record_key], program_id)
}

/// Address and bump of the vault's spending authority for a vesting record.
pub open spec fn spec_authority_pda(program_id: Seq<u8>, record_key: Seq<u8>) -> Option<
    (Seq<u8>, u8),
> {
    pda_of(seq![spec_authority_seed(), record_key], program_id)
}

pub fn derive_vesting_record_pda(program_id: &Vec<u8>, creator: &Vec<u8>, nonce: u64) -> (r: Option<
    (Vec<u8>, u8),
>)
    requires
        program_id@.len() == 32,
    ensures
        r is Some <==> spec_vesting_record_pda(program_id@, creator@, nonce) is Some,
        r matches Some(p) ==> Some((p.0@, p.1)) == spec_vesting_record_pda(
            program_id@,
            creator@,
            nonce,
        ) && p.0@.len() == 32,
{
    let mut seeds: Vec<Vec<u8>> = Vec::new();
    seeds.push(vesting_seed());
    seeds.push(copy_bytes(creator));
    seeds.push(u64_to_le_bytes(nonce));
    proof {
        assert(seeds.deep_view() =~~= seq![
            spec_vesting_seed(),
            creator@,
            spec_u64_to_le_bytes(nonce),
        ]);
    }
    try_find_pda(&seeds, program_id)
}

pub fn derive_vault_pda(program_id: &Vec<u8>, record_key: &Vec<u8>) -> (r: Option<(Vec<u8>, u8)>)
    requires
        program_id@.len() == 32,
    ensures
        r is Some <==> spec_vault_pda(program_id@, record_key@) is Some,
        r matches Some(p) ==> Some((p.0@, p.1)) == spec_vault_pda(program_id@, record_key@)
            && p.0@.len() == 32,
{
    let mut seeds: Vec<Vec<u8>> = Vec::new();
    seeds.push(vault_seed());
    seeds.push(copy_bytes(record_key));
    proof {
        assert(seeds.deep_view() =~~= seq![spec_vault_seed(), record_key@]);
    }
    try_find_pda(&seeds, program_id)
}

pub fn derive_authority_pda(program_id: &Vec<u8>, record_key: &Vec<u8>) -> (r: Option<
    (Vec<u8>, u8),
>)
    requires
        program_id@.len() == 32,
    ensures
        r is Some <==> spec_authority_pda(program_id@, record_key@) is Some,
        r matches Some(p) ==> Some((p.0@, p.1)) == spec_authority_pda(program_id@, record_key@)
            && p.0@.len() == 32,
{
    let mut seeds: Vec<Vec<u8>> = Vec::new();
    seeds.push(authority_seed());
    seeds.push(copy_bytes(record_key));
    proof {
        assert(seeds.deep_view() =~~= seq![spec_authority_seed(), record_key@]);
    }
    try_find_pda(&seeds, program_id)
}

} // verus!
