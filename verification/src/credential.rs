//! The provider credential check.
//!
//! A data provider proves it is authorized by holding a non-transferable
//! credential token. The token sits in an account whose address is derived
//! deterministically from the provider's address and the credential
//! authority's address; the check recomputes that address and checks that the
//! supplied account is the derived one, is registered to the provider, and
//! holds a positive balance. The derivation itself is the ledger's
//! associated-token-address scheme, called through a trusted wrapper.

use vstd::prelude::*;
use crate::account::AccountId;
use crate::errors::SubscriptionError;

verus! {

/// The address the ledger's associated-token-account scheme derives for a
/// wallet under an authority, as four little-endian 64-bit words. The scheme
/// is a hash-based derivation whose full definition lives outside this
/// library; the library relies only on it being a function of the two
/// addresses alone.
pub uninterp spec fn ata_of(wallet: Seq<u64>, authority: Seq<u64>) -> Seq<u64>;

/// What the credential check reads of a supplied token account: where it is,
/// who it is registered to, and how much it holds.
#[derive(Clone, Copy, PartialEq, Eq, Structural, Debug)]
pub struct TokenAccountInfo {
    /// The account's own address.
    pub address: AccountId,
    /// The wallet the account is registered to.
    pub owner: AccountId,
    /// The account's held token balance.
    pub amount: u64,
}

/// A valid provider credential: the supplied account sits at the derived
/// address, is registered to the provider, and holds a positive balance.
pub open spec fn credential_ok(
    provider: AccountId,
    authority: AccountId,
    account: TokenAccountInfo,
) -> bool {
    &&& account.address@ == ata_of(provider@, authority@)
    &&& account.owner == provider
    &&& account.amount > 0
}

/// Two addresses with the same words are the same address.
pub proof fn lemma_account_id_view_injective(a: AccountId, b: AccountId)
    ensures
        (a@ == b@) <==> (a == b),
{
    if a@ == b@ {
        assert(a.w0 == a@[0] && a.w1 == a@[1] && a.w2 == a@[2] && a.w3 == a@[3]);
        assert(b.w0 == b@[0] && b.w1 == b@[1] && b.w2 == b@[2] && b.w3 == b@[3]);
    }
}

/// Appends the eight little-endian bytes of one word.
fn push_word_le(out: &mut Vec<u8>, w: u64)
    ensures
        final(out)@.len() == old(out)@.len() + 8,
{
    let mut k: u64 = 0;
    while k < 8
        invariant
            k <= 8,
            out@.len() == old(out)@.len() + k,
        decreases 8 - k,
    {
        out.push(#[verifier::truncate] ((w >> (8 * k)) as u8));
        k = k + 1;
    }
}

/// An address as its 32 bytes, word 0 first, each word little-endian.
fn id_le_bytes(id: &AccountId) -> (r: Vec<u8>)
    ensures
        r@.len() == 32,
{
    let mut out: Vec<u8> = Vec::new();
    push_word_le(&mut out, id.w0);
    push_word_le(&mut out, id.w1);
    push_word_le(&mut out, id.w2);
    push_word_le(&mut out, id.w3);
    out
}

/// One word read back from eight little-endian bytes.
fn word_from_le(bytes: &Vec<u8>, start: usize) -> (w: u64)
    requires
        start + 8 <= bytes@.len(),
{
    let len: usize = bytes.len();
    let mut w: u64 = 0;
    let mut k: usize = 0;
    while k < 8
        invariant
            k <= 8,
            start + 8 <= len,
            len == bytes@.len(),
        decreases 8 - k,
    {
        w = w | ((bytes[start + k] as u64) << ((8 * k) as u64));
        k = k + 1;
    }
    w
}

/// An address read back from its 32 bytes.
fn id_from_le_bytes(bytes: &Vec<u8>) -> (r: AccountId)
    requires
        bytes@.len() == 32,
{
    AccountId {
        w0: word_from_le(bytes, 0),
        w1: word_from_le(bytes, 8),
        w2: word_from_le(bytes, 16),
        w3: word_from_le(bytes, 24),
    }
}

/// Relies on `anchor_spl::associated_token::get_associated_token_address`:
/// it derives the associated token account address for a wallet and a token
/// authority, a deterministic, side-effect-free function of the two
/// addresses alone.
#[verifier::external_body]
fn expected_credential_account(wallet: &AccountId, authority: &AccountId) -> (r: AccountId)
    ensures
        r@ == ata_of(wallet@, authority@),
{
    let wallet_bytes: [u8; 32] = id_le_bytes(wallet).try_into().unwrap();
    let authority_bytes: [u8; 32] = id_le_bytes(authority).try_into().unwrap();
    let derived = anchor_spl::associated_token::get_associated_token_address(
        &anchor_lang::prelude::Pubkey::new_from_array(wallet_bytes),
        &anchor_lang::prelude::Pubkey::new_from_array(authority_bytes),
    );
    id_from_le_bytes(&derived.to_bytes().to_vec())
}

/// Checks a claimed provider credential. Succeeds exactly on a valid
/// credential; an account at the wrong address fails `InvalidTokenAccount`,
/// and one at the right address that is not the provider's or holds nothing
/// fails `InvalidNFTHolder`.
pub fn verify_provider_credential(
    provider: AccountId,
    authority: AccountId,
    account: &TokenAccountInfo,
) -> (r: Result<(), SubscriptionError>)
    ensures
        r == Ok::<(), SubscriptionError>(()) <==> credential_ok(provider, authority, *account),
        account.address@ != ata_of(provider@, authority@) ==> r == Err::<(), SubscriptionError>(
            SubscriptionError::InvalidTokenAccount,
        ),
        account.address@ == ata_of(provider@, authority@) && !(account.owner == provider
            && account.amount > 0) ==> r == Err::<(), SubscriptionError>(
            SubscriptionError::InvalidNFTHolder,
        ),
{
    let expected = expected_credential_account(&provider, &authority);
    proof {
        lemma_account_id_view_injective(account.address, expected);
    }
    if !(account.address == expected) {
        return Err(SubscriptionError::InvalidTokenAccount);
    }
    if !(account.owner == provider) {
        return Err(SubscriptionError::InvalidNFTHolder);
    }
    if account.amount == 0 {
        return Err(SubscriptionError::InvalidNFTHolder);
    }
    Ok(())
}

} // verus!
