//! Derivation of the addresses of the program's own accounts.
use vstd::prelude::*;
use vstd::bytes::{spec_u64_to_le_bytes, u64_to_le_bytes};
use vstd::string::StringSliceAdditionalSpecFns;

use crate::error::FeatureGateError;
use crate::ID;

verus! {

/// The seed prefix of a staged features account. Seeds:
/// `"staged_features" + epoch`, the epoch as eight little-endian bytes.
pub const SEED_PREFIX_STAGED_FEATURES: &'static str = "staged_features";

/// The seed prefix of a validator support signal account. Seeds:
/// `"support_signal" + vote_address`.
pub const SEED_PREFIX_SUPPORT_SIGNAL: &'static str = "support_signal";

/// The program derived address, with its bump seed, that the given seeds
/// and program id lead to; `None` where no bump seed gives one.
pub uninterp spec fn derived_address(seeds: Seq<Seq<u8>>, program_id: Seq<u8>) -> Option<
    (Seq<u8>, u8),
>;

/// An address and bump seed as plain values.
pub open spec fn address_view(r: Option<([u8; 32], u8)>) -> Option<(Seq<u8>, u8)> {
    match r {
        Some((a, b)) => Some((a@, b)),
        None => None,
    }
}

/// Relies on `solana_pubkey::Pubkey::try_find_program_address`: it hashes
/// the seeds, the program id and a bump seed, searching the bump from 255
/// down, and its result depends on the seeds and program id alone.
#[verifier::external_body]
fn try_find_program_address(seeds: &[&[u8]; 2], program_id: &[u8; 32]) -> (r: Option<
    ([u8; 32], u8),
>)
    ensures
        address_view(r) == derived_address(seq![seeds[0]@, seeds[1]@], program_id@),
{
    let program = solana_pubkey::Pubkey::new_from_array(*program_id);
    solana_pubkey::Pubkey::try_find_program_address(seeds, &program).map(
        |(a, b)| (a.to_bytes(), b),
    )
}

/// The seeds of the staged features account of `epoch`.
pub open spec fn staged_features_seeds(epoch: u64) -> Seq<Seq<u8>> {
    seq![SEED_PREFIX_STAGED_FEATURES.spec_bytes(), spec_u64_to_le_bytes(epoch)]
}

/// The seeds of the support signal account of a vote account.
pub open spec fn support_signal_seeds(vote_account: Seq<u8>) -> Seq<Seq<u8>> {
    seq![SEED_PREFIX_SUPPORT_SIGNAL.spec_bytes(), vote_account]
}

/// The derivation result as the library reports it.
pub open spec fn derivation_result(d: Option<(Seq<u8>, u8)>, r: Result<([u8; 32], u8), FeatureGateError>) -> bool {
    match d {
        Some((a, b)) => r matches Ok((ra, rb)) && ra@ == a && rb == b,
        None => r == Err::<([u8; 32], u8), FeatureGateError>(FeatureGateError::DerivationExhausted),
    }
}

/// The seeds of a staged features account, given the epoch as eight
/// little-endian bytes.
pub fn collect_staged_features_seeds<'a>(epoch_as_le: &'a [u8; 8]) -> (r: [&'a [u8]; 2])
    ensures
        r[0]@ == SEED_PREFIX_STAGED_FEATURES.spec_bytes(),
        r[1]@ == epoch_as_le@,
{
    [SEED_PREFIX_STAGED_FEATURES.as_bytes(), epoch_as_le.as_slice()]
}

/// The seeds of a validator support signal account.
pub fn collect_validator_support_signal_seeds<'a>(vote_account_address: &'a [u8; 32]) -> (r: [&'a [u8]; 2])
    ensures
        r[0]@ == SEED_PREFIX_SUPPORT_SIGNAL.spec_bytes(),
        r[1]@ == vote_account_address@,
{
    [SEED_PREFIX_SUPPORT_SIGNAL.as_bytes(), vote_account_address.as_slice()]
}

/// The epoch as eight little-endian bytes.
fn epoch_le_bytes(epoch: u64) -> (r: [u8; 8])
    ensures
        r@ == spec_u64_to_le_bytes(epoch),
{
    let v = u64_to_le_bytes(epoch);
    let r: [u8; 8] = [v[0], v[1], v[2], v[3], v[4], v[5], v[6], v[7]];
    assert(r@ =~= v@);
    r
}

/// Derive the address of a staged features account, with bump seed.
pub fn get_staged_features_address_and_bump_seed(epoch: &u64) -> (r: Result<
    ([u8; 32], u8),
    FeatureGateError,
>)
    ensures
        derivation_result(derived_address(staged_features_seeds(*epoch), ID@), r),
{
    let epoch_as_le = epoch_le_bytes(*epoch);
    let seeds = collect_staged_features_seeds(&epoch_as_le);
    let program_id = ID;
    match try_find_program_address(&seeds, &program_id) {
        Some(found) => Ok(found),
        None => Err(FeatureGateError::DerivationExhausted),
    }
}

/// Derive the address of a staged features account.
pub fn get_staged_features_address(epoch: &u64) -> (r: Result<[u8; 32], FeatureGateError>)
    ensures
        match derived_address(staged_features_seeds(*epoch), ID@) {
            Some((a, _)) => r matches Ok(ra) && ra@ == a,
            None => r == Err::<[u8; 32], FeatureGateError>(FeatureGateError::DerivationExhausted),
        },
{
    match get_staged_features_address_and_bump_seed(epoch) {
        Ok((address, _)) => Ok(address),
        Err(e) => Err(e),
    }
}

/// Derive the address of a validator support signal account, with bump seed.
pub fn get_validator_support_signal_address_and_bump_seed(vote_account_address: &[u8; 32]) -> (r:
    Result<([u8; 32], u8), FeatureGateError>)
    ensures
        derivation_result(derived_address(support_signal_seeds(vote_account_address@), ID@), r),
{
    let seeds = collect_validator_support_signal_seeds(vote_account_address);
    let program_id = ID;
    match try_find_program_address(&seeds, &program_id) {
        Some(found) => Ok(found),
        None => Err(FeatureGateError::DerivationExhausted),
    }
}

/// Derive the address of a validator support signal account.
pub fn get_validator_support_signal_address(vote_account_address: &[u8; 32]) -> (r: Result<
    [u8; 32],
    FeatureGateError,
>)
    ensures
        match derived_address(support_signal_seeds(vote_account_address@), ID@) {
            Some((a, _)) => r matches Ok(ra) && ra@ == a,
            None => r == Err::<[u8; 32], FeatureGateError>(FeatureGateError::DerivationExhausted),
        },
{
    match get_validator_support_signal_address_and_bump_seed(vote_account_address) {
        Ok((address, _)) => Ok(address),
        Err(e) => Err(e),
    }
}

} // verus!
