//! The three operations of the program: validation of their accounts, then
//! the change of state. Every check completes before anything is written.
use vstd::prelude::*;
use vstd::bytes::spec_u64_from_le_bytes;

use crate::address::{
    derived_address, get_staged_features_address, get_validator_support_signal_address,
    staged_features_seeds, support_signal_seeds,
};
use crate::bitmask::FeatureBitMask;
use crate::error::{FeatureGateError, ProcessError};
use crate::signal::{
    lays_out_entries, signal_for_epoch, stored, SupportSignalWithEpoch, ValidatorSupportSignal,
    VALIDATOR_SUPPORT_SIGNAL_LEN,
};
use crate::staged::{
    lays_out_slots, same_id, stage_result, support_added, support_deducted, FeatureStake,
    StagedFeatures, STAGED_FEATURES_LEN,
};
use crate::{ID, SYSTEM_PROGRAM_ID, VOTE_PROGRAM_ID};

verus! {

/// An account as handed to an instruction.
pub struct AccountView {
    /// The account's address.
    pub key: [u8; 32],
    /// The program that owns the account.
    pub owner: [u8; 32],
    /// The account's balance.
    pub lamports: u64,
    /// The account's data.
    pub data: Vec<u8>,
    /// Whether the account signed the transaction.
    pub is_signer: bool,
    /// Whether the account may be written.
    pub is_writable: bool,
}

/// Whether `after` is `before` in every respect.
pub open spec fn unchanged(before: AccountView, after: AccountView) -> bool {
    &&& after.key == before.key
    &&& after.owner == before.owner
    &&& after.lamports == before.lamports
    &&& after.data@ == before.data@
    &&& after.is_signer == before.is_signer
    &&& after.is_writable == before.is_writable
}

/// Whether `after` is `before` with its data alone replaced.
pub open spec fn data_replaced(before: AccountView, after: AccountView) -> bool {
    &&& after.key == before.key
    &&& after.owner == before.owner
    &&& after.lamports == before.lamports
    &&& after.is_signer == before.is_signer
    &&& after.is_writable == before.is_writable
}

/// What a feature account holds: its activation slot, if the runtime has
/// activated it, or the error met in reading it. The account must belong to
/// this program and hold at least nine bytes: a tag (0 for pending, 1 for
/// activated) and, when activated, the slot as eight little-endian bytes.
pub open spec fn feature_record(owner: Seq<u8>, data: Seq<u8>) -> Result<Option<u64>, ProcessError> {
    if owner != ID@ {
        Err(ProcessError::InvalidAccountOwner)
    } else if data.len() < 9 {
        Err(ProcessError::InvalidAccountData)
    } else if data[0] == 0 {
        Ok(None)
    } else if data[0] == 1 {
        Ok(Some(spec_u64_from_le_bytes(data.subrange(1, 9))))
    } else {
        Err(ProcessError::InvalidAccountData)
    }
}

/// Relies on `solana_feature_gate_interface::Feature::from_account_info`:
/// it checks the owner and the length, then reads the record with bincode
/// (an `Option<u64>`: tag byte, then the value in eight little-endian
/// bytes; trailing bytes are allowed).
#[verifier::external_body]
fn read_feature(owner: &[u8; 32], data: &[u8]) -> (r: Result<Option<u64>, ProcessError>)
    ensures
        r == feature_record(owner@, data@),
{
    let owner = solana_pubkey::Pubkey::new_from_array(*owner);
    let mut lamports: u64 = 0;
    let mut bytes = data.to_vec();
    let info = solana_account_info::AccountInfo::new(
        &owner, false, false, &mut lamports, &mut bytes, &owner, false, 0,
    );
    match solana_feature_gate_interface::Feature::from_account_info(&info) {
        Ok(feature) => Ok(feature.activated_at),
        Err(solana_program_error::ProgramError::InvalidAccountOwner) => {
            Err(ProcessError::InvalidAccountOwner)
        },
        Err(_) => Err(ProcessError::InvalidAccountData),
    }
}

/// The error that a feature account meets where it must be pending.
pub open spec fn pending_check(feature: AccountView) -> Option<ProcessError> {
    match feature_record(feature.owner@, feature.data@) {
        Err(e) => Some(e),
        Ok(Some(_)) => Some(ProcessError::Custom(FeatureGateError::FeatureAlreadyActivated)),
        Ok(None) => None,
    }
}

/// Check that a feature account holds a pending activation.
fn check_pending(feature: &AccountView) -> (r: Result<(), ProcessError>)
    ensures
        match pending_check(*feature) {
            Some(e) => r == Err::<(), ProcessError>(e),
            None => r is Ok,
        },
{
    match read_feature(&feature.owner, feature.data.as_slice()) {
        Err(e) => Err(e),
        Ok(Some(_)) => Err(ProcessError::Custom(FeatureGateError::FeatureAlreadyActivated)),
        Ok(None) => Ok(()),
    }
}

/// The error that a revocation meets, if any: the feature account must sign
/// and hold a pending activation.
pub open spec fn revoke_check(feature: AccountView) -> Option<ProcessError> {
    if !feature.is_signer {
        Some(ProcessError::MissingRequiredSignature)
    } else {
        pending_check(feature)
    }
}

/// Processes a revocation of a pending feature activation. On success the
/// feature account's data is cleared and the account is handed to the
/// system program; the result is its whole balance, which the caller then
/// transfers to the incinerator.
pub fn process_revoke_pending_activation(feature: &mut AccountView) -> (r: Result<u64, ProcessError>)
    ensures
        match revoke_check(*old(feature)) {
            Some(e) => r == Err::<u64, ProcessError>(e) && unchanged(*old(feature), *final(feature)),
            None => {
                &&& r == Ok::<u64, ProcessError>(old(feature).lamports)
                &&& final(feature).data@.len() == 0
                &&& final(feature).owner == SYSTEM_PROGRAM_ID
                &&& final(feature).key == old(feature).key
                &&& final(feature).lamports == old(feature).lamports
                &&& final(feature).is_signer == old(feature).is_signer
                &&& final(feature).is_writable == old(feature).is_writable
            },
        },
{
    if !feature.is_signer {
        return Err(ProcessError::MissingRequiredSignature);
    }
    match check_pending(feature) {
        Err(e) => {
            return Err(e);
        },
        Ok(()) => {},
    }
    feature.data = Vec::new();
    feature.owner = SYSTEM_PROGRAM_ID;
    Ok(feature.lamports)
}

/// The error that an account meets where it must be the staged features
/// account of `epoch`.
pub open spec fn staged_address_check(staged: AccountView, epoch: u64) -> Option<ProcessError> {
    match derived_address(staged_features_seeds(epoch), ID@) {
        None => Some(ProcessError::Custom(FeatureGateError::DerivationExhausted)),
        Some((a, _)) => if staged.key@ != a {
            Some(ProcessError::Custom(FeatureGateError::IncorrectStagedFeaturesAddress))
        } else {
            None
        },
    }
}

/// Check that an account is the staged features account of `epoch`.
fn check_staged_address(staged: &AccountView, epoch: u64) -> (r: Result<(), ProcessError>)
    ensures
        match staged_address_check(*staged, epoch) {
            Some(e) => r == Err::<(), ProcessError>(e),
            None => r is Ok,
        },
{
    match get_staged_features_address(&epoch) {
        Err(e) => Err(ProcessError::Custom(e)),
        Ok(address) => if same_id(&address, &staged.key) {
            Ok(())
        } else {
            Err(ProcessError::Custom(FeatureGateError::IncorrectStagedFeaturesAddress))
        },
    }
}

/// The error that staging meets before the staged features are read, if
/// any: the authority must be the staging authority and sign, the feature
/// must be pending, and the staged features account must be the one of the
/// next epoch, with data of the right size.
pub open spec fn stage_check(
    feature: AccountView,
    staged: AccountView,
    authority: AccountView,
    stage_authority: [u8; 32],
    current_epoch: u64,
) -> Option<ProcessError> {
    if authority.key@ != stage_authority@ {
        Some(ProcessError::IncorrectAuthority)
    } else if !authority.is_signer {
        Some(ProcessError::MissingRequiredSignature)
    } else if pending_check(feature) is Some {
        pending_check(feature)
    } else if staged_address_check(staged, current_epoch.saturating_add(1)) is Some {
        staged_address_check(staged, current_epoch.saturating_add(1))
    } else if staged.data@.len() != STAGED_FEATURES_LEN {
        Some(ProcessError::InvalidAccountData)
    } else {
        None
    }
}

/// Processes the staging of a feature for activation in the next epoch,
/// by the staging authority `stage_authority`.
pub fn process_stage_feature_for_activation(
    feature: &AccountView,
    staged_features: &mut AccountView,
    authority: &AccountView,
    stage_authority: &[u8; 32],
    current_epoch: u64,
) -> (r: Result<(), ProcessError>)
    ensures
        match stage_check(*feature, *old(staged_features), *authority, *stage_authority, current_epoch) {
            Some(e) => r == Err::<(), ProcessError>(e) && unchanged(
                *old(staged_features),
                *final(staged_features),
            ),
            None => exists|s0: Seq<FeatureStake>|
                {
                    &&& lays_out_slots(old(staged_features).data@, s0)
                    &&& match stage_result(s0, feature.key) {
                        Ok(s1) => r is Ok && lays_out_slots(final(staged_features).data@, s1)
                            && data_replaced(*old(staged_features), *final(staged_features)),
                        Err(e) => r == Err::<(), ProcessError>(ProcessError::Custom(e)) && unchanged(
                            *old(staged_features),
                            *final(staged_features),
                        ),
                    }
                },
        },
{
    if !same_id(&authority.key, stage_authority) {
        return Err(ProcessError::IncorrectAuthority);
    }
    if !authority.is_signer {
        return Err(ProcessError::MissingRequiredSignature);
    }
    match check_pending(feature) {
        Err(e) => {
            return Err(e);
        },
        Ok(()) => {},
    }
    match check_staged_address(staged_features, current_epoch.saturating_add(1)) {
        Err(e) => {
            return Err(e);
        },
        Ok(()) => {},
    }
    let mut stage = match StagedFeatures::from_bytes(staged_features.data.as_slice()) {
        Err(e) => {
            return Err(e);
        },
        Ok(stage) => stage,
    };
    let ghost s0 = stage.features@;
    assert(lays_out_slots(old(staged_features).data@, s0));
    match stage.stage(&feature.key) {
        Err(e) => {
            return Err(ProcessError::Custom(e));
        },
        Ok(()) => {},
    }
    staged_features.data = stage.to_bytes();
    assert(lays_out_slots(old(staged_features).data@, s0));
    Ok(())
}

/// The error that signalling meets before the stake weight is consulted,
/// if any: the authorized voter must sign, the vote account must belong to
/// the vote program and record that voter (`recorded_voter`: the
/// authorized voter read from the vote account's state, `None` where it
/// could not be read), and the staged features account must be the one of
/// the current epoch, belong to this program and have data of the right
/// size.
pub open spec fn signal_check(
    staged: AccountView,
    vote_account: AccountView,
    authorized_voter: AccountView,
    recorded_voter: Option<[u8; 32]>,
    current_epoch: u64,
) -> Option<ProcessError> {
    if !authorized_voter.is_signer {
        Some(ProcessError::MissingRequiredSignature)
    } else if vote_account.owner@ != VOTE_PROGRAM_ID@ {
        Some(ProcessError::InvalidAccountOwner)
    } else if recorded_voter is None {
        Some(ProcessError::InvalidAccountData)
    } else if recorded_voter.unwrap()@ != authorized_voter.key@ {
        Some(ProcessError::IncorrectAuthority)
    } else if staged_address_check(staged, current_epoch) is Some {
        staged_address_check(staged, current_epoch)
    } else if staged.owner@ != ID@ {
        Some(ProcessError::IncorrectProgramId)
    } else if staged.data@.len() != STAGED_FEATURES_LEN {
        Some(ProcessError::InvalidAccountData)
    } else {
        None
    }
}

/// The error that the validator support signal account meets, if any: it
/// must be the one of the vote account, with data of the right size.
pub open spec fn support_signal_check(support_signal: AccountView, vote_account: AccountView) -> Option<
    ProcessError,
> {
    match derived_address(support_signal_seeds(vote_account.key@), ID@) {
        None => Some(ProcessError::Custom(FeatureGateError::DerivationExhausted)),
        Some((a, _)) => if support_signal.key@ != a {
            Some(ProcessError::Custom(FeatureGateError::IncorrectValidatorSupportSignalAddress))
        } else if support_signal.data@.len() != VALIDATOR_SUPPORT_SIGNAL_LEN {
            Some(ProcessError::InvalidAccountData)
        } else {
            None
        },
    }
}

/// The slots once a new signal is counted: the contribution of the prior
/// signal of the epoch, if any, is taken back, then `stake` is added for
/// every feature that `mask` supports.
pub open spec fn tallied(s: Seq<FeatureStake>, prior: Option<u8>, mask: u8, stake: u64) -> Seq<
    FeatureStake,
> {
    match prior {
        Some(p) => support_added(support_deducted(s, p, stake), mask, stake),
        None => support_added(s, mask, stake),
    }
}

/// Signalling the same mask twice in one epoch counts it once: the second
/// signal takes back the first one's contribution before adding its own.
pub proof fn lemma_resignal_counts_once(s: Seq<FeatureStake>, mask: u8, stake: u64)
    ensures
        tallied(tallied(s, None, mask, stake), Some(mask), mask, stake) == tallied(
            s,
            None,
            mask,
            stake,
        ),
{
    let once = support_added(s, mask, stake);
    assert(support_added(support_deducted(once, mask, stake), mask, stake) =~= once);
}

/// Check that an account is the validator support signal account of the
/// vote account.
fn check_support_signal_address(support_signal: &AccountView, vote_account: &AccountView) -> (r:
    Result<(), ProcessError>)
    ensures
        match derived_address(support_signal_seeds(vote_account.key@), ID@) {
            None => r == Err::<(), ProcessError>(
                ProcessError::Custom(FeatureGateError::DerivationExhausted),
            ),
            Some((a, _)) => if support_signal.key@ != a {
                r == Err::<(), ProcessError>(
                    ProcessError::Custom(FeatureGateError::IncorrectValidatorSupportSignalAddress),
                )
            } else {
                r is Ok
            },
        },
{
    match get_validator_support_signal_address(&vote_account.key) {
        Err(e) => Err(ProcessError::Custom(e)),
        Ok(address) => if same_id(&address, &support_signal.key) {
            Ok(())
        } else {
            Err(ProcessError::Custom(FeatureGateError::IncorrectValidatorSupportSignalAddress))
        },
    }
}

/// Processes a validator's support signal for the features staged for the
/// current epoch, weighted by the vote account's stake in this epoch
/// (`vote_account_epoch_stake`). A validator without stake is checked but
/// changes nothing.
pub fn process_signal_support_for_staged_features(
    staged_features: &mut AccountView,
    support_signal: &mut AccountView,
    vote_account: &AccountView,
    authorized_voter: &AccountView,
    recorded_voter: Option<[u8; 32]>,
    signal: FeatureBitMask,
    current_epoch: u64,
    vote_account_epoch_stake: u64,
) -> (r: Result<(), ProcessError>)
    ensures
        match signal_check(
            *old(staged_features),
            *vote_account,
            *authorized_voter,
            recorded_voter,
            current_epoch,
        ) {
            Some(e) => {
                &&& r == Err::<(), ProcessError>(e)
                &&& unchanged(*old(staged_features), *final(staged_features))
                &&& unchanged(*old(support_signal), *final(support_signal))
            },
            None => if vote_account_epoch_stake == 0 {
                &&& r is Ok
                &&& unchanged(*old(staged_features), *final(staged_features))
                &&& unchanged(*old(support_signal), *final(support_signal))
            } else {
                match support_signal_check(*old(support_signal), *vote_account) {
                    Some(e) => {
                        &&& r == Err::<(), ProcessError>(e)
                        &&& unchanged(*old(staged_features), *final(staged_features))
                        &&& unchanged(*old(support_signal), *final(support_signal))
                    },
                    None => exists|
                        s0: Seq<FeatureStake>,
                        v0: Seq<SupportSignalWithEpoch>,
                        v1: Seq<SupportSignalWithEpoch>,
                    |
                        {
                            &&& r is Ok
                            &&& lays_out_slots(old(staged_features).data@, s0)
                            &&& lays_out_entries(old(support_signal).data@, v0)
                            &&& lays_out_slots(
                                final(staged_features).data@,
                                tallied(
                                    s0,
                                    signal_for_epoch(v0, current_epoch),
                                    signal.0,
                                    vote_account_epoch_stake,
                                ),
                            )
                            &&& stored(v0, current_epoch, signal.0, v1)
                            &&& lays_out_entries(final(support_signal).data@, v1)
                            &&& data_replaced(*old(staged_features), *final(staged_features))
                            &&& data_replaced(*old(support_signal), *final(support_signal))
                        },
                }
            },
        },
{
    if !authorized_voter.is_signer {
        return Err(ProcessError::MissingRequiredSignature);
    }
    if !same_id(&vote_account.owner, &VOTE_PROGRAM_ID) {
        return Err(ProcessError::InvalidAccountOwner);
    }
    let voter = match recorded_voter {
        None => {
            return Err(ProcessError::InvalidAccountData);
        },
        Some(voter) => voter,
    };
    if !same_id(&voter, &authorized_voter.key) {
        return Err(ProcessError::IncorrectAuthority);
    }
    match check_staged_address(staged_features, current_epoch) {
        Err(e) => {
            return Err(e);
        },
        Ok(()) => {},
    }
    if !same_id(&staged_features.owner, &ID) {
        return Err(ProcessError::IncorrectProgramId);
    }
    let mut stage = match StagedFeatures::from_bytes(staged_features.data.as_slice()) {
        Err(e) => {
            return Err(e);
        },
        Ok(stage) => stage,
    };
    if vote_account_epoch_stake == 0 {
        return Ok(());
    }
    match check_support_signal_address(support_signal, vote_account) {
        Err(e) => {
            return Err(e);
        },
        Ok(()) => {},
    }
    let mut signals = match ValidatorSupportSignal::from_bytes(support_signal.data.as_slice()) {
        Err(e) => {
            return Err(e);
        },
        Ok(signals) => signals,
    };
    let ghost s0 = stage.features@;
    let ghost v0 = signals.signals@;
    let prior = match signals.get_signal_for_epoch(current_epoch) {
        Some(mask) => Some(*mask),
        None => None,
    };
    match prior {
        Some(mask) => stage.deduct_stake_support(&mask, vote_account_epoch_stake),
        None => {},
    }
    stage.add_stake_support(&signal, vote_account_epoch_stake);
    signals.store_signal(current_epoch, signal);
    assert(stage.features@ == tallied(
        s0,
        signal_for_epoch(v0, current_epoch),
        signal.0,
        vote_account_epoch_stake,
    ));
    staged_features.data = stage.to_bytes();
    support_signal.data = signals.to_bytes();
    assert(lays_out_slots(old(staged_features).data@, s0));
    assert(lays_out_entries(old(support_signal).data@, v0));
    Ok(())
}

} // verus!
