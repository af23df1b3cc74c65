//! Program instructions and their wire encoding: a tag byte, then the
//! payload of the instruction, if any.
use vstd::prelude::*;

use crate::bitmask::FeatureBitMask;
use crate::error::ProcessError;
use crate::{ID, SYSTEM_PROGRAM_ID};

verus! {

/// Feature gate program instructions.
#[derive(Clone, Copy, Debug, PartialEq, Eq, Structural)]
pub enum FeatureGateInstruction {
    /// Revoke a pending feature activation, burning the lamports of the
    /// feature account.
    ///
    /// A pending activation is a feature account that has been allocated
    /// and assigned, but not yet given an activation slot by the runtime.
    /// Activated features cannot be revoked.
    ///
    /// Accounts: 0. `[w+s]` feature, 1. `[w]` incinerator, 2. `[ ]` system
    /// program.
    RevokePendingActivation,
    /// Stage a feature for activation at the end of the next epoch.
    ///
    /// Accounts: 0. `[ ]` feature, 1. `[w]` staged features of the next
    /// epoch, 2. `[s]` staging authority.
    StageFeatureForActivation,
    /// Signal a validator's support for the features staged for the current
    /// epoch.
    ///
    /// Accounts: 0. `[w]` staged features of the current epoch, 1. `[w]`
    /// validator support signal, 2. `[ ]` vote account, 3. `[s]` authorized
    /// voter.
    SignalSupportForStagedFeatures {
        /// The support signal bitmask.
        signal: FeatureBitMask,
    },
}

/// The bytes of an instruction.
pub open spec fn encode_instruction(ix: FeatureGateInstruction) -> Seq<u8> {
    match ix {
        FeatureGateInstruction::RevokePendingActivation => seq![0u8],
        FeatureGateInstruction::StageFeatureForActivation => seq![1u8],
        FeatureGateInstruction::SignalSupportForStagedFeatures { signal } => seq![2u8, signal.0],
    }
}

/// The instruction that `data` encodes, if any.
pub open spec fn decode_instruction(data: Seq<u8>) -> Option<FeatureGateInstruction> {
    if data.len() == 1 && data[0] == 0 {
        Some(FeatureGateInstruction::RevokePendingActivation)
    } else if data.len() == 1 && data[0] == 1 {
        Some(FeatureGateInstruction::StageFeatureForActivation)
    } else if data.len() == 2 && data[0] == 2 {
        Some(FeatureGateInstruction::SignalSupportForStagedFeatures { signal: FeatureBitMask(data[1]) })
    } else {
        None
    }
}

/// Decoding the bytes of an instruction gives back the instruction.
pub proof fn lemma_decode_encode_instruction(ix: FeatureGateInstruction)
    ensures
        decode_instruction(encode_instruction(ix)) == Some(ix),
{
}

impl FeatureGateInstruction {
    /// Unpacks a byte buffer into an instruction.
    pub fn unpack(input: &[u8]) -> (r: Result<Self, ProcessError>)
        ensures
            match decode_instruction(input@) {
                Some(ix) => r == Ok::<Self, ProcessError>(ix),
                None => r == Err::<Self, ProcessError>(ProcessError::InvalidInstructionData),
            },
    {
        if input.len() == 1 && input[0] == 0 {
            Ok(FeatureGateInstruction::RevokePendingActivation)
        } else if input.len() == 1 && input[0] == 1 {
            Ok(FeatureGateInstruction::StageFeatureForActivation)
        } else if input.len() == 2 && input[0] == 2 {
            Ok(FeatureGateInstruction::SignalSupportForStagedFeatures { signal: FeatureBitMask(input[1]) })
        } else {
            Err(ProcessError::InvalidInstructionData)
        }
    }

    /// Packs an instruction into a byte buffer.
    pub fn pack(&self) -> (r: Vec<u8>)
        ensures
            r@ == encode_instruction(*self),
    {
        match self {
            FeatureGateInstruction::RevokePendingActivation => vec![0u8],
            FeatureGateInstruction::StageFeatureForActivation => vec![1u8],
            FeatureGateInstruction::SignalSupportForStagedFeatures { signal } => vec![2u8, signal.0],
        }
    }
}

/// The address of the incinerator (`1nc1nerator11111111111111111111111111111111`),
/// where burnt lamports go.
pub const INCINERATOR_ID: [u8; 32] = [
    0, 51, 144, 114, 141, 52, 17, 96, 121, 189, 201, 17, 191, 255, 0, 219, 212, 77, 46, 205, 204,
    247, 156, 166, 225, 0, 56, 225, 0, 0, 0, 0,
];

/// An account that an instruction names, with its access mode.
#[derive(Clone, Copy, Debug, PartialEq, Eq)]
pub struct AccountMeta {
    /// The account's address.
    pub pubkey: [u8; 32],
    /// Whether the account must sign.
    pub is_signer: bool,
    /// Whether the account is written.
    pub is_writable: bool,
}

/// An instruction to this program: its accounts, in order, and its data.
#[derive(Clone, Debug, PartialEq, Eq)]
pub struct Instruction {
    /// The program that runs the instruction.
    pub program_id: [u8; 32],
    /// The accounts, in the order the instruction expects them.
    pub accounts: Vec<AccountMeta>,
    /// The encoded instruction.
    pub data: Vec<u8>,
}

/// An account meta as plain values.
pub open spec fn meta(pubkey: [u8; 32], is_signer: bool, is_writable: bool) -> AccountMeta {
    AccountMeta { pubkey, is_signer, is_writable }
}

/// Creates a `RevokePendingActivation` instruction: the feature account
/// (writable, signing), the incinerator (writable) and the system program.
pub fn revoke_pending_activation(feature_id: &[u8; 32]) -> (r: Instruction)
    ensures
        r.program_id == ID,
        r.accounts@ == seq![
            meta(*feature_id, true, true),
            meta(INCINERATOR_ID, false, true),
            meta(SYSTEM_PROGRAM_ID, false, false),
        ],
        r.data@ == encode_instruction(FeatureGateInstruction::RevokePendingActivation),
{
    let accounts = vec![
        AccountMeta { pubkey: *feature_id, is_signer: true, is_writable: true },
        AccountMeta { pubkey: INCINERATOR_ID, is_signer: false, is_writable: true },
        AccountMeta { pubkey: SYSTEM_PROGRAM_ID, is_signer: false, is_writable: false },
    ];
    let data = FeatureGateInstruction::RevokePendingActivation.pack();
    Instruction { program_id: ID, accounts, data }
}

/// Creates a `StageFeatureForActivation` instruction: the feature account,
/// the staged features account of the next epoch (writable) and the
/// staging authority (signing).
pub fn stage_feature_for_activation(
    feature_id: &[u8; 32],
    staged_features_address: &[u8; 32],
    stage_authority: &[u8; 32],
) -> (r: Instruction)
    ensures
        r.program_id == ID,
        r.accounts@ == seq![
            meta(*feature_id, false, false),
            meta(*staged_features_address, false, true),
            meta(*stage_authority, true, false),
        ],
        r.data@ == encode_instruction(FeatureGateInstruction::StageFeatureForActivation),
{
    let accounts = vec![
        AccountMeta { pubkey: *feature_id, is_signer: false, is_writable: false },
        AccountMeta { pubkey: *staged_features_address, is_signer: false, is_writable: true },
        AccountMeta { pubkey: *stage_authority, is_signer: true, is_writable: false },
    ];
    let data = FeatureGateInstruction::StageFeatureForActivation.pack();
    Instruction { program_id: ID, accounts, data }
}

/// Creates a `SignalSupportForStagedFeatures` instruction: the staged
/// features account of the current epoch and the validator support signal
/// account (both writable), the vote account and the authorized voter
/// (signing).
pub fn signal_support_for_staged_features(
    staged_features_address: &[u8; 32],
    validator_support_signal_address: &[u8; 32],
    vote_account_address: &[u8; 32],
    authorized_voter_address: &[u8; 32],
    signal: FeatureBitMask,
) -> (r: Instruction)
    ensures
        r.program_id == ID,
        r.accounts@ == seq![
            meta(*staged_features_address, false, true),
            meta(*validator_support_signal_address, false, true),
            meta(*vote_account_address, false, false),
            meta(*authorized_voter_address, true, false),
        ],
        r.data@ == encode_instruction(
            FeatureGateInstruction::SignalSupportForStagedFeatures { signal },
        ),
{
    let accounts = vec![
        AccountMeta { pubkey: *staged_features_address, is_signer: false, is_writable: true },
        AccountMeta {
            pubkey: *validator_support_signal_address,
            is_signer: false,
            is_writable: true,
        },
        AccountMeta { pubkey: *vote_account_address, is_signer: false, is_writable: false },
        AccountMeta { pubkey: *authorized_voter_address, is_signer: true, is_writable: false },
    ];
    let data = FeatureGateInstruction::SignalSupportForStagedFeatures { signal }.pack();
    Instruction { program_id: ID, accounts, data }
}

} // verus!
