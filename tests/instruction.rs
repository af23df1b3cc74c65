use feature_gate::bitmask::FeatureBitMask;
use feature_gate::error::{FeatureGateError, ProcessError};
use feature_gate::instruction::{
    revoke_pending_activation, signal_support_for_staged_features, stage_feature_for_activation,
    AccountMeta, FeatureGateInstruction, INCINERATOR_ID,
};

fn test_pack_unpack(instruction: &FeatureGateInstruction) {
    let packed = instruction.pack();
    let unpacked = FeatureGateInstruction::unpack(&packed).unwrap();
    assert_eq!(instruction, &unpacked);
}

#[test]
fn test_pack_unpack_revoke_pending_activation() {
    test_pack_unpack(&FeatureGateInstruction::RevokePendingActivation);
}

#[test]
fn pack_unpack_stage_and_signal() {
    test_pack_unpack(&FeatureGateInstruction::StageFeatureForActivation);
    test_pack_unpack(&FeatureGateInstruction::SignalSupportForStagedFeatures {
        signal: FeatureBitMask(0b0101_0101),
    });
    assert_eq!(FeatureGateInstruction::RevokePendingActivation.pack(), vec![0]);
    assert_eq!(FeatureGateInstruction::StageFeatureForActivation.pack(), vec![1]);
    assert_eq!(
        FeatureGateInstruction::SignalSupportForStagedFeatures { signal: FeatureBitMask(9) }.pack(),
        vec![2, 9]
    );
}

#[test]
fn unpack_rejects_bad_tags_and_lengths() {
    for input in [&[][..], &[3][..], &[0, 0][..], &[1, 5][..], &[2][..], &[2, 1, 1][..], &[255][..]] {
        assert_eq!(
            FeatureGateInstruction::unpack(input),
            Err(ProcessError::InvalidInstructionData)
        );
    }
}

#[test]
fn error_codes_are_stable() {
    let all = [
        FeatureGateError::FeatureAlreadyActivated,
        FeatureGateError::FeatureAlreadyStaged,
        FeatureGateError::FeatureStageFull,
        FeatureGateError::IncorrectStagedFeaturesAddress,
        FeatureGateError::IncorrectValidatorSupportSignalAddress,
        FeatureGateError::DerivationExhausted,
    ];
    for (i, e) in all.iter().enumerate() {
        assert_eq!(e.code(), i as u32);
        assert_eq!(FeatureGateError::from_code(i as u32), Some(*e));
    }
    assert_eq!(FeatureGateError::from_code(6), None);
    assert_eq!(FeatureGateError::FeatureAlreadyActivated.to_str(), "Feature already activated");
    assert_eq!(
        ProcessError::from(FeatureGateError::FeatureStageFull),
        ProcessError::Custom(FeatureGateError::FeatureStageFull)
    );
}

#[test]
fn revoke_pending_activation_builds_accounts() {
    let feature = [4u8; 32];
    let ix = revoke_pending_activation(&feature);
    assert_eq!(ix.program_id, feature_gate::ID);
    assert_eq!(INCINERATOR_ID, solana_sdk_ids::incinerator::ID.to_bytes());
    assert_eq!(
        ix.accounts,
        vec![
            AccountMeta { pubkey: feature, is_signer: true, is_writable: true },
            AccountMeta { pubkey: INCINERATOR_ID, is_signer: false, is_writable: true },
            AccountMeta { pubkey: feature_gate::SYSTEM_PROGRAM_ID, is_signer: false, is_writable: false },
        ]
    );
    assert_eq!(ix.data, vec![0]);
}

#[test]
fn stage_and_signal_instructions_build_accounts() {
    let ix = stage_feature_for_activation(&[1; 32], &[2; 32], &[3; 32]);
    assert_eq!(
        ix.accounts,
        vec![
            AccountMeta { pubkey: [1; 32], is_signer: false, is_writable: false },
            AccountMeta { pubkey: [2; 32], is_signer: false, is_writable: true },
            AccountMeta { pubkey: [3; 32], is_signer: true, is_writable: false },
        ]
    );
    assert_eq!(ix.data, vec![1]);
    let ix = signal_support_for_staged_features(&[1; 32], &[2; 32], &[3; 32], &[4; 32], FeatureBitMask(6));
    assert_eq!(ix.accounts.len(), 4);
    assert_eq!(ix.accounts[1], AccountMeta { pubkey: [2; 32], is_signer: false, is_writable: true });
    assert_eq!(ix.accounts[3], AccountMeta { pubkey: [4; 32], is_signer: true, is_writable: false });
    assert_eq!(ix.data, vec![2, 6]);
}
