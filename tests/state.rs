use feature_gate::bitmask::{FeatureBitMask, MAX_FEATURES};
use feature_gate::error::FeatureGateError;
use feature_gate::signal::{ValidatorSupportSignal, MAX_SIGNALS, VALIDATOR_SUPPORT_SIGNAL_LEN};
use feature_gate::staged::{FeatureStake, StagedFeatures, STAGED_FEATURES_LEN};

fn unique_key(n: u8) -> [u8; 32] {
    let mut key = [0u8; 32];
    key[0] = 0xA5;
    key[31] = n;
    key
}

fn setup_stage(feature_ids: &[[u8; 32]]) -> StagedFeatures {
    let mut stage = StagedFeatures::default();
    for (i, id) in feature_ids.iter().enumerate() {
        stage.features[i].feature_id = *id;
    }
    stage
}

#[test]
fn test_stage_fail_feature_already_staged() {
    let feature_id = unique_key(1);

    let mut stage = setup_stage(&[feature_id]);

    assert_eq!(
        stage.stage(&feature_id).unwrap_err(),
        FeatureGateError::FeatureAlreadyStaged
    );
}

#[test]
fn test_stage_fail_stage_full() {
    let feature_id = unique_key(1);

    let staged_features = vec![unique_key(10); MAX_FEATURES];
    let mut stage = setup_stage(&staged_features);

    assert_eq!(
        stage.stage(&feature_id).unwrap_err(),
        FeatureGateError::FeatureStageFull
    );
}

#[test]
fn test_stage_success() {
    let feature_id = unique_key(1);

    // Works with an empty stage.
    let mut stage = setup_stage(&[]);
    assert_eq!(stage.stage(&feature_id), Ok(()));
    assert_eq!(stage.features[0].feature_id, feature_id);

    // Works with a partially filled stage.
    let staged_features = vec![unique_key(2); 4];
    let mut stage = setup_stage(&staged_features);
    assert_eq!(stage.stage(&feature_id), Ok(()));
    assert_eq!(stage.features[4].feature_id, feature_id);

    // Works with an almost full stage.
    let staged_features = vec![unique_key(3); MAX_FEATURES - 1];
    let mut stage = setup_stage(&staged_features);
    assert_eq!(stage.stage(&feature_id), Ok(()));
    assert_eq!(stage.features[MAX_FEATURES - 1].feature_id, feature_id);
}

#[test]
fn stage_duplicate_leaves_slots_unchanged() {
    let feature_id = unique_key(1);
    let mut stage = setup_stage(&[unique_key(2), feature_id]);
    stage.features[1].stake_support = 77;
    let before = stage;
    assert_eq!(stage.stage(&feature_id), Err(FeatureGateError::FeatureAlreadyStaged));
    assert_eq!(stage, before);
}

#[test]
fn stage_sets_zero_stake_in_new_slot() {
    let mut stage = setup_stage(&[unique_key(2)]);
    stage.features[1].stake_support = 5;
    assert_eq!(stage.stage(&unique_key(1)), Ok(()));
    assert_eq!(stage.features[1].feature_id, unique_key(1));
    assert_eq!(stage.features[1].stake_support, 0);
}

fn test_unpack_bitmask(val: u8, unpacked: &[bool; 8]) {
    let mask = FeatureBitMask(val);
    assert_eq!(mask.0, val);
    assert_eq!(&<[bool; MAX_FEATURES]>::from(&mask), unpacked);
}

#[test]
fn test_bitmask() {
    test_unpack_bitmask(
        0b00000000,
        &[false, false, false, false, false, false, false, false],
    );
    test_unpack_bitmask(
        0b00000001,
        &[false, false, false, false, false, false, false, true],
    );
    test_unpack_bitmask(
        0b00000010,
        &[false, false, false, false, false, false, true, false],
    );
    test_unpack_bitmask(
        0b00000011,
        &[false, false, false, false, false, false, true, true],
    );
    test_unpack_bitmask(
        0b01010101,
        &[false, true, false, true, false, true, false, true],
    );
    test_unpack_bitmask(
        0b10001101,
        &[true, false, false, false, true, true, false, true],
    );
    test_unpack_bitmask(
        0b11111111,
        &[true, true, true, true, true, true, true, true],
    );
}

#[test]
fn bitmask_round_trip_all_masks() {
    for m in 0..=255u8 {
        let mask = FeatureBitMask(m);
        let flags = mask.to_flags();
        assert_eq!(FeatureBitMask::from_flags(&flags), mask);
        assert_eq!(u8::from(&mask), m);
    }
    let flags = [true, false, false, false, true, true, false, true];
    assert_eq!(FeatureBitMask::from_flags(&flags).0, 0b10001101);
}

#[test]
fn test_add_stake_support() {
    let mut features = Vec::with_capacity(MAX_FEATURES);
    for i in 0..MAX_FEATURES as u8 {
        features.push(unique_key(i + 1));
    }
    let mut stage = setup_stage(&features);

    // Signal support for feature 8 (index 7).
    stage.add_stake_support(&FeatureBitMask(0b00000001), 100_000_000);
    assert_eq!(stage.features[7].stake_support, 100_000_000);

    // Signal support for feature 8 again.
    stage.add_stake_support(&FeatureBitMask(0b00000001), 100_000_000);
    assert_eq!(stage.features[7].stake_support, 200_000_000);

    // Signal support for features 2, 4, 6, 8 (indices 1, 3, 5, 7).
    stage.add_stake_support(&FeatureBitMask(0b01010101), 100_000_000);
    assert_eq!(stage.features[0].stake_support, 0);
    assert_eq!(stage.features[1].stake_support, 100_000_000);
    assert_eq!(stage.features[2].stake_support, 0);
    assert_eq!(stage.features[3].stake_support, 100_000_000);
    assert_eq!(stage.features[4].stake_support, 0);
    assert_eq!(stage.features[5].stake_support, 100_000_000);
    assert_eq!(stage.features[6].stake_support, 0);
    assert_eq!(stage.features[7].stake_support, 300_000_000);

    // Signal support for features 2, 4, 6, 8 again.
    stage.add_stake_support(&FeatureBitMask(0b01010101), 100_000_000);
    assert_eq!(stage.features[0].stake_support, 0);
    assert_eq!(stage.features[1].stake_support, 200_000_000);
    assert_eq!(stage.features[2].stake_support, 0);
    assert_eq!(stage.features[3].stake_support, 200_000_000);
    assert_eq!(stage.features[4].stake_support, 0);
    assert_eq!(stage.features[5].stake_support, 200_000_000);
    assert_eq!(stage.features[6].stake_support, 0);
    assert_eq!(stage.features[7].stake_support, 400_000_000);

    // Signal support for features 3, 5, 7 (indices 2, 4, 6).
    stage.add_stake_support(&FeatureBitMask(0b00101010), 100_000_000);
    assert_eq!(stage.features[0].stake_support, 0);
    assert_eq!(stage.features[1].stake_support, 200_000_000);
    assert_eq!(stage.features[2].stake_support, 100_000_000);
    assert_eq!(stage.features[3].stake_support, 200_000_000);
    assert_eq!(stage.features[4].stake_support, 100_000_000);
    assert_eq!(stage.features[5].stake_support, 200_000_000);
    assert_eq!(stage.features[6].stake_support, 100_000_000);
    assert_eq!(stage.features[7].stake_support, 400_000_000);
}

#[test]
fn test_deduct_stake_support() {
    let mut stage = setup_stage(&[]);
    for (i, f) in stage.features.iter_mut().enumerate() {
        f.feature_id = unique_key(i as u8 + 1);
        f.stake_support = 400_000_000;
    }

    // Deduct support for feature 8 (index 7).
    stage.deduct_stake_support(&FeatureBitMask(0b00000001), 100_000_000);
    assert_eq!(stage.features[7].stake_support, 300_000_000);

    // Deduct support for feature 8 again.
    stage.deduct_stake_support(&FeatureBitMask(0b00000001), 100_000_000);
    assert_eq!(stage.features[7].stake_support, 200_000_000);

    // Deduct support for features 2, 4, 6, 8 (indices 1, 3, 5, 7).
    stage.deduct_stake_support(&FeatureBitMask(0b01010101), 100_000_000);
    assert_eq!(stage.features[0].stake_support, 400_000_000);
    assert_eq!(stage.features[1].stake_support, 300_000_000);
    assert_eq!(stage.features[2].stake_support, 400_000_000);
    assert_eq!(stage.features[3].stake_support, 300_000_000);
    assert_eq!(stage.features[4].stake_support, 400_000_000);
    assert_eq!(stage.features[5].stake_support, 300_000_000);
    assert_eq!(stage.features[6].stake_support, 400_000_000);
    assert_eq!(stage.features[7].stake_support, 100_000_000);

    // Deduct support for features 2, 4, 6, 8 again.
    stage.deduct_stake_support(&FeatureBitMask(0b01010101), 100_000_000);
    assert_eq!(stage.features[0].stake_support, 400_000_000);
    assert_eq!(stage.features[1].stake_support, 200_000_000);
    assert_eq!(stage.features[2].stake_support, 400_000_000);
    assert_eq!(stage.features[3].stake_support, 200_000_000);
    assert_eq!(stage.features[4].stake_support, 400_000_000);
    assert_eq!(stage.features[5].stake_support, 200_000_000);
    assert_eq!(stage.features[6].stake_support, 400_000_000);
    assert_eq!(stage.features[7].stake_support, 0);

    // Deduct support for features 3, 5, 7 (indices 2, 4, 6).
    stage.deduct_stake_support(&FeatureBitMask(0b00101010), 100_000_000);
    assert_eq!(stage.features[0].stake_support, 400_000_000);
    assert_eq!(stage.features[1].stake_support, 200_000_000);
    assert_eq!(stage.features[2].stake_support, 300_000_000);
    assert_eq!(stage.features[3].stake_support, 200_000_000);
    assert_eq!(stage.features[4].stake_support, 300_000_000);
    assert_eq!(stage.features[5].stake_support, 200_000_000);
    assert_eq!(stage.features[6].stake_support, 300_000_000);
    assert_eq!(stage.features[7].stake_support, 0);
}

#[test]
fn stake_support_saturates_and_floors() {
    let mut stage = setup_stage(&[unique_key(1)]);
    stage.features[0].stake_support = u64::MAX - 5;
    stage.add_stake_support(&FeatureBitMask(0b10000000), 10);
    assert_eq!(stage.features[0].stake_support, u64::MAX);
    stage.add_stake_support(&FeatureBitMask(0b10000000), 10);
    assert_eq!(stage.features[0].stake_support, u64::MAX);

    stage.features[0].stake_support = 7;
    stage.deduct_stake_support(&FeatureBitMask(0b10000000), 10);
    assert_eq!(stage.features[0].stake_support, 0);
}

#[test]
fn stake_support_skips_unoccupied_slots() {
    let mut stage = setup_stage(&[unique_key(1)]);
    stage.features[3].stake_support = 9;
    stage.add_stake_support(&FeatureBitMask(0b11111111), 100);
    assert_eq!(stage.features[0].stake_support, 100);
    assert_eq!(stage.features[1].stake_support, 0);
    assert_eq!(stage.features[3].stake_support, 9);
    stage.deduct_stake_support(&FeatureBitMask(0b11111111), 5);
    assert_eq!(stage.features[0].stake_support, 95);
    assert_eq!(stage.features[3].stake_support, 9);
}

#[test]
fn test_store_signal() {
    let mut signals = ValidatorSupportSignal::default();

    // Store a signal for epoch 0.
    signals.store_signal(0, FeatureBitMask(0b00000001));
    assert_eq!(signals.signals[0].epoch, 0);
    assert_eq!(signals.signals[0].signal.0, 0b00000001);

    // Store a signal for epoch 1.
    signals.store_signal(1, FeatureBitMask(0b00000010));
    assert_eq!(signals.signals[0].epoch, 1);
    assert_eq!(signals.signals[0].signal.0, 0b00000010);
    assert_eq!(signals.signals[1].epoch, 0);
    assert_eq!(signals.signals[1].signal.0, 0b00000001);

    // Store a signal for epoch 2.
    signals.store_signal(2, FeatureBitMask(0b00000100));
    assert_eq!(signals.signals[0].epoch, 2);
    assert_eq!(signals.signals[0].signal.0, 0b00000100);
    assert_eq!(signals.signals[1].epoch, 1);
    assert_eq!(signals.signals[1].signal.0, 0b00000010);
    assert_eq!(signals.signals[2].epoch, 0);
    assert_eq!(signals.signals[2].signal.0, 0b00000001);

    // Store a new signal for epoch 2.
    // It should update the existing entry.
    signals.store_signal(2, FeatureBitMask(0b11000000));
    assert_eq!(signals.signals[0].epoch, 2);
    assert_eq!(signals.signals[0].signal.0, 0b11000000);
    assert_eq!(signals.signals[1].epoch, 1);
    assert_eq!(signals.signals[1].signal.0, 0b00000010);
    assert_eq!(signals.signals[2].epoch, 0);
    assert_eq!(signals.signals[2].signal.0, 0b00000001);

    // Store a signal for epoch 3.
    signals.store_signal(3, FeatureBitMask(0b00001000));
    assert_eq!(signals.signals[0].epoch, 3);
    assert_eq!(signals.signals[0].signal.0, 0b00001000);
    assert_eq!(signals.signals[1].epoch, 2);
    assert_eq!(signals.signals[1].signal.0, 0b11000000);
    assert_eq!(signals.signals[2].epoch, 1);
    assert_eq!(signals.signals[2].signal.0, 0b00000010);
    assert_eq!(signals.signals[3].epoch, 0);
    assert_eq!(signals.signals[3].signal.0, 0b00000001);

    // Store a signal for epoch 4.
    // Epoch 0 should be rotated out.
    signals.store_signal(4, FeatureBitMask(0b00010000));
    assert_eq!(signals.signals[0].epoch, 4);
    assert_eq!(signals.signals[0].signal.0, 0b00010000);
    assert_eq!(signals.signals[1].epoch, 3);
    assert_eq!(signals.signals[1].signal.0, 0b00001000);
    assert_eq!(signals.signals[2].epoch, 2);
    assert_eq!(signals.signals[2].signal.0, 0b11000000);
    assert_eq!(signals.signals[3].epoch, 1);
    assert_eq!(signals.signals[3].signal.0, 0b00000010);
}

#[test]
fn get_signal_for_epoch_finds_stored_signal() {
    let mut signals = ValidatorSupportSignal::default();
    signals.store_signal(7, FeatureBitMask(0b1010));
    assert_eq!(signals.get_signal_for_epoch(7), Some(&FeatureBitMask(0b1010)));
    assert_eq!(signals.get_signal_for_epoch(8), None);
    for e in 10..10 + MAX_SIGNALS as u64 {
        signals.store_signal(e, FeatureBitMask(e as u8));
    }
    assert_eq!(signals.get_signal_for_epoch(7), None);
    assert_eq!(signals.get_signal_for_epoch(10), Some(&FeatureBitMask(10)));
}

#[test]
fn staged_features_bytes_round_trip() {
    let mut stage = setup_stage(&[unique_key(1), unique_key(2)]);
    stage.features[0].stake_support = 0x0102_0304_0506_0708;
    let bytes = stage.to_bytes();
    assert_eq!(bytes.len(), STAGED_FEATURES_LEN);
    assert_eq!(&bytes[0..32], &unique_key(1));
    assert_eq!(&bytes[32..40], &[8, 7, 6, 5, 4, 3, 2, 1]);
    assert_eq!(StagedFeatures::from_bytes(&bytes), Ok(stage));
    assert!(StagedFeatures::from_bytes(&bytes[1..]).is_err());
    let expected = FeatureStake { feature_id: unique_key(2), stake_support: 0 };
    assert_eq!(StagedFeatures::from_bytes(&bytes).unwrap().features[1], expected);
}

#[test]
fn support_signal_bytes_round_trip() {
    let mut signals = ValidatorSupportSignal::default();
    signals.store_signal(0x0A0B, FeatureBitMask(0b101));
    let bytes = signals.to_bytes();
    assert_eq!(bytes.len(), VALIDATOR_SUPPORT_SIGNAL_LEN);
    assert_eq!(&bytes[0..9], &[0x0B, 0x0A, 0, 0, 0, 0, 0, 0, 0b101]);
    assert_eq!(ValidatorSupportSignal::from_bytes(&bytes), Ok(signals));
    assert!(ValidatorSupportSignal::from_bytes(&vec![8; VALIDATOR_SUPPORT_SIGNAL_LEN + 1]).is_err());
}
