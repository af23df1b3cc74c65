use feature_gate::address::{
    collect_staged_features_seeds, collect_validator_support_signal_seeds,
    get_staged_features_address, get_staged_features_address_and_bump_seed,
    get_validator_support_signal_address, get_validator_support_signal_address_and_bump_seed,
};
use feature_gate::{id, ID, SYSTEM_PROGRAM_ID, VOTE_PROGRAM_ID};
use solana_pubkey::Pubkey;

#[test]
fn program_ids_match_the_runtime() {
    assert_eq!(ID, solana_sdk_ids::feature::ID.to_bytes());
    assert_eq!(id(), solana_sdk_ids::feature::ID.to_bytes());
    assert_eq!(VOTE_PROGRAM_ID, solana_sdk_ids::vote::ID.to_bytes());
    assert_eq!(SYSTEM_PROGRAM_ID, solana_sdk_ids::system_program::ID.to_bytes());
}

#[test]
fn staged_features_address_matches_pda() {
    let epoch: u64 = 42;
    let (expected, bump) = Pubkey::find_program_address(
        &[b"staged_features", &epoch.to_le_bytes()],
        &solana_sdk_ids::feature::ID,
    );
    assert_eq!(
        get_staged_features_address_and_bump_seed(&epoch),
        Ok((expected.to_bytes(), bump))
    );
    assert_eq!(get_staged_features_address(&epoch), Ok(expected.to_bytes()));
    assert_ne!(get_staged_features_address(&43), Ok(expected.to_bytes()));
    let le = epoch.to_le_bytes();
    let seeds = collect_staged_features_seeds(&le);
    assert_eq!(seeds[0], b"staged_features");
    assert_eq!(seeds[1], &le[..]);
}

#[test]
fn validator_support_signal_address_matches_pda() {
    let vote = [9u8; 32];
    let (expected, bump) = Pubkey::find_program_address(
        &[b"support_signal", &vote],
        &solana_sdk_ids::feature::ID,
    );
    assert_eq!(
        get_validator_support_signal_address_and_bump_seed(&vote),
        Ok((expected.to_bytes(), bump))
    );
    assert_eq!(get_validator_support_signal_address(&vote), Ok(expected.to_bytes()));
    assert_ne!(expected.to_bytes(), vote);
    let seeds = collect_validator_support_signal_seeds(&vote);
    assert_eq!(seeds[0], b"support_signal");
    assert_eq!(seeds[1], &vote[..]);
}
