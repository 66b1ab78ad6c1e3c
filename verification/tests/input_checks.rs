use migration_batch::ids::{check_mint_list, parse_unlock_method, UnlockMethod};
use solana_program::pubkey::Pubkey;

#[test]
fn valid_mint_list_accepted() {
    let mints = vec![
        Pubkey::new_from_array([1u8; 32]).to_string(),
        Pubkey::new_from_array([2u8; 32]).to_string(),
        spl_token::id().to_string(),
    ];
    assert_eq!(check_mint_list(&mints), Ok(()));
}

#[test]
fn malformed_mint_rejected_with_its_index() {
    let mints = vec![
        Pubkey::new_from_array([1u8; 32]).to_string(),
        "not a base58 address!".to_string(),
        Pubkey::new_from_array([2u8; 32]).to_string(),
    ];
    assert_eq!(check_mint_list(&mints), Err(1));
}

#[test]
fn too_short_address_rejected() {
    // Valid base58, but not 32 bytes.
    let mints = vec!["abc".to_string()];
    assert_eq!(check_mint_list(&mints), Err(0));
}

#[test]
fn empty_mint_list_accepted() {
    let mints: Vec<String> = Vec::new();
    assert_eq!(check_mint_list(&mints), Ok(()));
}

#[test]
fn unlock_method_parses_ignoring_case() {
    assert_eq!(parse_unlock_method("timed"), Some(UnlockMethod::Timed));
    assert_eq!(parse_unlock_method("Timed"), Some(UnlockMethod::Timed));
    assert_eq!(parse_unlock_method("TIMED"), Some(UnlockMethod::Timed));
    assert_eq!(parse_unlock_method("vote"), Some(UnlockMethod::Vote));
    assert_eq!(parse_unlock_method("Vote"), Some(UnlockMethod::Vote));
}

#[test]
fn unknown_unlock_method_rejected() {
    assert_eq!(parse_unlock_method("frozen"), None);
    assert_eq!(parse_unlock_method(""), None);
    assert_eq!(parse_unlock_method("timedx"), None);
}
