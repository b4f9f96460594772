use stream_escrow::account::{Seeds, Tag};
use stream_escrow::keys::{find_program_address, Pubkey};
use stream_escrow::spl_utils::get_seeds;
use stream_escrow::utils::{
    assert_keys_equal, associated_token_program_id, check_data_len, default_fee_receiver,
    derive_cell, get_associated_token_address, get_master_address_and_bump_seed,
    get_multisig_data_and_bump_seed, get_token_withdraw_data_and_bump_seed,
    get_withdraw_data_and_bump_seed, parse_pubkey, system_program_id, token_program_id,
};
use stream_escrow::error::ProgramError;

fn key(n: u8) -> Pubkey {
    Pubkey { bytes: [n; 32] }
}

fn theirs(k: &Pubkey) -> solana_program::pubkey::Pubkey {
    solana_program::pubkey::Pubkey::new_from_array(k.bytes)
}

#[test]
fn keys_compare_by_their_bytes() {
    assert!(key(1) == key(1));
    assert!(key(1) != key(2));
    let mut bytes = [1u8; 32];
    bytes[31] = 2;
    assert!(Pubkey::new_from_array(bytes) != key(1));
    assert_eq!(key(7).to_vec(), vec![7u8; 32]);
}

#[test]
fn vault_address_is_the_runtime_derivation() {
    let program = key(9);
    let sender = key(1);
    let (expected, bump) =
        solana_program::pubkey::Pubkey::find_program_address(&[&sender.bytes], &theirs(&program));
    let got = get_master_address_and_bump_seed(&sender, &program).unwrap();
    assert_eq!(got.0.bytes, expected.to_bytes());
    assert_eq!(got.1, bump);
    assert!(got.0 != sender);
    assert!(got.0 != program);
}

#[test]
fn ledger_addresses_are_the_runtime_derivations() {
    let program = key(9);
    let sender = key(1);
    let mint = key(5);
    let (native, native_bump) = solana_program::pubkey::Pubkey::find_program_address(
        &[b"withdraw_sol", &sender.bytes],
        &theirs(&program),
    );
    let got = get_withdraw_data_and_bump_seed("withdraw_sol", &sender, &program).unwrap();
    assert_eq!((got.0.bytes, got.1), (native.to_bytes(), native_bump));
    let (token, token_bump) = solana_program::pubkey::Pubkey::find_program_address(
        &[b"withdraw_token", &sender.bytes, &mint.bytes],
        &theirs(&program),
    );
    let got = get_token_withdraw_data_and_bump_seed("withdraw_token", &sender, &mint, &program).unwrap();
    assert_eq!((got.0.bytes, got.1), (token.to_bytes(), token_bump));
    let (safe, safe_bump) = solana_program::pubkey::Pubkey::find_program_address(
        &[b"multisig_safe", &sender.bytes],
        &theirs(&program),
    );
    let got = get_multisig_data_and_bump_seed("multisig_safe", &sender, &program).unwrap();
    assert_eq!((got.0.bytes, got.1), (safe.to_bytes(), safe_bump));
}

#[test]
fn derive_cell_agrees_with_the_named_derivations() {
    let program = key(9);
    let sender = key(1);
    let mint = key(5);
    let (address, seeds) = derive_cell(Tag::WithdrawToken, &sender, Some(mint), &program).unwrap();
    let named = get_token_withdraw_data_and_bump_seed("withdraw_token", &sender, &mint, &program).unwrap();
    assert!(address == named.0);
    assert_eq!(seeds.bump, named.1);
    assert_eq!(
        seeds.to_vec(),
        vec![b"withdraw_token".to_vec(), vec![1u8; 32], vec![5u8; 32], vec![named.1]]
    );
    let (vault, vault_seeds) = derive_cell(Tag::Vault, &sender, None, &program).unwrap();
    assert!(vault == get_master_address_and_bump_seed(&sender, &program).unwrap().0);
    assert_eq!(vault_seeds.to_vec(), vec![vec![1u8; 32], vec![vault_seeds.bump]]);
    let (ledger, _) = derive_cell(Tag::WithdrawMultisigSol, &sender, None, &program).unwrap();
    assert!(
        ledger == get_withdraw_data_and_bump_seed("withdraw_multisig_sol", &sender, &program).unwrap().0
    );
    let (safe, _) = derive_cell(Tag::MultisigSafe, &sender, None, &program).unwrap();
    assert!(safe == get_multisig_data_and_bump_seed("multisig_safe", &sender, &program).unwrap().0);
    let (native, _) = derive_cell(Tag::WithdrawSol, &sender, None, &program).unwrap();
    assert!(native == get_withdraw_data_and_bump_seed("withdraw_sol", &sender, &program).unwrap().0);
}

#[test]
fn too_many_seeds_give_no_address() {
    let seeds: Vec<Vec<u8>> = (0..16).map(|i| vec![i as u8]).collect();
    assert!(find_program_address(&seeds, &key(9)).is_none());
    let long: Vec<Vec<u8>> = vec![vec![0u8; 33]];
    assert!(find_program_address(&long, &key(9)).is_none());
}

#[test]
fn signing_seeds_rederive_the_address() {
    let program = key(9);
    let (address, seeds) = derive_cell(Tag::WithdrawSol, &key(3), None, &program).unwrap();
    let seeds: Seeds = seeds;
    let bytes = seeds.to_vec();
    let refs: Vec<&[u8]> = bytes.iter().map(|s| s.as_slice()).collect();
    let created =
        solana_program::pubkey::Pubkey::create_program_address(&refs, &theirs(&program)).unwrap();
    assert_eq!(created.to_bytes(), address.bytes);
}

#[test]
fn program_ids_are_the_published_ones() {
    assert_eq!(token_program_id().bytes, spl_token::id().to_bytes());
    assert_eq!(
        token_program_id().bytes,
        [
            6, 221, 246, 225, 215, 101, 161, 147, 217, 203, 225, 70, 206, 235, 121, 172, 28, 180, 133,
            237, 95, 91, 55, 145, 58, 140, 245, 133, 126, 255, 0, 169
        ]
    );
    assert_eq!(associated_token_program_id().bytes, spl_associated_token_account::id().to_bytes());
    assert_eq!(
        associated_token_program_id().bytes,
        [
            140, 151, 37, 143, 78, 36, 137, 241, 187, 61, 16, 41, 20, 142, 13, 131, 11, 90, 19, 153, 218,
            255, 16, 132, 4, 142, 123, 216, 219, 233, 248, 89
        ]
    );
    assert_eq!(system_program_id().bytes, [0u8; 32]);
}

#[test]
fn associated_token_address_is_the_published_derivation() {
    let wallet = key(1);
    let mint = key(5);
    let expected =
        spl_associated_token_account::get_associated_token_address(&theirs(&wallet), &theirs(&mint));
    let got = get_associated_token_address(&wallet, &mint).unwrap();
    assert_eq!(got.bytes, expected.to_bytes());
    assert!(got != wallet);
}

#[test]
fn fee_receiver_is_parsed_from_its_text() {
    let fee = default_fee_receiver().unwrap();
    assert_eq!(
        fee.bytes,
        [
            206, 5, 21, 242, 2, 111, 122, 224, 235, 138, 3, 177, 114, 189, 69, 255, 130, 251, 228, 205,
            53, 90, 32, 212, 38, 61, 57, 1, 163, 53, 46, 19
        ]
    );
    assert!(parse_pubkey("not a key").is_none());
    assert!(parse_pubkey("").is_none());
    assert_eq!(parse_pubkey("11111111111111111111111111111111").unwrap().bytes, [0u8; 32]);
}

#[test]
fn keys_equal_or_mismatch() {
    assert_eq!(assert_keys_equal(key(1), key(1)), Ok(()));
    assert_eq!(assert_keys_equal(key(1), key(2)), Err(ProgramError::Custom(8)));
    assert_eq!(stream_escrow::spl_utils::assert_keys_equal(key(1), key(2)), Err(ProgramError::Custom(8)));
    assert_eq!(stream_escrow::spl_utils::assert_keys_equal(key(2), key(2)), Ok(()));
}

#[test]
fn data_length_is_checked() {
    assert_eq!(check_data_len(&[0u8; 10], 10), Ok(()));
    assert_eq!(check_data_len(&[0u8; 9], 10), Err(ProgramError::AccountDataTooSmall));
}

#[test]
fn realm_seeds_are_the_key() {
    assert_eq!(get_seeds(&key(4)), vec![vec![4u8; 32]]);
}
