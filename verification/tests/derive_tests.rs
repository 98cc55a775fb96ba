use relay_custody::address::Address;
use relay_custody::address::TOKEN_2022_PROGRAM_ID;
use relay_custody::address::TOKEN_PROGRAM_ID;
use relay_custody::derive::derive_allowed_program_address;
use relay_custody::derive::derive_deposit_address;
use relay_custody::derive::derive_depository_address;
use relay_custody::derive::derive_used_request_address;
use relay_custody::derive::derive_vault_address;
use relay_custody::derive::get_associated_token_address;
use relay_custody::derive::verify_deposit_address;
use relay_custody::fees::MintInfo;
use relay_custody::fees::TransferFee;
use relay_custody::fees::TransferFeeConfig;
use relay_custody::fees::get_transfer_fee;
use relay_custody::hashing::create_domain_separator;
use relay_custody::hashing::sha256;
use solana_program::pubkey::Pubkey;

fn addr(n: u8) -> Address {
    Address { bytes: [n; 32] }
}

#[test]
fn sha256_known_digest() {
    let digest = sha256(b"abc");
    let expected: [u8; 32] = [
        186, 120, 22, 191, 143, 1, 207, 234, 65, 65, 64, 222, 93, 174, 34, 35, 176, 3, 97, 163,
        150, 23, 122, 156, 180, 16, 255, 97, 242, 0, 21, 173,
    ];
    assert_eq!(digest, expected);
}

#[test]
fn domain_separator_known_digest() {
    // SHA-256 of "RelayDepository" ++ "1" ++ "solana-mainnet" ++ [3; 32].
    let digest = create_domain_separator(b"RelayDepository", b"1", b"solana-mainnet", &addr(3));
    let expected: [u8; 32] = [
        173, 237, 90, 172, 196, 225, 183, 84, 79, 229, 236, 98, 50, 138, 38, 22, 38, 240, 99, 113,
        36, 167, 115, 155, 232, 102, 237, 2, 226, 6, 124, 135,
    ];
    assert_eq!(digest, expected);
}

#[test]
fn vault_address_matches_platform_derivation() {
    let program_id = addr(3);
    let (vault, bump) = derive_vault_address(&program_id).expect("vault address derives");
    let (expected, expected_bump) =
        Pubkey::find_program_address(&[b"vault"], &Pubkey::new_from_array(program_id.bytes));
    assert_eq!(vault.bytes, expected.to_bytes());
    assert_eq!(bump, expected_bump);
}

#[test]
fn depository_address_matches_platform_derivation() {
    let program_id = addr(3);
    let (address, bump) =
        derive_depository_address(&program_id).expect("configuration address derives");
    let (expected, expected_bump) = Pubkey::find_program_address(
        &[b"relay_depository"],
        &Pubkey::new_from_array(program_id.bytes),
    );
    assert_eq!(address.bytes, expected.to_bytes());
    assert_eq!(bump, expected_bump);
}

#[test]
fn used_request_address_matches_platform_derivation() {
    let program_id = addr(3);
    let hash = [0xcd; 32];
    let (address, bump) =
        derive_used_request_address(&hash, &program_id).expect("replay-record address derives");
    let (expected, expected_bump) = Pubkey::find_program_address(
        &[b"used_request", &hash],
        &Pubkey::new_from_array(program_id.bytes),
    );
    assert_eq!(address.bytes, expected.to_bytes());
    assert_eq!(bump, expected_bump);
}

#[test]
fn deposit_address_matches_platform_derivation() {
    let program_id = addr(3);
    let id = [0xab; 32];
    let depositor = addr(4);
    // Token target: the mint's key is the third seed.
    let mint = addr(9);
    let (address, bump) = derive_deposit_address(&id, &Some(mint), &depositor, &program_id)
        .expect("holding address derives");
    let (expected, expected_bump) = Pubkey::find_program_address(
        &[b"deposit_address", &id, &mint.bytes, &depositor.bytes],
        &Pubkey::new_from_array(program_id.bytes),
    );
    assert_eq!(address.bytes, expected.to_bytes());
    assert_eq!(bump, expected_bump);
    // Native target: thirty-two zero bytes stand in for the mint.
    let (native_address, native_bump) =
        derive_deposit_address(&id, &None, &depositor, &program_id).expect("derives");
    let (expected, expected_bump) = Pubkey::find_program_address(
        &[b"deposit_address", &id, &[0u8; 32], &depositor.bytes],
        &Pubkey::new_from_array(program_id.bytes),
    );
    assert_eq!(native_address.bytes, expected.to_bytes());
    assert_eq!(native_bump, expected_bump);
    assert_ne!(native_address, address);
}

#[test]
fn allowed_program_address_matches_platform_derivation() {
    let program_id = addr(3);
    let callee = addr(40);
    let (address, bump) = derive_allowed_program_address(&callee, &program_id)
        .expect("allow-list record address derives");
    let (expected, expected_bump) = Pubkey::find_program_address(
        &[b"allowed_program", &callee.bytes],
        &Pubkey::new_from_array(program_id.bytes),
    );
    assert_eq!(address.bytes, expected.to_bytes());
    assert_eq!(bump, expected_bump);
}

#[test]
fn derivation_is_deterministic_and_seed_sensitive() {
    let program_id = addr(3);
    let a = derive_vault_address(&program_id).expect("derives");
    let b = derive_vault_address(&program_id).expect("derives");
    assert_eq!(a, b);
    let c = derive_depository_address(&program_id).expect("derives");
    assert_ne!(a.0, c.0);
    let other = derive_vault_address(&addr(4)).expect("derives");
    assert_ne!(a.0, other.0);
}

#[test]
fn deposit_address_verification_rejects_foreign_seeds() {
    let program_id = addr(3);
    let id = [0xab; 32];
    let depositor = addr(4);
    let (derived, _) =
        derive_deposit_address(&id, &None, &depositor, &program_id).expect("derives");
    assert!(verify_deposit_address(&derived, &id, &None, &depositor, &program_id));
    // Any change to the seed tuple stops reproducing the address.
    assert!(!verify_deposit_address(&derived, &[0xac; 32], &None, &depositor, &program_id));
    assert!(!verify_deposit_address(&derived, &id, &Some(addr(9)), &depositor, &program_id));
    assert!(!verify_deposit_address(&derived, &id, &None, &addr(5), &program_id));
    assert!(!verify_deposit_address(&addr(1), &id, &None, &depositor, &program_id));
}

#[test]
fn associated_token_address_matches_platform_derivation() {
    let wallet = addr(11);
    let mint = addr(9);
    let token_program = Address { bytes: TOKEN_PROGRAM_ID };
    let ata = get_associated_token_address(&wallet, &mint, &token_program);
    let expected = spl_associated_token_account::get_associated_token_address_with_program_id(
        &Pubkey::new_from_array(wallet.bytes),
        &Pubkey::new_from_array(mint.bytes),
        &Pubkey::new_from_array(token_program.bytes),
    );
    assert_eq!(ata.bytes, expected.to_bytes());
    assert_ne!(ata, wallet);
    assert_ne!(ata, mint);
}

fn fee_mint(owner: [u8; 32], bps: u16, max_fee: u64) -> MintInfo {
    MintInfo {
        key: addr(9),
        owner_program: Address { bytes: owner },
        decimals: 6,
        transfer_fee_config: Some(TransferFeeConfig {
            older_transfer_fee: TransferFee {
                epoch: 0,
                maximum_fee: max_fee,
                transfer_fee_basis_points: bps,
            },
            newer_transfer_fee: TransferFee {
                epoch: 5,
                maximum_fee: max_fee,
                transfer_fee_basis_points: bps,
            },
        }),
    }
}

#[test]
fn transfer_fee_exact_values() {
    // One percent: 500 -> 5 exactly, 501 -> 6 (rounded up), 1 -> 1.
    let mint = fee_mint(TOKEN_2022_PROGRAM_ID, 100, 1_000_000);
    assert_eq!(get_transfer_fee(&mint, 0, 500), 5);
    assert_eq!(get_transfer_fee(&mint, 0, 501), 6);
    assert_eq!(get_transfer_fee(&mint, 0, 1), 1);
    assert_eq!(get_transfer_fee(&mint, 0, 0), 0);
}

#[test]
fn transfer_fee_caps_at_maximum() {
    // Fifty percent but capped at 10 tokens.
    let mint = fee_mint(TOKEN_2022_PROGRAM_ID, 5000, 10);
    assert_eq!(get_transfer_fee(&mint, 0, 1000), 10);
    assert_eq!(get_transfer_fee(&mint, 0, 10), 5);
}

#[test]
fn transfer_fee_zero_cases() {
    // A legacy-program mint levies nothing, whatever its schedule says.
    let mint = fee_mint(TOKEN_PROGRAM_ID, 100, 1_000_000);
    assert_eq!(get_transfer_fee(&mint, 0, 1000), 0);
    // A mint without the extension levies nothing.
    let plain = MintInfo {
        key: addr(9),
        owner_program: Address { bytes: TOKEN_2022_PROGRAM_ID },
        decimals: 6,
        transfer_fee_config: None,
    };
    assert_eq!(get_transfer_fee(&plain, 0, 1000), 0);
    // A zero rate levies nothing.
    let mint = fee_mint(TOKEN_2022_PROGRAM_ID, 0, 1_000_000);
    assert_eq!(get_transfer_fee(&mint, 0, 1000), 0);
}

#[test]
fn transfer_fee_follows_epoch_schedule() {
    let mut mint = fee_mint(TOKEN_2022_PROGRAM_ID, 100, 1_000_000);
    if let Some(cfg) = mint.transfer_fee_config.as_mut() {
        cfg.newer_transfer_fee.transfer_fee_basis_points = 200;
    }
    // Before the newer entry's epoch the older entry rules; from it on, the
    // newer.
    assert_eq!(get_transfer_fee(&mint, 4, 1000), 10);
    assert_eq!(get_transfer_fee(&mint, 5, 1000), 20);
    assert_eq!(get_transfer_fee(&mint, 9, 1000), 20);
}

#[test]
fn transfer_fee_matches_token_program_arithmetic() {
    // The same schedule, asked directly of the token library.
    let entry = spl_token_2022::extension::transfer_fee::TransferFee {
        epoch: 0u64.into(),
        maximum_fee: 1_000_000u64.into(),
        transfer_fee_basis_points: 137u16.into(),
    };
    let mint = fee_mint(TOKEN_2022_PROGRAM_ID, 137, 1_000_000);
    for amount in [1u64, 99, 1000, 123_456_789] {
        assert_eq!(
            get_transfer_fee(&mint, 0, amount),
            entry.calculate_fee(amount).expect("fits"),
        );
    }
}
