use relay_custody::address::AUTHORIZED_PUBKEY;
use relay_custody::address::Address;
use relay_custody::address::ED25519_PROGRAM_ID;
use relay_custody::address::TOKEN_2022_PROGRAM_ID;
use relay_custody::address::TOKEN_PROGRAM_ID;
use relay_custody::codec::TransferRequest;
use relay_custody::depository::Depository;
use relay_custody::depository::TokenTransferAccounts;
use relay_custody::derive::get_associated_token_address;
use relay_custody::errors::CustomError;
use relay_custody::fees::MintInfo;
use relay_custody::fees::TransferFee;
use relay_custody::fees::TransferFeeConfig;
use relay_custody::sigverify::SignatureInstruction;

fn addr(n: u8) -> Address {
    Address { bytes: [n; 32] }
}

fn sig_ix(signer: [u8; 32], digest: [u8; 32]) -> SignatureInstruction {
    let mut data = vec![0u8; 144];
    data[0] = 1;
    data[2..4].copy_from_slice(&48u16.to_le_bytes());
    data[4..6].copy_from_slice(&u16::MAX.to_le_bytes());
    data[6..8].copy_from_slice(&16u16.to_le_bytes());
    data[8..10].copy_from_slice(&u16::MAX.to_le_bytes());
    data[10..12].copy_from_slice(&112u16.to_le_bytes());
    data[12..14].copy_from_slice(&32u16.to_le_bytes());
    data[14..16].copy_from_slice(&u16::MAX.to_le_bytes());
    data[16..48].copy_from_slice(&signer);
    data[112..144].copy_from_slice(&digest);
    SignatureInstruction {
        program_id: Address { bytes: ED25519_PROGRAM_ID },
        account_count: 0,
        data,
    }
}

/// An initialized deployment: owner is the authorized bootstrap identity,
/// the allocator is key 5, the vault address key 11.
fn fresh_depository(reserve_floor: u64) -> Depository {
    Depository::initialize(
        Address { bytes: AUTHORIZED_PUBKEY },
        addr(5),
        addr(11),
        255,
        reserve_floor,
        b"solana-mainnet",
        &addr(3),
    )
    .expect("authorized owner must initialize")
}

fn domain_of(d: &Depository) -> [u8; 32] {
    d.config.domain_separator.expect("initialize sets the domain separator")
}

#[test]
fn initialize_rejects_unauthorized_owner() {
    let r = Depository::initialize(addr(1), addr(5), addr(11), 255, 0, b"solana-mainnet", &addr(3));
    assert_eq!(r.err(), Some(CustomError::Unauthorized));
}

#[test]
fn deposit_then_transfer_scenario() {
    // Initialize with owner O and allocator K; deposit 1000 native from
    // depositor D; the vault holds 1000. Execute a 400 transfer to R signed
    // by K: the vault drops to 600, the replay record exists, and the same
    // payload cannot run twice.
    let mut d = fresh_depository(0);
    let ev = d.deposit_native(addr(4), 1000, [0; 32]);
    assert_eq!(d.vault.native_balance, 1000);
    assert_eq!(ev.amount, 1000);
    assert_eq!(ev.token, None);
    assert_eq!(ev.depositor, addr(4));
    assert_eq!(ev.id, [0; 32]);

    let request = TransferRequest {
        domain: domain_of(&d),
        recipient: addr(2),
        token: None,
        amount: 400,
        nonce: 1,
        expiration: 5000,
    };
    let hash = request.get_hash();
    let ix = sig_ix([5; 32], hash);
    let r = d.execute_transfer(&request, &ix, 100, addr(6), addr(2), None);
    let ev = r.expect("a valid request must execute");
    assert_eq!(d.vault.native_balance, 600);
    assert_eq!(ev.request, request);
    assert_eq!(ev.executor, addr(6));
    assert_eq!(ev.id, hash);
    assert!(d.is_used(&hash));

    // Resubmission of the same payload fails, and moves nothing.
    let r2 = d.execute_transfer(&request, &ix, 100, addr(6), addr(2), None);
    assert_eq!(r2.err(), Some(CustomError::TransferRequestAlreadyUsed));
    assert_eq!(d.vault.native_balance, 600);
}

#[test]
fn expired_request_rejected_despite_valid_signature() {
    let mut d = fresh_depository(0);
    d.deposit_native(addr(4), 1000, [0; 32]);
    let request = TransferRequest {
        domain: domain_of(&d),
        recipient: addr(2),
        token: None,
        amount: 400,
        nonce: 1,
        expiration: 5000,
    };
    let ix = sig_ix([5; 32], request.get_hash());
    // The clock has reached the expiration exactly: too late.
    let r = d.execute_transfer(&request, &ix, 5000, addr(6), addr(2), None);
    assert_eq!(r.err(), Some(CustomError::SignatureExpired));
    assert_eq!(d.vault.native_balance, 1000);
}

#[test]
fn wrong_domain_rejected() {
    let mut d = fresh_depository(0);
    d.deposit_native(addr(4), 1000, [0; 32]);
    let mut foreign_domain = domain_of(&d);
    foreign_domain[0] ^= 1;
    let request = TransferRequest {
        domain: foreign_domain,
        recipient: addr(2),
        token: None,
        amount: 400,
        nonce: 1,
        expiration: 5000,
    };
    // The signature itself is fine — it signs this request's hash — but the
    // domain belongs to another deployment.
    let ix = sig_ix([5; 32], request.get_hash());
    let r = d.execute_transfer(&request, &ix, 100, addr(6), addr(2), None);
    assert_eq!(r.err(), Some(CustomError::InvalidDomainSeparator));
}

#[test]
fn wrong_signer_rejected() {
    let mut d = fresh_depository(0);
    d.deposit_native(addr(4), 1000, [0; 32]);
    let request = TransferRequest {
        domain: domain_of(&d),
        recipient: addr(2),
        token: None,
        amount: 400,
        nonce: 1,
        expiration: 5000,
    };
    let ix = sig_ix([6; 32], request.get_hash());
    let r = d.execute_transfer(&request, &ix, 100, addr(6), addr(2), None);
    assert_eq!(r.err(), Some(CustomError::AllocatorSignerMismatch));
}

#[test]
fn recipient_binding_enforced() {
    let mut d = fresh_depository(0);
    d.deposit_native(addr(4), 1000, [0; 32]);
    let request = TransferRequest {
        domain: domain_of(&d),
        recipient: addr(2),
        token: None,
        amount: 400,
        nonce: 1,
        expiration: 5000,
    };
    let ix = sig_ix([5; 32], request.get_hash());
    let r = d.execute_transfer(&request, &ix, 100, addr(6), addr(13), None);
    assert_eq!(r.err(), Some(CustomError::InvalidRecipient));
}

#[test]
fn reserve_floor_blocks_over_withdrawal() {
    // 1000 in the vault, floor 100: 901 must fail even with everything
    // else valid, 900 passes.
    let mut d = fresh_depository(100);
    d.deposit_native(addr(4), 1000, [0; 32]);
    let over = TransferRequest {
        domain: domain_of(&d),
        recipient: addr(2),
        token: None,
        amount: 901,
        nonce: 1,
        expiration: 5000,
    };
    let ix = sig_ix([5; 32], over.get_hash());
    let r = d.execute_transfer(&over, &ix, 100, addr(6), addr(2), None);
    assert_eq!(r.err(), Some(CustomError::InsufficientVaultBalance));
    assert_eq!(d.vault.native_balance, 1000);

    let exact = TransferRequest { amount: 900, nonce: 2, ..over };
    let ix = sig_ix([5; 32], exact.get_hash());
    let r = d.execute_transfer(&exact, &ix, 100, addr(6), addr(2), None);
    assert!(r.is_ok());
    assert_eq!(d.vault.native_balance, 100);
}

fn legacy_mint(key: Address) -> MintInfo {
    MintInfo {
        key,
        owner_program: Address { bytes: TOKEN_PROGRAM_ID },
        decimals: 6,
        transfer_fee_config: None,
    }
}

fn token_deposit(d: &mut Depository, mint: &MintInfo, amount: u64) {
    let token_program = mint.owner_program;
    let vault_ata = get_associated_token_address(&d.vault_address, &mint.key, &token_program);
    d.deposit_token(addr(4), amount, [1; 32], mint, token_program, vault_ata, 0)
        .expect("a well-formed token deposit must succeed");
}

#[test]
fn token_transfer_scenario() {
    let mut d = fresh_depository(0);
    let mint = legacy_mint(addr(9));
    token_deposit(&mut d, &mint, 800);
    assert_eq!(d.vault.token_balance(&addr(9)), 800);

    let request = TransferRequest {
        domain: domain_of(&d),
        recipient: addr(2),
        token: Some(addr(9)),
        amount: 300,
        nonce: 1,
        expiration: 5000,
    };
    let ix = sig_ix([5; 32], request.get_hash());
    let accounts = TokenTransferAccounts {
        mint,
        recipient_token_account_owner: addr(2),
        token_program: Address { bytes: TOKEN_PROGRAM_ID },
    };
    let r = d.execute_transfer(&request, &ix, 100, addr(6), addr(2), Some(accounts));
    assert!(r.is_ok());
    assert_eq!(d.vault.token_balance(&addr(9)), 500);
    assert_eq!(d.vault.native_balance, 0);
}

#[test]
fn token_transfer_requires_token_accounts() {
    let mut d = fresh_depository(0);
    let mint = legacy_mint(addr(9));
    token_deposit(&mut d, &mint, 800);
    let request = TransferRequest {
        domain: domain_of(&d),
        recipient: addr(2),
        token: Some(addr(9)),
        amount: 300,
        nonce: 1,
        expiration: 5000,
    };
    let ix = sig_ix([5; 32], request.get_hash());
    let r = d.execute_transfer(&request, &ix, 100, addr(6), addr(2), None);
    assert_eq!(r.err(), Some(CustomError::InvalidMint));
}

#[test]
fn token_transfer_binding_checks() {
    let mut d = fresh_depository(0);
    let mint = legacy_mint(addr(9));
    token_deposit(&mut d, &mint, 800);
    let request = TransferRequest {
        domain: domain_of(&d),
        recipient: addr(2),
        token: Some(addr(9)),
        amount: 300,
        nonce: 1,
        expiration: 5000,
    };
    let ix = sig_ix([5; 32], request.get_hash());

    // A different mint than the request names.
    let accounts = TokenTransferAccounts {
        mint: legacy_mint(addr(10)),
        recipient_token_account_owner: addr(2),
        token_program: Address { bytes: TOKEN_PROGRAM_ID },
    };
    let r = d.execute_transfer(&request, &ix, 100, addr(6), addr(2), Some(accounts));
    assert_eq!(r.err(), Some(CustomError::InvalidMint));

    // A recipient token account owned by someone else.
    let accounts = TokenTransferAccounts {
        mint,
        recipient_token_account_owner: addr(13),
        token_program: Address { bytes: TOKEN_PROGRAM_ID },
    };
    let r = d.execute_transfer(&request, &ix, 100, addr(6), addr(2), Some(accounts));
    assert_eq!(r.err(), Some(CustomError::InvalidRecipient));

    // A token program that is no accepted implementation.
    let accounts = TokenTransferAccounts {
        mint,
        recipient_token_account_owner: addr(2),
        token_program: addr(1),
    };
    let r = d.execute_transfer(&request, &ix, 100, addr(6), addr(2), Some(accounts));
    assert_eq!(r.err(), Some(CustomError::InvalidTokenProgram));

    // A mint owned by a different program than the supplied one: a forged
    // or foreign mint substitution.
    let accounts = TokenTransferAccounts {
        mint,
        recipient_token_account_owner: addr(2),
        token_program: Address { bytes: TOKEN_2022_PROGRAM_ID },
    };
    let r = d.execute_transfer(&request, &ix, 100, addr(6), addr(2), Some(accounts));
    assert_eq!(r.err(), Some(CustomError::InvalidMint));

    // More than the vault holds of the token.
    let big = TransferRequest { amount: 801, nonce: 2, ..request };
    let ix = sig_ix([5; 32], big.get_hash());
    let accounts = TokenTransferAccounts {
        mint,
        recipient_token_account_owner: addr(2),
        token_program: Address { bytes: TOKEN_PROGRAM_ID },
    };
    let r = d.execute_transfer(&big, &ix, 100, addr(6), addr(2), Some(accounts));
    assert_eq!(r.err(), Some(CustomError::InsufficientVaultBalance));
    assert_eq!(d.vault.token_balance(&addr(9)), 800);
}

#[test]
fn deposit_token_guards() {
    let mut d = fresh_depository(0);
    let mint = legacy_mint(addr(9));
    let token_program = Address { bytes: TOKEN_PROGRAM_ID };
    let vault_ata = get_associated_token_address(&d.vault_address, &addr(9), &token_program);

    // A token program that is no accepted implementation.
    let r = d.deposit_token(addr(4), 500, [1; 32], &mint, addr(1), vault_ata, 0);
    assert_eq!(r.err(), Some(CustomError::InvalidTokenProgram));

    // A mint owned by a different program than the supplied one.
    let t22 = Address { bytes: TOKEN_2022_PROGRAM_ID };
    let r = d.deposit_token(addr(4), 500, [1; 32], &mint, t22, vault_ata, 0);
    assert_eq!(r.err(), Some(CustomError::InvalidMint));

    // A vault token account that is not the vault's derived one.
    let r = d.deposit_token(addr(4), 500, [1; 32], &mint, token_program, addr(31), 0);
    assert_eq!(r.err(), Some(CustomError::InvalidVaultTokenAccount));
    assert_eq!(d.vault.token_balance(&addr(9)), 0);

    // A well-formed deposit credits the vault and reports the depositor.
    let ev = d
        .deposit_token(addr(4), 500, [1; 32], &mint, token_program, vault_ata, 0)
        .expect("a well-formed token deposit must succeed");
    assert_eq!(ev.amount, 500);
    assert_eq!(ev.token, Some(addr(9)));
    assert_eq!(ev.depositor, addr(4));
    assert_eq!(ev.id, [1; 32]);
    assert_eq!(d.vault.token_balance(&addr(9)), 500);
}

#[test]
fn deposit_token_reports_net_of_fee() {
    let mut d = fresh_depository(0);
    let mint = MintInfo {
        key: addr(9),
        owner_program: Address { bytes: TOKEN_2022_PROGRAM_ID },
        decimals: 6,
        transfer_fee_config: Some(TransferFeeConfig {
            older_transfer_fee: TransferFee {
                epoch: 0,
                maximum_fee: 1_000_000,
                transfer_fee_basis_points: 100,
            },
            newer_transfer_fee: TransferFee {
                epoch: 5,
                maximum_fee: 1_000_000,
                transfer_fee_basis_points: 100,
            },
        }),
    };
    let token_program = Address { bytes: TOKEN_2022_PROGRAM_ID };
    let vault_ata = get_associated_token_address(&d.vault_address, &addr(9), &token_program);
    let ev = d
        .deposit_token(addr(4), 1000, [1; 32], &mint, token_program, vault_ata, 0)
        .expect("a well-formed token deposit must succeed");
    // One percent withheld: the record and the ledger carry the net amount.
    assert_eq!(ev.amount, 990);
    assert_eq!(d.vault.token_balance(&addr(9)), 990);
}

#[test]
fn set_allocator_owner_gated() {
    let mut d = fresh_depository(0);
    let owner = Address { bytes: AUTHORIZED_PUBKEY };
    assert_eq!(d.set_allocator(addr(1), addr(7)).err(), Some(CustomError::Unauthorized));
    assert_eq!(d.config.allocator, addr(5));
    assert!(d.set_allocator(owner, addr(7)).is_ok());
    assert_eq!(d.config.allocator, addr(7));
}

#[test]
fn set_owner_owner_gated() {
    let mut d = fresh_depository(0);
    let owner = Address { bytes: AUTHORIZED_PUBKEY };
    assert_eq!(d.set_owner(addr(1), addr(7)).err(), Some(CustomError::Unauthorized));
    assert!(d.set_owner(owner, addr(7)).is_ok());
    assert_eq!(d.config.owner, addr(7));
    // The old owner is no longer authorized.
    assert_eq!(d.set_owner(owner, addr(8)).err(), Some(CustomError::Unauthorized));
    assert!(d.set_owner(addr(7), addr(8)).is_ok());
}

#[test]
fn migrate_domain_separator_once_only() {
    let mut d = fresh_depository(0);
    let owner = Address { bytes: AUTHORIZED_PUBKEY };
    // Freshly initialized deployments already carry a domain separator.
    assert_eq!(
        d.migrate_domain_separator(owner, b"solana-mainnet", &addr(3)).err(),
        Some(CustomError::DomainSeparatorAlreadySet)
    );
    // An older deployment without one can be migrated, once, by its owner.
    let with_domain = domain_of(&d);
    d.config.domain_separator = None;
    assert_eq!(
        d.migrate_domain_separator(addr(1), b"solana-mainnet", &addr(3)).err(),
        Some(CustomError::Unauthorized)
    );
    assert!(d.migrate_domain_separator(owner, b"solana-mainnet", &addr(3)).is_ok());
    assert_eq!(d.config.domain_separator, Some(with_domain));
}

#[test]
fn replay_check_precedes_expiration() {
    let mut d = fresh_depository(0);
    d.deposit_native(addr(4), 1000, [0; 32]);
    let request = TransferRequest {
        domain: domain_of(&d),
        recipient: addr(2),
        token: None,
        amount: 400,
        nonce: 1,
        expiration: 5000,
    };
    let ix = sig_ix([5; 32], request.get_hash());
    d.execute_transfer(&request, &ix, 100, addr(6), addr(2), None).expect("must execute");
    // Now both used and expired: the replay guard answers first.
    let r = d.execute_transfer(&request, &ix, 9000, addr(6), addr(2), None);
    assert_eq!(r.err(), Some(CustomError::TransferRequestAlreadyUsed));
}
