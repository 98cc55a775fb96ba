//! The depository: deposit bookkeeping and the transfer authorization
//! engine.
//!
//! The engine releases vault funds only against a transfer request that
//! carries a valid allocator signature, evaluating its guards strictly in
//! order — replay, expiration, signature, domain, recipient binding, token
//! binding and solvency — and committing the replay record together with the
//! ledger debit as one atomic step: an operation either completes fully or
//! is rejected and has no effect.

use vstd::prelude::*;
use crate::address::AUTHORIZED_PUBKEY;
use crate::address::Address;
use crate::address::DOMAIN_NAME;
use crate::address::DOMAIN_VERSION;
use crate::address::TOKEN_2022_PROGRAM_ID;
use crate::address::TOKEN_PROGRAM_ID;
use crate::address::bytes32_eq;
use crate::codec::TransferRequest;
use crate::codec::spec_request_hash;
use crate::derive::associated_token_address;
use crate::derive::get_associated_token_address;
use crate::errors::CustomError;
use crate::fees::MintInfo;
use crate::fees::get_transfer_fee;
use crate::fees::spec_transfer_fee;
use crate::hashing::create_domain_separator;
use crate::hashing::spec_domain_separator;
use crate::sigverify::SignatureInstruction;
use crate::sigverify::spec_validate_signature;
use crate::sigverify::validate_ed25519_signature_instruction;
use crate::vault::Vault;

verus! {

broadcast use vstd::array::group_array_axioms;

/// The configuration of a deployment: who administers it, who may sign
/// transfer requests, and which domain its requests must carry.
#[derive(Clone, Copy, Debug, PartialEq, Eq)]
pub struct RelayDepository {
    /// The owner, who may update settings.
    pub owner: Address,
    /// The only identity whose signature authorizes outbound transfers.
    pub allocator: Address,
    /// The bump discriminant of the vault's derived address.
    pub vault_bump: u8,
    /// The deployment's domain separator, once set.
    pub domain_separator: Option<[u8; 32]>,
}

/// The replay record of one transfer request: its hash, and that it has
/// been executed. A record exists only for executed requests, and its
/// existence is terminal.
#[derive(Clone, Copy, Debug, PartialEq, Eq)]
pub struct UsedRequest {
    /// The hash of the request's wire format.
    pub hash: [u8; 32],
    /// Whether the request has been executed.
    pub is_used: bool,
}

/// The token-side accounts a token transfer supplies: the mint, the owner
/// of the recipient's token account, and the token program to move the
/// tokens with.
#[derive(Clone, Copy, Debug, PartialEq, Eq)]
pub struct TokenTransferAccounts {
    /// The mint of the token being transferred.
    pub mint: MintInfo,
    /// The owner of the recipient's token account.
    pub recipient_token_account_owner: Address,
    /// The token program that owns the mint.
    pub token_program: Address,
}

/// Emitted when a deposit credits the vault.
#[derive(Clone, Copy, Debug, PartialEq, Eq)]
pub struct DepositEvent {
    /// The identity credited for the deposit.
    pub depositor: Address,
    /// The token deposited, `None` for native value.
    pub token: Option<Address>,
    /// The amount credited, net of any transfer fee.
    pub amount: u64,
    /// The caller-supplied opaque identifier.
    pub id: [u8; 32],
}

/// Emitted when a transfer request executes.
#[derive(Clone, Copy, Debug, PartialEq, Eq)]
pub struct TransferExecutedEvent {
    /// The executed request.
    pub request: TransferRequest,
    /// Who submitted the execution.
    pub executor: Address,
    /// The identity of the replay record: the request's hash.
    pub id: [u8; 32],
}

/// Whether a token program is one of the accepted implementations.
pub open spec fn accepted_token_program(p: Address) -> bool {
    p@ == TOKEN_PROGRAM_ID@ || p@ == TOKEN_2022_PROGRAM_ID@
}

/// The whole state of one deployment: its configuration, its vault, and the
/// replay records of every executed request.
pub struct Depository {
    /// The deployment's configuration.
    pub config: RelayDepository,
    /// The vault's derived address.
    pub vault_address: Address,
    /// The native balance the vault must keep after any withdrawal.
    pub reserve_floor: u64,
    /// The vault ledger.
    pub vault: Vault,
    /// One replay record per executed request.
    pub used_requests: Vec<UsedRequest>,
}

impl Depository {
    /// A well-formed deployment: the ledger records each mint once, and the
    /// replay records are one per hash, each marking an executed request.
    pub open spec fn wf(self) -> bool {
        &&& self.vault.wf()
        &&& forall|i: int| 0 <= i < self.used_requests@.len() ==> self.used_requests@[i].is_used
        &&& forall|i: int, j: int|
            0 <= i < j < self.used_requests@.len() ==> self.used_requests@[i].hash@
                != self.used_requests@[j].hash@
    }

    /// Whether a request hash has already been executed.
    pub open spec fn spec_is_used(self, h: Seq<u8>) -> bool {
        exists|i: int|
            0 <= i < self.used_requests@.len() && self.used_requests@[i].hash@ == h
                && self.used_requests@[i].is_used
    }

    /// The most the vault may release natively: its balance less the
    /// reserve floor.
    pub open spec fn spec_max_transferable(self) -> int {
        if self.vault.native_balance >= self.reserve_floor {
            self.vault.native_balance - self.reserve_floor
        } else {
            0
        }
    }

    /// The first violated guard of a transfer request, in the engine's
    /// order — replay, expiration, signature, domain, then the target's
    /// binding and solvency checks — or `None` when every guard passes.
    pub open spec fn spec_transfer_guard(
        self,
        request: TransferRequest,
        signature_ix: SignatureInstruction,
        now: i64,
        recipient: Address,
        token_accounts: Option<TokenTransferAccounts>,
    ) -> Option<CustomError> {
        let h = spec_request_hash(request);
        let sig = spec_validate_signature(signature_ix, self.config.allocator@, h);
        if self.spec_is_used(h) {
            Some(CustomError::TransferRequestAlreadyUsed)
        } else if now >= request.expiration {
            Some(CustomError::SignatureExpired)
        } else if sig is Err {
            Some(sig->Err_0)
        } else if self.config.domain_separator matches Some(d) && request.domain@ != d@ {
            Some(CustomError::InvalidDomainSeparator)
        } else {
            match request.token {
                None => {
                    if recipient != request.recipient {
                        Some(CustomError::InvalidRecipient)
                    } else if request.amount > self.spec_max_transferable() {
                        Some(CustomError::InsufficientVaultBalance)
                    } else {
                        None
                    }
                },
                Some(token_mint) => {
                    match token_accounts {
                        None => Some(CustomError::InvalidMint),
                        Some(accs) => {
                            if token_mint@ != accs.mint.key@ {
                                Some(CustomError::InvalidMint)
                            } else if accs.recipient_token_account_owner != request.recipient {
                                Some(CustomError::InvalidRecipient)
                            } else if !accepted_token_program(accs.token_program) {
                                Some(CustomError::InvalidTokenProgram)
                            } else if accs.mint.owner_program@ != accs.token_program@ {
                                Some(CustomError::InvalidMint)
                            } else if request.amount > self.vault.spec_token_balance(token_mint@) {
                                Some(CustomError::InsufficientVaultBalance)
                            } else {
                                None
                            }
                        },
                    }
                },
            }
        }
    }

    /// The first violated guard of a token deposit: the token program must
    /// be accepted, the mint must be owned by it, and the vault's token
    /// account must be the vault's derived associated account.
    pub open spec fn spec_deposit_token_guard(
        self,
        mint: MintInfo,
        token_program: Address,
        vault_token_account: Address,
    ) -> Option<CustomError> {
        if !accepted_token_program(token_program) {
            Some(CustomError::InvalidTokenProgram)
        } else if mint.owner_program@ != token_program@ {
            Some(CustomError::InvalidMint)
        } else if vault_token_account@ != associated_token_address(
            self.vault_address@,
            mint.key@,
            token_program@,
        ) {
            Some(CustomError::InvalidVaultTokenAccount)
        } else {
            None
        }
    }

    /// Initializes a deployment.
    ///
    /// Only the authorized bootstrap identity may initialize. The vault
    /// starts empty, no request is used, and the domain separator is bound
    /// to the protocol name, version, chain identifier and deployment
    /// identity.
    pub fn initialize(
        owner: Address,
        allocator: Address,
        vault_address: Address,
        vault_bump: u8,
        reserve_floor: u64,
        chain_id: &[u8],
        program_id: &Address,
    ) -> (r: Result<Depository, CustomError>)
        ensures
            match r {
                Ok(d) => {
                    &&& owner@ == AUTHORIZED_PUBKEY@
                    &&& d.config.owner == owner
                    &&& d.config.allocator == allocator
                    &&& d.config.vault_bump == vault_bump
                    &&& d.config.domain_separator matches Some(ds) && ds@ == spec_domain_separator(
                        DOMAIN_NAME@,
                        DOMAIN_VERSION@,
                        chain_id@,
                        program_id@,
                    )
                    &&& d.vault_address == vault_address
                    &&& d.reserve_floor == reserve_floor
                    &&& d.vault.native_balance == 0
                    &&& forall|m: Seq<u8>| d.vault.spec_token_balance(m) == 0
                    &&& forall|h: Seq<u8>| !d.spec_is_used(h)
                    &&& d.wf()
                },
                Err(e) => e == CustomError::Unauthorized && owner@ != AUTHORIZED_PUBKEY@,
            },
    {
        if !bytes32_eq(&owner.bytes, &AUTHORIZED_PUBKEY) {
            return Err(CustomError::Unauthorized);
        }
        let domain = create_domain_separator(
            DOMAIN_NAME.as_slice(),
            DOMAIN_VERSION.as_slice(),
            chain_id,
            program_id,
        );
        let d = Depository {
            config: RelayDepository {
                owner,
                allocator,
                vault_bump,
                domain_separator: Some(domain),
            },
            vault_address,
            reserve_floor,
            vault: Vault::new(),
            used_requests: Vec::new(),
        };
        Ok(d)
    }

    /// Updates the allocator. Owner-gated.
    pub fn set_allocator(&mut self, caller: Address, new_allocator: Address) -> (r: Result<
        (),
        CustomError,
    >)
        ensures
            match r {
                Ok(()) => {
                    &&& caller == old(self).config.owner
                    &&& final(self).config.allocator == new_allocator
                    &&& final(self).config.owner == old(self).config.owner
                    &&& final(self).config.vault_bump == old(self).config.vault_bump
                    &&& final(self).config.domain_separator == old(self).config.domain_separator
                    &&& final(self).vault_address == old(self).vault_address
                    &&& final(self).reserve_floor == old(self).reserve_floor
                    &&& final(self).vault == old(self).vault
                    &&& final(self).used_requests == old(self).used_requests
                },
                Err(e) => {
                    &&& e == CustomError::Unauthorized
                    &&& caller != old(self).config.owner
                    &&& *final(self) == *old(self)
                },
            },
    {
        if !caller.eq_bytes(&self.config.owner) {
            return Err(CustomError::Unauthorized);
        }
        self.config.allocator = new_allocator;
        Ok(())
    }

    /// Transfers ownership. Owner-gated.
    pub fn set_owner(&mut self, caller: Address, new_owner: Address) -> (r: Result<
        (),
        CustomError,
    >)
        ensures
            match r {
                Ok(()) => {
                    &&& caller == old(self).config.owner
                    &&& final(self).config.owner == new_owner
                    &&& final(self).config.allocator == old(self).config.allocator
                    &&& final(self).config.vault_bump == old(self).config.vault_bump
                    &&& final(self).config.domain_separator == old(self).config.domain_separator
                    &&& final(self).vault_address == old(self).vault_address
                    &&& final(self).reserve_floor == old(self).reserve_floor
                    &&& final(self).vault == old(self).vault
                    &&& final(self).used_requests == old(self).used_requests
                },
                Err(e) => {
                    &&& e == CustomError::Unauthorized
                    &&& caller != old(self).config.owner
                    &&& *final(self) == *old(self)
                },
            },
    {
        if !caller.eq_bytes(&self.config.owner) {
            return Err(CustomError::Unauthorized);
        }
        self.config.owner = new_owner;
        Ok(())
    }

    /// Sets the domain separator on a deployment that has none yet.
    /// Owner-gated and one-time.
    pub fn migrate_domain_separator(
        &mut self,
        caller: Address,
        chain_id: &[u8],
        program_id: &Address,
    ) -> (r: Result<(), CustomError>)
        ensures
            match r {
                Ok(()) => {
                    &&& caller == old(self).config.owner
                    &&& old(self).config.domain_separator is None
                    &&& final(self).config.domain_separator matches Some(ds) && ds@
                        == spec_domain_separator(
                        DOMAIN_NAME@,
                        DOMAIN_VERSION@,
                        chain_id@,
                        program_id@,
                    )
                    &&& final(self).config.owner == old(self).config.owner
                    &&& final(self).config.allocator == old(self).config.allocator
                    &&& final(self).config.vault_bump == old(self).config.vault_bump
                    &&& final(self).vault_address == old(self).vault_address
                    &&& final(self).reserve_floor == old(self).reserve_floor
                    &&& final(self).vault == old(self).vault
                    &&& final(self).used_requests == old(self).used_requests
                },
                Err(e) => {
                    &&& *final(self) == *old(self)
                    &&& if caller != old(self).config.owner {
                        e == CustomError::Unauthorized
                    } else {
                        e == CustomError::DomainSeparatorAlreadySet && old(
                            self,
                        ).config.domain_separator is Some
                    }
                },
            },
    {
        if !caller.eq_bytes(&self.config.owner) {
            return Err(CustomError::Unauthorized);
        }
        if self.config.domain_separator.is_some() {
            return Err(CustomError::DomainSeparatorAlreadySet);
        }
        let domain = create_domain_separator(
            DOMAIN_NAME.as_slice(),
            DOMAIN_VERSION.as_slice(),
            chain_id,
            program_id,
        );
        self.config.domain_separator = Some(domain);
        Ok(())
    }

    /// Deposits native value into the vault, crediting the given depositor
    /// identity for bookkeeping.
    pub fn deposit_native(&mut self, depositor: Address, amount: u64, id: [u8; 32]) -> (ev:
        DepositEvent)
        requires
            old(self).vault.native_balance + amount <= u64::MAX,
        ensures
            final(self).vault.native_balance == old(self).vault.native_balance + amount,
            final(self).vault.token_balances == old(self).vault.token_balances,
            final(self).config == old(self).config,
            final(self).vault_address == old(self).vault_address,
            final(self).reserve_floor == old(self).reserve_floor,
            final(self).used_requests == old(self).used_requests,
            ev.depositor == depositor && ev.token is None && ev.amount == amount && ev.id == id,
    {
        self.vault.native_balance = self.vault.native_balance + amount;
        DepositEvent { depositor, token: None, amount, id }
    }

    /// Deposits tokens into the vault.
    ///
    /// The token program must be an accepted implementation, the mint must
    /// be owned by it, and the vault's token account must be the vault's
    /// derived associated account. The vault is credited — and the emitted
    /// record reports — the amount net of the mint's transfer fee at the
    /// given epoch.
    pub fn deposit_token(
        &mut self,
        depositor: Address,
        amount: u64,
        id: [u8; 32],
        mint: &MintInfo,
        token_program: Address,
        vault_token_account: Address,
        epoch: u64,
    ) -> (r: Result<DepositEvent, CustomError>)
        requires
            old(self).wf(),
            mint.wf(),
            old(self).vault.spec_token_balance(mint.key@) + amount <= u64::MAX,
        ensures
            final(self).wf(),
            match r {
                Ok(ev) => {
                    &&& old(self).spec_deposit_token_guard(*mint, token_program, vault_token_account)
                        is None
                    &&& final(self).vault.spec_token_balance(mint.key@) == old(
                        self,
                    ).vault.spec_token_balance(mint.key@) + amount - spec_transfer_fee(
                        *mint,
                        epoch,
                        amount,
                    )
                    &&& forall|m: Seq<u8>|
                        m != mint.key@ ==> final(self).vault.spec_token_balance(m) == old(
                            self,
                        ).vault.spec_token_balance(m)
                    &&& final(self).vault.native_balance == old(self).vault.native_balance
                    &&& final(self).config == old(self).config
                    &&& final(self).vault_address == old(self).vault_address
                    &&& final(self).reserve_floor == old(self).reserve_floor
                    &&& final(self).used_requests == old(self).used_requests
                    &&& ev.depositor == depositor
                    &&& ev.token == Some(mint.key)
                    &&& ev.amount as int == amount - spec_transfer_fee(*mint, epoch, amount)
                    &&& ev.id == id
                },
                Err(e) => {
                    &&& *final(self) == *old(self)
                    &&& old(self).spec_deposit_token_guard(*mint, token_program, vault_token_account)
                        == Some(e)
                },
            },
    {
        if !(bytes32_eq(&token_program.bytes, &TOKEN_PROGRAM_ID) || bytes32_eq(
            &token_program.bytes,
            &TOKEN_2022_PROGRAM_ID,
        )) {
            return Err(CustomError::InvalidTokenProgram);
        }
        if !mint.owner_program.eq_bytes(&token_program) {
            return Err(CustomError::InvalidMint);
        }
        let expected_vault_ata = get_associated_token_address(
            &self.vault_address,
            &mint.key,
            &token_program,
        );
        if !vault_token_account.eq_bytes(&expected_vault_ata) {
            return Err(CustomError::InvalidVaultTokenAccount);
        }
        let transfer_fee = get_transfer_fee(mint, epoch, amount);
        let credited = amount - transfer_fee;
        self.vault.credit_token(&mint.key, credited);
        Ok(DepositEvent { depositor, token: Some(mint.key), amount: credited, id })
    }

    /// Whether a replay record marks this hash as executed.
    pub fn is_used(&self, h: &[u8; 32]) -> (r: bool)
        ensures
            r == self.spec_is_used(h@),
    {
        let n = self.used_requests.len();
        let mut i: usize = 0;
        while i < n
            invariant
                i <= n == self.used_requests@.len(),
                forall|j: int|
                    0 <= j < i ==> !(self.used_requests@[j].hash@ == h@
                        && self.used_requests@[j].is_used),
            decreases n - i,
        {
            if self.used_requests[i].is_used && bytes32_eq(&self.used_requests[i].hash, h) {
                proof {
                    assert(0 <= i < self.used_requests@.len() && self.used_requests@[
                    i as int].hash@ == h@ && self.used_requests@[i as int].is_used);
                }
                return true;
            }
            i += 1;
        }
        false
    }

    /// Executes a transfer request against the vault.
    ///
    /// Anyone may submit; the allocator's signature, not the submitter, is
    /// the authority. The guards run strictly in order — replay,
    /// expiration, signature, domain, recipient binding, token binding and
    /// solvency — and the first violated one is the sole outcome, with the
    /// state untouched. When every guard passes, the replay record is
    /// committed together with the ledger debit, as one atomic step.
    pub fn execute_transfer(
        &mut self,
        request: &TransferRequest,
        signature_ix: &SignatureInstruction,
        now: i64,
        executor: Address,
        recipient: Address,
        token_accounts: Option<TokenTransferAccounts>,
    ) -> (r: Result<TransferExecutedEvent, CustomError>)
        requires
            old(self).wf(),
        ensures
            final(self).wf(),
            match r {
                Ok(ev) => {
                    &&& old(self).spec_transfer_guard(
                        *request,
                        *signature_ix,
                        now,
                        recipient,
                        token_accounts,
                    ) is None
                    &&& forall|h: Seq<u8>|
                        final(self).spec_is_used(h) <==> old(self).spec_is_used(h) || h
                            == spec_request_hash(*request)
                    &&& match request.token {
                        None => {
                            &&& final(self).vault.native_balance == old(self).vault.native_balance
                                - request.amount
                            &&& final(self).vault.token_balances == old(self).vault.token_balances
                        },
                        Some(token_mint) => {
                            &&& final(self).vault.native_balance == old(self).vault.native_balance
                            &&& final(self).vault.spec_token_balance(token_mint@) == old(
                                self,
                            ).vault.spec_token_balance(token_mint@) - request.amount
                            &&& forall|m: Seq<u8>|
                                m != token_mint@ ==> final(self).vault.spec_token_balance(m) == old(
                                    self,
                                ).vault.spec_token_balance(m)
                        },
                    }
                    &&& final(self).config == old(self).config
                    &&& final(self).vault_address == old(self).vault_address
                    &&& final(self).reserve_floor == old(self).reserve_floor
                    &&& ev.request == *request
                    &&& ev.executor == executor
                    &&& ev.id@ == spec_request_hash(*request)
                },
                Err(e) => {
                    &&& *final(self) == *old(self)
                    &&& old(self).spec_transfer_guard(
                        *request,
                        *signature_ix,
                        now,
                        recipient,
                        token_accounts,
                    ) == Some(e)
                },
            },
    {
        let h = request.get_hash();
        if self.is_used(&h) {
            return Err(CustomError::TransferRequestAlreadyUsed);
        }
        if now >= request.expiration {
            return Err(CustomError::SignatureExpired);
        }
        match validate_ed25519_signature_instruction(signature_ix, &self.config.allocator, request)
        {
            Err(e) => {
                return Err(e);
            },
            Ok(()) => {},
        }
        match &self.config.domain_separator {
            Some(d) => {
                if !bytes32_eq(&request.domain, d) {
                    return Err(CustomError::InvalidDomainSeparator);
                }
            },
            None => {},
        }
        match &request.token {
            None => {
                if !recipient.eq_bytes(&request.recipient) {
                    return Err(CustomError::InvalidRecipient);
                }
                let max_transferable = if self.vault.native_balance >= self.reserve_floor {
                    self.vault.native_balance - self.reserve_floor
                } else {
                    0
                };
                if request.amount > max_transferable {
                    return Err(CustomError::InsufficientVaultBalance);
                }
                self.vault.native_balance = self.vault.native_balance - request.amount;
            },
            Some(token_mint) => {
                let accs = match &token_accounts {
                    None => {
                        return Err(CustomError::InvalidMint);
                    },
                    Some(a) => a,
                };
                if !token_mint.eq_bytes(&accs.mint.key) {
                    return Err(CustomError::InvalidMint);
                }
                if !accs.recipient_token_account_owner.eq_bytes(&request.recipient) {
                    return Err(CustomError::InvalidRecipient);
                }
                if !(bytes32_eq(&accs.token_program.bytes, &TOKEN_PROGRAM_ID) || bytes32_eq(
                    &accs.token_program.bytes,
                    &TOKEN_2022_PROGRAM_ID,
                )) {
                    return Err(CustomError::InvalidTokenProgram);
                }
                if !accs.mint.owner_program.eq_bytes(&accs.token_program) {
                    return Err(CustomError::InvalidMint);
                }
                let balance = self.vault.token_balance(token_mint);
                if request.amount > balance {
                    return Err(CustomError::InsufficientVaultBalance);
                }
                self.vault.debit_token(token_mint, request.amount);
            },
        }
        let record = UsedRequest { hash: h, is_used: true };
        proof {
            assert forall|i: int| 0 <= i < self.used_requests@.len() implies self.used_requests@[
            i].hash@ != h@ by {
                if self.used_requests@[i].hash@ == h@ {
                    assert(old(self).spec_is_used(h@));
                }
            }
        }
        self.used_requests.push(record);
        proof {
            let oldseq = old(self).used_requests@;
            let newseq = self.used_requests@;
            assert forall|h2: Seq<u8>|
                final(self).spec_is_used(h2) <==> old(self).spec_is_used(h2) || h2
                    == spec_request_hash(*request) by {
                if old(self).spec_is_used(h2) {
                    let i = choose|i: int|
                        0 <= i < oldseq.len() && oldseq[i].hash@ == h2 && oldseq[i].is_used;
                    assert(newseq[i].hash@ == h2 && newseq[i].is_used);
                }
                if h2 == spec_request_hash(*request) {
                    assert(newseq[oldseq.len() as int].hash@ == h2 && newseq[
                    oldseq.len() as int].is_used);
                }
                if self.spec_is_used(h2) {
                    let i = choose|i: int|
                        0 <= i < newseq.len() && newseq[i].hash@ == h2 && newseq[i].is_used;
                    if i < oldseq.len() {
                        assert(old(self).spec_is_used(h2));
                    } else {
                        assert(h2 == h@);
                    }
                }
            }
        }
        Ok(TransferExecutedEvent { request: *request, executor, id: h })
    }
}

/// A transfer request executes at most once: once its hash is recorded as
/// used, every further attempt with the same serialized payload is rejected
/// with `TransferRequestAlreadyUsed`, whatever signature, clock, recipient
/// or accounts accompany it, and — by `execute_transfer`'s contract — leaves
/// the state untouched.
pub proof fn lemma_replay_protection(
    st: Depository,
    request: TransferRequest,
    signature_ix: SignatureInstruction,
    now: i64,
    recipient: Address,
    token_accounts: Option<TokenTransferAccounts>,
)
    requires
        st.spec_is_used(spec_request_hash(request)),
    ensures
        st.spec_transfer_guard(request, signature_ix, now, recipient, token_accounts) == Some(
            CustomError::TransferRequestAlreadyUsed,
        ),
{
}

/// An expired request is rejected with `SignatureExpired` regardless of
/// signature validity, for any fresh request whose expiration is not after
/// the clock.
pub proof fn lemma_expired_request_rejected(
    st: Depository,
    request: TransferRequest,
    signature_ix: SignatureInstruction,
    now: i64,
    recipient: Address,
    token_accounts: Option<TokenTransferAccounts>,
)
    requires
        !st.spec_is_used(spec_request_hash(request)),
        request.expiration <= now,
    ensures
        st.spec_transfer_guard(request, signature_ix, now, recipient, token_accounts) == Some(
            CustomError::SignatureExpired,
        ),
{
}

/// A request carrying one domain separator is rejected with
/// `InvalidDomainSeparator` by a deployment configured with a different
/// one, even when its replay, expiration and signature checks all pass.
pub proof fn lemma_domain_mismatch_rejected(
    st: Depository,
    request: TransferRequest,
    signature_ix: SignatureInstruction,
    now: i64,
    recipient: Address,
    token_accounts: Option<TokenTransferAccounts>,
)
    requires
        !st.spec_is_used(spec_request_hash(request)),
        now < request.expiration,
        spec_validate_signature(
            signature_ix,
            st.config.allocator@,
            spec_request_hash(request),
        ) is Ok,
        st.config.domain_separator matches Some(d) && request.domain@ != d@,
    ensures
        st.spec_transfer_guard(request, signature_ix, now, recipient, token_accounts) == Some(
            CustomError::InvalidDomainSeparator,
        ),
{
}

/// The reserve floor holds: a native request for more than the vault's
/// balance less the reserve floor is rejected with
/// `InsufficientVaultBalance`, even when replay, expiration, signature,
/// domain and recipient checks all pass.
pub proof fn lemma_reserve_floor(
    st: Depository,
    request: TransferRequest,
    signature_ix: SignatureInstruction,
    now: i64,
    recipient: Address,
    token_accounts: Option<TokenTransferAccounts>,
)
    requires
        request.token is None,
        !st.spec_is_used(spec_request_hash(request)),
        now < request.expiration,
        spec_validate_signature(
            signature_ix,
            st.config.allocator@,
            spec_request_hash(request),
        ) is Ok,
        st.config.domain_separator matches Some(d) ==> request.domain@ == d@,
        recipient == request.recipient,
        request.amount > st.spec_max_transferable(),
    ensures
        st.spec_transfer_guard(request, signature_ix, now, recipient, token_accounts) == Some(
            CustomError::InsufficientVaultBalance,
        ),
{
}

} // verus!
