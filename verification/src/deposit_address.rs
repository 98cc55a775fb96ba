//! Per-order holding addresses: sweeping them into the vault, and the
//! owner-gated, allow-listed call made with their derived authority.
//!
//! A deposit address is a protocol-owned account derived from an
//! `(order id, token, depositor)` triple; no private key exists for it.
//! Funds accumulated there are swept — permissionlessly — into the vault,
//! credited to the depositor recorded in the seed tuple. For stuck or
//! non-standard assets, the owner may construct a call from the address's
//! derived authority, but only to an allow-listed, executable callee.

use vstd::prelude::*;
use crate::address::AUTHORIZED_PUBKEY;
use crate::address::Address;
use crate::address::bytes32_eq;
use crate::depository::DepositEvent;
use crate::depository::Depository;
use crate::errors::CustomError;
use crate::errors::DepositAddressError;
use crate::fees::MintInfo;
use crate::fees::spec_transfer_fee;

verus! {

/// The configuration of the deposit-address program: its owner and the
/// depository it sweeps into.
#[derive(Clone, Copy, Debug, PartialEq, Eq)]
pub struct DepositAddressConfig {
    /// The owner, who may update settings and run the allow-listed call.
    pub owner: Address,
    /// The depository's configuration account address.
    pub relay_depository: Address,
    /// The depository program's identity.
    pub relay_depository_program: Address,
    /// The vault address deposits are swept into.
    pub vault: Address,
}

/// One allow-list record: a callee the owner may call through a deposit
/// address's derived authority.
#[derive(Clone, Copy, Debug, PartialEq, Eq)]
pub struct AllowedProgram {
    /// The permitted callee program.
    pub program_id: Address,
}

/// The state of the deposit-address program: its configuration and its
/// allow-list.
pub struct DepositAddressState {
    /// The program's configuration.
    pub config: DepositAddressConfig,
    /// The allow-list, one record per permitted callee.
    pub allowed_programs: Vec<AllowedProgram>,
}

/// One per-order holding account: the triple it is derived from and what it
/// holds.
#[derive(Clone, Copy, Debug, PartialEq, Eq)]
pub struct DepositAccount {
    /// The order identifier.
    pub id: [u8; 32],
    /// The held token's mint, `None` for native value.
    pub token: Option<Address>,
    /// The depositor the held funds are traceable to.
    pub depositor: Address,
    /// The held balance: native value, or the token sub-account's amount.
    pub balance: u64,
    /// The storage cost held by the token sub-account, reclaimed to the
    /// depositor when the sub-account closes.
    pub token_account_rent: u64,
}

/// An account reference handed to the allow-listed call.
#[derive(Clone, Copy, Debug, PartialEq, Eq)]
pub struct AccountRef {
    /// The referenced account.
    pub key: Address,
    /// Whether the call may write it.
    pub is_writable: bool,
}

/// One account of a constructed call.
#[derive(Clone, Copy, Debug, PartialEq, Eq)]
pub struct AccountMeta {
    /// The referenced account.
    pub key: Address,
    /// Whether the account signs the call.
    pub is_signer: bool,
    /// Whether the call may write it.
    pub is_writable: bool,
}

/// A constructed call: the callee, its accounts and its data, ready for the
/// host to invoke with the deposit address's derived authority.
pub struct PreparedCall {
    /// The callee program.
    pub program_id: Address,
    /// The call's accounts; only the deposit address itself signs.
    pub accounts: Vec<AccountMeta>,
    /// The opaque instruction bytes.
    pub data: Vec<u8>,
}

/// Emitted when the program is initialized.
#[derive(Clone, Copy, Debug, PartialEq, Eq)]
pub struct InitializeEvent {
    /// The owner of the program.
    pub owner: Address,
    /// The depository's configuration account address.
    pub relay_depository: Address,
    /// The depository program's identity.
    pub relay_depository_program: Address,
    /// The vault address.
    pub vault: Address,
}

/// Emitted when ownership is transferred.
#[derive(Clone, Copy, Debug, PartialEq, Eq)]
pub struct SetOwnerEvent {
    /// The previous owner.
    pub previous_owner: Address,
    /// The new owner.
    pub new_owner: Address,
}

/// Emitted when the depository configuration is updated.
#[derive(Clone, Copy, Debug, PartialEq, Eq)]
pub struct SetDepositoryEvent {
    /// The previous depository configuration account address.
    pub previous_relay_depository: Address,
    /// The previous depository program identity.
    pub previous_relay_depository_program: Address,
    /// The previous vault address.
    pub previous_vault: Address,
    /// The new depository configuration account address.
    pub new_relay_depository: Address,
    /// The new depository program identity.
    pub new_relay_depository_program: Address,
    /// The new vault address.
    pub new_vault: Address,
}

/// Emitted when a callee is added to the allow-list.
#[derive(Clone, Copy, Debug, PartialEq, Eq)]
pub struct AddAllowedProgramEvent {
    /// The callee that was added.
    pub program_id: Address,
}

/// Emitted when a callee is removed from the allow-list.
#[derive(Clone, Copy, Debug, PartialEq, Eq)]
pub struct RemoveAllowedProgramEvent {
    /// The callee that was removed.
    pub program_id: Address,
}

/// Emitted when a deposit address is swept into the vault.
#[derive(Clone, Copy, Debug, PartialEq, Eq)]
pub struct SweepEvent {
    /// The order identifier.
    pub id: [u8; 32],
    /// The depositor credited for the swept funds.
    pub depositor: Address,
    /// The holding address the funds came from.
    pub deposit_address: Address,
    /// The swept token's mint, `None` for native value.
    pub token: Option<Address>,
    /// The gross amount swept out of the holding address.
    pub amount: u64,
}

/// Emitted when an allow-listed call is constructed.
#[derive(Clone, Debug)]
pub struct ExecuteEvent {
    /// The order identifier of the deposit address.
    pub id: [u8; 32],
    /// The token of the deposit address's seed tuple.
    pub token: Option<Address>,
    /// The depositor of the deposit address's seed tuple.
    pub depositor: Address,
    /// The callee that was invoked.
    pub target_program: Address,
    /// The opaque instruction bytes passed to the callee.
    pub instruction_data: Vec<u8>,
}

/// What a sweep returns: the sweep record, the deposit record the vault
/// credit emitted, and the storage cost reclaimed to the depositor.
pub struct SweepOutcome {
    /// The sweep record.
    pub sweep_event: SweepEvent,
    /// The deposit record of the vault credit, net of any transfer fee.
    pub deposit_event: DepositEvent,
    /// The storage cost reclaimed to the depositor by closing the token
    /// sub-account; zero for a native sweep.
    pub rent_refund: u64,
}

/// A sweep failure: either the deposit-address program's own guard, or the
/// depository's rejection of the vault credit.
#[derive(Clone, Copy, Debug, PartialEq, Eq, Structural)]
pub enum SweepError {
    /// The deposit-address program rejected the sweep.
    Address(DepositAddressError),
    /// The depository rejected the vault credit.
    Depository(CustomError),
}

impl DepositAddressState {
    /// A well-formed allow-list records each callee at most once.
    pub open spec fn wf(self) -> bool {
        forall|i: int, j: int|
            0 <= i < j < self.allowed_programs@.len() ==> self.allowed_programs@[i].program_id@
                != self.allowed_programs@[j].program_id@
    }

    /// Whether a callee is allow-listed.
    pub open spec fn spec_allowed(self, program: Seq<u8>) -> bool {
        exists|i: int|
            0 <= i < self.allowed_programs@.len() && self.allowed_programs@[i].program_id@
                == program
    }

    /// Initializes the deposit-address program's configuration.
    ///
    /// Only the authorized bootstrap identity may initialize. The
    /// allow-list starts empty.
    pub fn initialize(
        owner: Address,
        relay_depository: Address,
        relay_depository_program: Address,
        vault: Address,
    ) -> (r: Result<(DepositAddressState, InitializeEvent), DepositAddressError>)
        ensures
            match r {
                Ok((st, ev)) => {
                    &&& owner@ == AUTHORIZED_PUBKEY@
                    &&& st.config.owner == owner
                    &&& st.config.relay_depository == relay_depository
                    &&& st.config.relay_depository_program == relay_depository_program
                    &&& st.config.vault == vault
                    &&& st.allowed_programs@.len() == 0
                    &&& forall|p: Seq<u8>| !st.spec_allowed(p)
                    &&& st.wf()
                    &&& ev.owner == owner
                    &&& ev.relay_depository == relay_depository
                    &&& ev.relay_depository_program == relay_depository_program
                    &&& ev.vault == vault
                },
                Err(e) => e == DepositAddressError::Unauthorized && owner@ != AUTHORIZED_PUBKEY@,
            },
    {
        if !bytes32_eq(&owner.bytes, &AUTHORIZED_PUBKEY) {
            return Err(DepositAddressError::Unauthorized);
        }
        let st = DepositAddressState {
            config: DepositAddressConfig {
                owner,
                relay_depository,
                relay_depository_program,
                vault,
            },
            allowed_programs: Vec::new(),
        };
        let ev = InitializeEvent { owner, relay_depository, relay_depository_program, vault };
        Ok((st, ev))
    }

    /// Transfers ownership. Owner-gated.
    pub fn set_owner(&mut self, caller: Address, new_owner: Address) -> (r: Result<
        SetOwnerEvent,
        DepositAddressError,
    >)
        ensures
            match r {
                Ok(ev) => {
                    &&& caller == old(self).config.owner
                    &&& final(self).config.owner == new_owner
                    &&& final(self).config.relay_depository == old(self).config.relay_depository
                    &&& final(self).config.relay_depository_program == old(
                        self,
                    ).config.relay_depository_program
                    &&& final(self).config.vault == old(self).config.vault
                    &&& final(self).allowed_programs == old(self).allowed_programs
                    &&& ev.previous_owner == old(self).config.owner
                    &&& ev.new_owner == new_owner
                },
                Err(e) => {
                    &&& e == DepositAddressError::Unauthorized
                    &&& caller != old(self).config.owner
                    &&& *final(self) == *old(self)
                },
            },
    {
        if !caller.eq_bytes(&self.config.owner) {
            return Err(DepositAddressError::Unauthorized);
        }
        let previous_owner = self.config.owner;
        self.config.owner = new_owner;
        Ok(SetOwnerEvent { previous_owner, new_owner })
    }

    /// Updates the depository configuration. Owner-gated.
    pub fn set_depository(
        &mut self,
        caller: Address,
        relay_depository: Address,
        relay_depository_program: Address,
        vault: Address,
    ) -> (r: Result<SetDepositoryEvent, DepositAddressError>)
        ensures
            match r {
                Ok(ev) => {
                    &&& caller == old(self).config.owner
                    &&& final(self).config.owner == old(self).config.owner
                    &&& final(self).config.relay_depository == relay_depository
                    &&& final(self).config.relay_depository_program == relay_depository_program
                    &&& final(self).config.vault == vault
                    &&& final(self).allowed_programs == old(self).allowed_programs
                    &&& ev.previous_relay_depository == old(self).config.relay_depository
                    &&& ev.previous_relay_depository_program == old(
                        self,
                    ).config.relay_depository_program
                    &&& ev.previous_vault == old(self).config.vault
                    &&& ev.new_relay_depository == relay_depository
                    &&& ev.new_relay_depository_program == relay_depository_program
                    &&& ev.new_vault == vault
                },
                Err(e) => {
                    &&& e == DepositAddressError::Unauthorized
                    &&& caller != old(self).config.owner
                    &&& *final(self) == *old(self)
                },
            },
    {
        if !caller.eq_bytes(&self.config.owner) {
            return Err(DepositAddressError::Unauthorized);
        }
        let previous_relay_depository = self.config.relay_depository;
        let previous_relay_depository_program = self.config.relay_depository_program;
        let previous_vault = self.config.vault;
        self.config.relay_depository = relay_depository;
        self.config.relay_depository_program = relay_depository_program;
        self.config.vault = vault;
        Ok(
            SetDepositoryEvent {
                previous_relay_depository,
                previous_relay_depository_program,
                previous_vault,
                new_relay_depository: relay_depository,
                new_relay_depository_program: relay_depository_program,
                new_vault: vault,
            },
        )
    }

    /// Looks up the index of a callee's allow-list record.
    fn find_allowed(&self, program: &Address) -> (r: Option<usize>)
        ensures
            match r {
                Some(i) => i < self.allowed_programs@.len() && self.allowed_programs@[
                i as int].program_id@ == program@,
                None => forall|j: int|
                    0 <= j < self.allowed_programs@.len() ==> self.allowed_programs@[j].program_id@
                        != program@,
            },
    {
        let n = self.allowed_programs.len();
        let mut i: usize = 0;
        while i < n
            invariant
                i <= n == self.allowed_programs@.len(),
                forall|j: int| 0 <= j < i ==> self.allowed_programs@[j].program_id@ != program@,
            decreases n - i,
        {
            if bytes32_eq(&self.allowed_programs[i].program_id.bytes, &program.bytes) {
                return Some(i);
            }
            i += 1;
        }
        None
    }

    /// Whether a callee is allow-listed.
    pub fn is_allowed(&self, program: &Address) -> (r: bool)
        ensures
            r == self.spec_allowed(program@),
    {
        match self.find_allowed(program) {
            Some(i) => {
                proof {
                    assert(0 <= i < self.allowed_programs@.len() && self.allowed_programs@[
                    i as int].program_id@ == program@);
                }
                true
            },
            None => false,
        }
    }

    /// Adds a callee to the allow-list. Owner-gated; the callee must be an
    /// executable program. Adding a callee already listed changes nothing.
    pub fn add_allowed_program(
        &mut self,
        caller: Address,
        program_to_add: Address,
        program_executable: bool,
    ) -> (r: Result<AddAllowedProgramEvent, DepositAddressError>)
        requires
            old(self).wf(),
        ensures
            final(self).wf(),
            match r {
                Ok(ev) => {
                    &&& caller == old(self).config.owner
                    &&& program_executable
                    &&& final(self).spec_allowed(program_to_add@)
                    &&& forall|p: Seq<u8>|
                        p != program_to_add@ ==> (final(self).spec_allowed(p) <==> old(
                            self,
                        ).spec_allowed(p))
                    &&& final(self).config == old(self).config
                    &&& ev.program_id == program_to_add
                },
                Err(e) => {
                    &&& e == DepositAddressError::Unauthorized
                    &&& caller != old(self).config.owner || !program_executable
                    &&& *final(self) == *old(self)
                },
            },
    {
        if !caller.eq_bytes(&self.config.owner) {
            return Err(DepositAddressError::Unauthorized);
        }
        if !program_executable {
            return Err(DepositAddressError::Unauthorized);
        }
        match self.find_allowed(&program_to_add) {
            Some(i) => {
                proof {
                    assert(0 <= i < self.allowed_programs@.len() && self.allowed_programs@[
                    i as int].program_id@ == program_to_add@);
                }
            },
            None => {
                self.allowed_programs.push(AllowedProgram { program_id: program_to_add });
                proof {
                    let s = self.allowed_programs@;
                    assert(s[s.len() - 1].program_id@ == program_to_add@);
                    assert forall|p: Seq<u8>|
                        p != program_to_add@ implies (self.spec_allowed(p) <==> old(
                        self,
                    ).spec_allowed(p)) by {
                        if self.spec_allowed(p) {
                            let i = choose|i: int|
                                0 <= i < s.len() && s[i].program_id@ == p;
                            assert(i < s.len() - 1);
                            assert(old(self).allowed_programs@[i].program_id@ == p);
                        }
                        if old(self).spec_allowed(p) {
                            let i = choose|i: int|
                                0 <= i < old(self).allowed_programs@.len() && old(
                                    self,
                                ).allowed_programs@[i].program_id@ == p;
                            assert(s[i].program_id@ == p);
                        }
                    }
                }
            },
        }
        Ok(AddAllowedProgramEvent { program_id: program_to_add })
    }

    /// Removes a callee from the allow-list. Owner-gated. Removing a callee
    /// not listed changes nothing.
    pub fn remove_allowed_program(&mut self, caller: Address, program_to_remove: Address) -> (r:
        Result<RemoveAllowedProgramEvent, DepositAddressError>)
        requires
            old(self).wf(),
        ensures
            final(self).wf(),
            match r {
                Ok(ev) => {
                    &&& caller == old(self).config.owner
                    &&& !final(self).spec_allowed(program_to_remove@)
                    &&& forall|p: Seq<u8>|
                        p != program_to_remove@ ==> (final(self).spec_allowed(p) <==> old(
                            self,
                        ).spec_allowed(p))
                    &&& final(self).config == old(self).config
                    &&& ev.program_id == program_to_remove
                },
                Err(e) => {
                    &&& e == DepositAddressError::Unauthorized
                    &&& caller != old(self).config.owner
                    &&& *final(self) == *old(self)
                },
            },
    {
        if !caller.eq_bytes(&self.config.owner) {
            return Err(DepositAddressError::Unauthorized);
        }
        match self.find_allowed(&program_to_remove) {
            Some(i) => {
                let ghost s0 = self.allowed_programs@;
                self.allowed_programs.remove(i);
                proof {
                    let s = self.allowed_programs@;
                    assert(s =~= s0.subrange(0, i as int) + s0.subrange(
                        i + 1,
                        s0.len() as int,
                    ));
                    assert forall|j: int|
                        0 <= j < s.len() implies s[j].program_id@ != program_to_remove@ by {
                        if j < i {
                            assert(s[j] == s0[j]);
                        } else {
                            assert(s[j] == s0[j + 1]);
                        }
                    }
                    assert forall|p: Seq<u8>|
                        p != program_to_remove@ implies (self.spec_allowed(p) <==> old(
                        self,
                    ).spec_allowed(p)) by {
                        if self.spec_allowed(p) {
                            let j = choose|j: int| 0 <= j < s.len() && s[j].program_id@ == p;
                            if j < i {
                                assert(s0[j].program_id@ == p);
                            } else {
                                assert(s0[j + 1].program_id@ == p);
                            }
                        }
                        if old(self).spec_allowed(p) {
                            let j = choose|j: int| 0 <= j < s0.len() && s0[j].program_id@ == p;
                            if j < i {
                                assert(s[j].program_id@ == p);
                            } else {
                                assert(j != i);
                                assert(s[j - 1].program_id@ == p);
                            }
                        }
                    }
                }
            },
            None => {},
        }
        Ok(RemoveAllowedProgramEvent { program_id: program_to_remove })
    }

    /// Constructs an allow-listed call from a deposit address's derived
    /// authority.
    ///
    /// Owner-gated; the callee must be allow-listed and must itself be an
    /// executable program. In the constructed call only the deposit address
    /// itself is marked as a signer — no other account can impersonate one.
    /// The caller supplies the deposit address derived from the
    /// `(id, token, depositor)` triple.
    pub fn execute(
        &self,
        caller: Address,
        id: [u8; 32],
        token: Option<Address>,
        depositor: Address,
        deposit_address: Address,
        target_program: Address,
        target_executable: bool,
        accounts: &Vec<AccountRef>,
        instruction_data: Vec<u8>,
    ) -> (r: Result<(PreparedCall, ExecuteEvent), DepositAddressError>)
        ensures
            match r {
                Ok((call, ev)) => {
                    &&& caller == self.config.owner
                    &&& self.spec_allowed(target_program@)
                    &&& target_executable
                    &&& call.program_id == target_program
                    &&& call.data@ == instruction_data@
                    &&& call.accounts@.len() == accounts@.len()
                    &&& forall|i: int|
                        0 <= i < accounts@.len() ==> {
                            &&& (#[trigger] call.accounts@[i]).key == accounts@[i].key
                            &&& call.accounts@[i].is_writable == accounts@[i].is_writable
                            &&& (call.accounts@[i].is_signer <==> accounts@[i].key@
                                == deposit_address@)
                        }
                    &&& ev.id == id
                    &&& ev.token == token
                    &&& ev.depositor == depositor
                    &&& ev.target_program == target_program
                    &&& ev.instruction_data@ == instruction_data@
                },
                Err(e) => {
                    &&& e == DepositAddressError::Unauthorized
                    &&& caller != self.config.owner || !self.spec_allowed(target_program@)
                        || !target_executable
                },
            },
    {
        if !caller.eq_bytes(&self.config.owner) {
            return Err(DepositAddressError::Unauthorized);
        }
        if !self.is_allowed(&target_program) {
            return Err(DepositAddressError::Unauthorized);
        }
        if !target_executable {
            return Err(DepositAddressError::Unauthorized);
        }
        let mut metas: Vec<AccountMeta> = Vec::new();
        let n = accounts.len();
        let mut i: usize = 0;
        while i < n
            invariant
                i <= n == accounts@.len(),
                metas@.len() == i,
                forall|j: int|
                    0 <= j < i ==> {
                        &&& (#[trigger] metas@[j]).key == accounts@[j].key
                        &&& metas@[j].is_writable == accounts@[j].is_writable
                        &&& (metas@[j].is_signer <==> accounts@[j].key@ == deposit_address@)
                    },
            decreases n - i,
        {
            let account = &accounts[i];
            let is_signer = account.key.eq_bytes(&deposit_address);
            metas.push(
                AccountMeta { key: account.key, is_signer, is_writable: account.is_writable },
            );
            i += 1;
        }
        let call = PreparedCall {
            program_id: target_program,
            accounts: metas,
            data: vstd::slice::slice_to_vec(instruction_data.as_slice()),
        };
        let ev = ExecuteEvent { id, token, depositor, target_program, instruction_data };
        Ok((call, ev))
    }
}

/// The first violated guard of a sweep: a native sweep needs an available
/// balance above the preserved reserve; a token sweep needs its token-side
/// accounts, the matching mint, a positive balance, and the depository's
/// acceptance of the vault credit.
pub open spec fn spec_sweep_guard(
    depository: Depository,
    account: DepositAccount,
    mint_info: Option<MintInfo>,
    token_program: Address,
    vault_token_account: Option<Address>,
    rent_reserve: u64,
) -> Option<SweepError> {
    match account.token {
        None => {
            if account.balance <= rent_reserve {
                Some(SweepError::Address(DepositAddressError::InsufficientBalance))
            } else {
                None
            }
        },
        Some(mint_key) => {
            if mint_info is None || vault_token_account is None {
                Some(SweepError::Address(DepositAddressError::MissingTokenAccounts))
            } else if mint_info->Some_0.key@ != mint_key@ {
                Some(SweepError::Depository(CustomError::InvalidMint))
            } else if account.balance == 0 {
                Some(SweepError::Address(DepositAddressError::InsufficientBalance))
            } else {
                match depository.spec_deposit_token_guard(
                    mint_info->Some_0,
                    token_program,
                    vault_token_account->Some_0,
                ) {
                    Some(e) => Some(SweepError::Depository(e)),
                    None => None,
                }
            }
        },
    }
}

/// Sweeps a deposit address's accumulated funds into the vault.
///
/// Permissionless: anyone may invoke it, but only the protocol's derived
/// authority can move the holding address's funds, and they go nowhere but
/// the vault, credited to the depositor of the address's seed tuple. A
/// native sweep moves the balance above the preserved reserve (pass zero to
/// sweep in full); a token sweep moves the full token balance, closes the
/// token sub-account and reclaims its storage cost to the depositor. A
/// sweep with nothing available fails with `InsufficientBalance` rather
/// than silently doing nothing.
pub fn sweep(
    depository: &mut Depository,
    account: &mut DepositAccount,
    deposit_address: Address,
    mint_info: Option<MintInfo>,
    token_program: Address,
    vault_token_account: Option<Address>,
    rent_reserve: u64,
    epoch: u64,
) -> (r: Result<SweepOutcome, SweepError>)
    requires
        old(depository).wf(),
        old(account).token is None ==> old(depository).vault.native_balance + old(account).balance
            <= u64::MAX,
        old(account).token is Some ==> {
            &&& (mint_info matches Some(mi) ==> mi.wf())
            &&& old(depository).vault.spec_token_balance(old(account).token->Some_0@) + old(
                account,
            ).balance <= u64::MAX
        },
    ensures
        final(depository).wf(),
        match r {
            Ok(outcome) => {
                &&& spec_sweep_guard(
                    *old(depository),
                    *old(account),
                    mint_info,
                    token_program,
                    vault_token_account,
                    rent_reserve,
                ) is None
                &&& final(account).id == old(account).id
                &&& final(account).token == old(account).token
                &&& final(account).depositor == old(account).depositor
                &&& final(depository).config == old(depository).config
                &&& final(depository).vault_address == old(depository).vault_address
                &&& final(depository).reserve_floor == old(depository).reserve_floor
                &&& final(depository).used_requests == old(depository).used_requests
                &&& match old(account).token {
                    None => {
                        let moved = old(account).balance - rent_reserve;
                        &&& final(account).balance == rent_reserve
                        &&& final(account).token_account_rent == old(account).token_account_rent
                        &&& final(depository).vault.native_balance == old(
                            depository,
                        ).vault.native_balance + moved
                        &&& final(depository).vault.token_balances == old(
                            depository,
                        ).vault.token_balances
                        &&& outcome.sweep_event.amount == moved
                        &&& outcome.deposit_event.amount == moved
                        &&& outcome.deposit_event.token is None
                        &&& outcome.rent_refund == 0
                    },
                    Some(mint_key) => {
                        let moved = old(account).balance as int;
                        let fee = spec_transfer_fee(mint_info->Some_0, epoch, old(account).balance);
                        &&& final(account).balance == 0
                        &&& final(account).token_account_rent == 0
                        &&& final(depository).vault.native_balance == old(
                            depository,
                        ).vault.native_balance
                        &&& final(depository).vault.spec_token_balance(mint_key@) == old(
                            depository,
                        ).vault.spec_token_balance(mint_key@) + moved - fee
                        &&& forall|m: Seq<u8>|
                            m != mint_key@ ==> final(depository).vault.spec_token_balance(m) == old(
                                depository,
                            ).vault.spec_token_balance(m)
                        &&& outcome.sweep_event.amount == old(account).balance
                        &&& outcome.deposit_event.amount as int == moved - fee
                        &&& outcome.deposit_event.token == Some(mint_key)
                        &&& outcome.rent_refund == old(account).token_account_rent
                    },
                }
                &&& outcome.sweep_event.id == old(account).id
                &&& outcome.sweep_event.depositor == old(account).depositor
                &&& outcome.sweep_event.deposit_address == deposit_address
                &&& outcome.sweep_event.token == old(account).token
                &&& outcome.deposit_event.depositor == old(account).depositor
                &&& outcome.deposit_event.id == old(account).id
            },
            Err(e) => {
                &&& *final(depository) == *old(depository)
                &&& *final(account) == *old(account)
                &&& spec_sweep_guard(
                    *old(depository),
                    *old(account),
                    mint_info,
                    token_program,
                    vault_token_account,
                    rent_reserve,
                ) == Some(e)
            },
        },
{
    match &account.token {
        None => {
            if account.balance <= rent_reserve {
                return Err(SweepError::Address(DepositAddressError::InsufficientBalance));
            }
            let amount = account.balance - rent_reserve;
            let deposit_event = depository.deposit_native(account.depositor, amount, account.id);
            account.balance = rent_reserve;
            let sweep_event = SweepEvent {
                id: account.id,
                depositor: account.depositor,
                deposit_address,
                token: None,
                amount,
            };
            Ok(SweepOutcome { sweep_event, deposit_event, rent_refund: 0 })
        },
        Some(mint_key) => {
            let mi = match &mint_info {
                None => {
                    return Err(SweepError::Address(DepositAddressError::MissingTokenAccounts));
                },
                Some(mi) => mi,
            };
            let vta = match &vault_token_account {
                None => {
                    return Err(SweepError::Address(DepositAddressError::MissingTokenAccounts));
                },
                Some(vta) => *vta,
            };
            if !mi.key.eq_bytes(mint_key) {
                return Err(SweepError::Depository(CustomError::InvalidMint));
            }
            let amount = account.balance;
            if amount == 0 {
                return Err(SweepError::Address(DepositAddressError::InsufficientBalance));
            }
            let deposit_event = match depository.deposit_token(
                account.depositor,
                amount,
                account.id,
                mi,
                token_program,
                vta,
                epoch,
            ) {
                Err(e) => {
                    return Err(SweepError::Depository(e));
                },
                Ok(ev) => ev,
            };
            let rent_refund = account.token_account_rent;
            account.balance = 0;
            account.token_account_rent = 0;
            let sweep_event = SweepEvent {
                id: account.id,
                depositor: account.depositor,
                deposit_address,
                token: Some(*mint_key),
                amount,
            };
            Ok(SweepOutcome { sweep_event, deposit_event, rent_refund })
        },
    }
}

/// An exhausted deposit address cannot be swept again: once nothing is
/// available — a native balance at or below the preserved reserve, or a
/// zero token balance — the sweep fails with `InsufficientBalance`.
pub proof fn lemma_sweep_exhausted(
    depository: Depository,
    account: DepositAccount,
    mint_info: Option<MintInfo>,
    token_program: Address,
    vault_token_account: Option<Address>,
    rent_reserve: u64,
)
    requires
        account.token is None ==> account.balance <= rent_reserve,
        account.token is Some ==> {
            &&& account.balance == 0
            &&& mint_info matches Some(mi) && mi.key@ == account.token->Some_0@
            &&& vault_token_account is Some
        },
    ensures
        spec_sweep_guard(
            depository,
            account,
            mint_info,
            token_program,
            vault_token_account,
            rent_reserve,
        ) == Some(SweepError::Address(DepositAddressError::InsufficientBalance)),
{
}

} // verus!
