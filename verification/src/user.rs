//! Users: minting their NFT, accepting invites, and the checks on their accounts.
use vstd::prelude::*;
use vstd::string::StringSliceAdditionalSpecFns;
use vstd::utf8::encode_utf8;

use crate::metadata::{opt_view, TaskId, TokenMetadata};
use crate::runtime;
use crate::task::{Task, TaskState, TaskType};
use crate::utils::{
    all_name_bytes, all_name_bytes_in, create_sub_account, first_index, position_in, suffix_equals, ContractError,
    PromiseAction, DOT,
};
use crate::{Contract, BASE_STORAGE_COST};

verus! {

/// Whether `account` (UTF-8 bytes) is a user account of the contract `contract`:
/// `username.contract`, where the username holds only ASCII letters, digits and `_`;
/// otherwise why not.
pub open spec fn user_account_outcome(account: Seq<u8>, contract: Seq<u8>) -> Result<(), ContractError> {
    let dot = first_index(account, DOT);
    if dot < 0 {
        Err(ContractError::InvalidAccountId)
    } else if !all_name_bytes(account.take(dot)) {
        Err(ContractError::InvalidUsername)
    } else if account.skip(dot + 1) != contract {
        Err(ContractError::InvalidAccountId)
    } else {
        Ok(())
    }
}

/// Fails unless `account_id` is exactly of the form `valid_username.contract_id`.
pub fn check_user_account_pattern(account_id: &str, contract_id: &str) -> (r: Result<(), ContractError>)
    ensures
        r == user_account_outcome(account_id.spec_bytes(), contract_id.spec_bytes()),
{
    let bytes = account_id.as_bytes();
    let contract = contract_id.as_bytes();
    let n = bytes.len();
    proof {
        assert(bytes@.take(n as int) =~= bytes@);
    }
    let dot = match position_in(bytes, DOT, n) {
        Some(i) => i,
        None => {
            return Err(ContractError::InvalidAccountId);
        },
    };
    if !all_name_bytes_in(bytes, dot) {
        return Err(ContractError::InvalidUsername);
    }
    if !suffix_equals(bytes, dot + 1, contract) {
        return Err(ContractError::InvalidAccountId);
    }
    Ok(())
}

/// Fails unless `account_id` is exactly of the form `valid_username.` followed by the
/// contract's own account ID.
pub fn assert_valid_carbonite_user_account_pattern(account_id: &str) -> (r: Result<(), ContractError>)
    ensures
        exists|contract_id: String| r == user_account_outcome(account_id.spec_bytes(), encode_utf8(contract_id@)),
{
    let contract_id = runtime::current_account_id();
    check_user_account_pattern(account_id, contract_id.as_str())
}

impl Contract {
    /// What minting the NFT of `receiver_id` at `now` does, with `contract` the contract's
    /// own account ID (UTF-8 bytes): `r` is its result, taking `old` to `new`.
    pub open spec fn mint_effect(
        old: Contract,
        new: Contract,
        receiver_id: String,
        title: Seq<char>,
        description: Option<Seq<char>>,
        public_key: Vec<u8>,
        contract: Seq<u8>,
        now: u64,
        r: Result<PromiseAction, ContractError>,
    ) -> bool {
        match user_account_outcome(encode_utf8(receiver_id@), contract) {
            Err(e) => r == Err::<PromiseAction, ContractError>(e) && new == old,
            Ok(_) => if old.tokens_by_account_id@.contains_key(receiver_id@) {
                r == Err::<PromiseAction, ContractError>(ContractError::AccountExists) && new == old
            } else {
                &&& r == Ok::<PromiseAction, ContractError>(PromiseAction::CreateSubAccount {
                    account_id: receiver_id,
                    initial_balance: BASE_STORAGE_COST,
                    full_access_key: public_key,
                })
                &&& new.tokens_by_account_id@ == old.tokens_by_account_id@.insert(
                    receiver_id@,
                    new.tokens_by_account_id@[receiver_id@],
                )
                &&& new.tokens_by_account_id@[receiver_id@].is_default_token(title, description, now)
                &&& new == (Contract { tokens_by_account_id: new.tokens_by_account_id, ..old })
            },
        }
    }

    /// Mints the carbonite NFT of `receiver_id`, which must be of the form
    /// `username.contract_id`, and asks for the creation of its sub-account.
    pub fn nft_mint_as(
        &mut self,
        receiver_id: String,
        title: String,
        description: Option<String>,
        public_key: Vec<u8>,
        contract_id: &str,
        now: u64,
    ) -> (r: Result<PromiseAction, ContractError>)
        requires
            old(self).wf(),
        ensures
            final(self).wf(),
            Self::mint_effect(*old(self), *final(self), receiver_id, title@, opt_view(description), public_key, contract_id.spec_bytes(), now, r),
    {
        check_user_account_pattern(receiver_id.as_str(), contract_id)?;
        let action = create_sub_account(receiver_id.clone(), public_key);
        let token_metadata = TokenMetadata::new_at(title, description, now);
        self.internal_add_token_to_owner(&receiver_id, token_metadata)?;
        Ok(action)
    }

    /// Mints the carbonite NFT of `receiver_id`, which must be of the form
    /// `username.` followed by the contract's own account ID, and asks for the creation
    /// of its sub-account.
    pub fn nft_mint(&mut self, receiver_id: String, title: String, description: Option<String>, public_key: Vec<u8>) -> (r: Result<PromiseAction, ContractError>)
        requires
            old(self).wf(),
        ensures
            final(self).wf(),
            exists|contract: Seq<char>, now: u64|
                Self::mint_effect(*old(self), *final(self), receiver_id, title@, opt_view(description), public_key, encode_utf8(contract), now, r),
    {
        let contract_id = runtime::current_account_id();
        let now = runtime::block_timestamp_ms();
        self.nft_mint_as(receiver_id, title, description, public_key, contract_id.as_str(), now)
    }

    /// What `caller` accepting the invite of `task_id` at `now` does: `r` is its result,
    /// taking `old` to `new`. The task is pinged first, and the decision goes by the state
    /// the ping leaves: an invite-only task still open takes an invited caller as its
    /// assignee and becomes pending; any other task is left as the ping leaves it (so an
    /// invitation that ran out expires, and nobody is assigned to it).
    pub open spec fn accept_invite_effect(old: Contract, new: Contract, task_id: Seq<char>, caller: String, now: u64, r: Result<(), ContractError>) -> bool {
        if !old.task_metadata_by_id@.contains_key(task_id) {
            r == Err::<(), ContractError>(ContractError::InvalidTaskId) && new == old
        } else {
            let task = old.task_metadata_by_id@[task_id];
            match task.ping_outcome(now) {
                Err(e) => r == Err::<(), ContractError>(e) && new == old,
                Ok(state) => if state == TaskState::Open && task.task_details.task_type is InviteOnly {
                    if !task.task_details.task_type->invited_accounts@.contains(caller@) {
                        r == Err::<(), ContractError>(ContractError::NotInvited) && new == old
                    } else {
                        &&& r is Ok
                        &&& new.task_metadata_by_id@ == old.task_metadata_by_id@.insert(
                            task_id,
                            Task { person_assigned: Some(caller), task_state: TaskState::Pending, ..task },
                        )
                        &&& new == (Contract { task_metadata_by_id: new.task_metadata_by_id, ..old })
                    }
                } else {
                    &&& r is Ok
                    &&& new.task_metadata_by_id@ == old.task_metadata_by_id@.insert(task_id, Task { task_state: state, ..task })
                    &&& new == (Contract { task_metadata_by_id: new.task_metadata_by_id, ..old })
                },
            }
        }
    }

    /// `caller` accepts the invite of the task `task_id` at `now`.
    pub fn accept_invite_as(&mut self, task_id: &TaskId, caller: String, now: u64) -> (r: Result<(), ContractError>)
        requires
            old(self).wf(),
        ensures
            final(self).wf(),
            Self::accept_invite_effect(*old(self), *final(self), task_id@, caller, now, r),
    {
        let task = match self.task_metadata_by_id.get(task_id) {
            Some(t) => t,
            None => {
                return Err(ContractError::InvalidTaskId);
            },
        };
        let state = task.ping_outcome_at(now)?;
        let assign = match state {
            TaskState::Open => match &task.task_details.task_type {
                TaskType::InviteOnly { invited_accounts, .. } => {
                    if !invited_accounts.contains(&caller) {
                        return Err(ContractError::NotInvited);
                    }
                    true
                },
                TaskType::ForEveryone => false,
            },
            _ => false,
        };
        let mut t = match self.task_metadata_by_id.remove(task_id) {
            Some(t) => t,
            None => {
                return Err(ContractError::InvalidTaskId);
            },
        };
        let ghost t0 = t;
        if assign {
            t.person_assigned = Some(caller);
            t.task_state = TaskState::Pending;
        } else {
            t.task_state = state;
        }
        self.task_metadata_by_id.insert(task_id.clone(), t);
        proof {
            if assign {
                assert(self.task_metadata_by_id@ =~= old(self).task_metadata_by_id@.insert(
                    task_id@,
                    Task { person_assigned: Some(caller), task_state: TaskState::Pending, ..t0 },
                ));
            } else {
                assert(self.task_metadata_by_id@ =~= old(self).task_metadata_by_id@.insert(
                    task_id@,
                    Task { task_state: state, ..t0 },
                ));
            }
        }
        Ok(())
    }

    /// The caller accepts the invite of the task `task_id`.
    pub fn accept_invite(&mut self, task_id: &TaskId) -> (r: Result<(), ContractError>)
        requires
            old(self).wf(),
        ensures
            final(self).wf(),
            exists|caller: String, now: u64| Self::accept_invite_effect(*old(self), *final(self), task_id@, caller, now, r),
    {
        let now = runtime::block_timestamp_ms();
        let caller = runtime::predecessor_account_id();
        self.accept_invite_as(task_id, caller, now)
    }
}

} // verus!
