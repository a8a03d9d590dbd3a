//! Companies: their details, and the checks on their accounts.
use vstd::prelude::*;
use vstd::string::StringSliceAdditionalSpecFns;
use vstd::utf8::encode_utf8;

use crate::metadata::TaskId;
use crate::runtime;
use crate::runtime::spec_storage_byte_cost;
use crate::internal::tasks_of;
use crate::task::{Task, TaskState};
use crate::utils::{
    all_name_bytes, all_name_bytes_in, first_index, position_in, refund_excess_deposit_from, refund_outcome,
    suffix_equals, ContractError, PromiseAction, DOT,
};
use crate::Contract;

verus! {

/// A company that gives tasks. Its account ID ends in `-Co`.
pub struct Company {
    pub name: String,
    /// data URL of the company logo
    pub icon: String,
    /// industries the company works in, comma separated
    pub industries: String,
    /// short description of the company
    pub description: String,
    /// headquarters, or None for a remote company
    pub location: Option<String>,
    /// website URL of the company
    pub reference: String,
}

impl Contract {
    /// What a company's edit of its own details does: `r` is its result, taking `old` to `new`.
    pub open spec fn edit_company_effect(old: Contract, new: Contract, caller: Seq<char>, details: Company, r: Result<(), ContractError>) -> bool {
        if !old.whitelisted_companies@.contains_key(caller) {
            r == Err::<(), ContractError>(ContractError::InvalidCompany) && new == old
        } else {
            &&& r is Ok
            &&& new.whitelisted_companies@ == old.whitelisted_companies@.insert(caller, details)
            &&& new == (Contract { whitelisted_companies: new.whitelisted_companies, ..old })
        }
    }

    /// Replaces the details of the whitelisted company `caller`.
    pub fn edit_company_details_as(&mut self, caller: &String, new_company_details: Company) -> (r: Result<(), ContractError>)
        requires
            old(self).wf(),
        ensures
            final(self).wf(),
            Self::edit_company_effect(*old(self), *final(self), caller@, new_company_details, r),
    {
        self.assert_whitelisted_company(caller)?;
        self.whitelisted_companies.insert(caller.clone(), new_company_details);
        Ok(())
    }

    /// Replaces the details of the calling company, which must be whitelisted.
    pub fn edit_company_details(&mut self, new_company_details: Company) -> (r: Result<(), ContractError>)
        requires
            old(self).wf(),
        ensures
            final(self).wf(),
            exists|caller: Seq<char>| Self::edit_company_effect(*old(self), *final(self), caller, new_company_details, r),
    {
        let caller = runtime::predecessor_account_id();
        self.edit_company_details_as(&caller, new_company_details)
    }

    /// What the company `caller` selecting the submission of `user` as the winner of
    /// `task_id` at `now` does: `r` is its result, taking `old` to `new`. A task that is not
    /// completed is pinged and refused. A completed task past its deadline, given by
    /// `caller`, with a submission of `user` that is not yet counted for `user`, is paid:
    /// it is recorded as completed by `user`, becomes payed, and its reward goes to `user`.
    /// Rewards in other tokens than NEAR are not implemented.
    pub open spec fn select_task_effect(
        old: Contract,
        new: Contract,
        task_id: Seq<char>,
        user: String,
        caller: Seq<char>,
        now: u64,
        r: Result<PromiseAction, ContractError>,
    ) -> bool {
        if !old.task_metadata_by_id@.contains_key(task_id) {
            r == Err::<PromiseAction, ContractError>(ContractError::InvalidTask) && new == old
        } else {
            let task = old.task_metadata_by_id@[task_id];
            if task.task_state != TaskState::Completed {
                &&& new == old
                &&& r == Err::<PromiseAction, ContractError>(match task.ping_outcome(now) {
                    Err(e) => e,
                    Ok(_) => ContractError::AlreadyPayed,
                })
            } else if !task.past_deadline(now) {
                r == Err::<PromiseAction, ContractError>(ContractError::DeadlineNotReached) && new == old
            } else if caller != task.company_id@ {
                r == Err::<PromiseAction, ContractError>(ContractError::InvalidCompany) && new == old
            } else if !task.submissions_by_account_id@.contains_key(user@) {
                r == Err::<PromiseAction, ContractError>(ContractError::NoSubmission) && new == old
            } else if tasks_of(old.tasks_completed_per_account@, user@).contains(task_id) {
                &&& match r {
                    Err(ContractError::AccountTaskExists { user_id, task_id: t }) => user_id@ == user@ && t@ == task_id,
                    _ => false,
                }
                &&& new == old
            } else if task.ft_contract_id@ != "near"@ {
                r == Err::<PromiseAction, ContractError>(ContractError::NotImplemented) && new == old
            } else {
                &&& r == Ok::<PromiseAction, ContractError>(PromiseAction::Transfer { receiver_id: user, amount: task.reward })
                &&& new.task_metadata_by_id@ == old.task_metadata_by_id@.insert(task_id, Task { task_state: TaskState::Payed, ..task })
                &&& new.tasks_completed_per_account@.dom() == old.tasks_completed_per_account@.dom().insert(user@)
                &&& tasks_of(new.tasks_completed_per_account@, user@) == tasks_of(old.tasks_completed_per_account@, user@).insert(task_id)
                &&& forall|k: Seq<char>| k != user@ && #[trigger] old.tasks_completed_per_account@.contains_key(k)
                    ==> new.tasks_completed_per_account@[k] == old.tasks_completed_per_account@[k]
                &&& new == (Contract {
                    tasks_completed_per_account: new.tasks_completed_per_account,
                    task_metadata_by_id: new.task_metadata_by_id,
                    ..old
                })
            }
        }
    }

    /// The company `caller` selects the submission of `user_id` as the winner of the bounty
    /// `task_id` at `now`; returns the payment of the reward to the winner.
    pub fn select_task_as(&mut self, task_id: &TaskId, user_id: &String, caller: &String, now: u64) -> (r: Result<PromiseAction, ContractError>)
        requires
            old(self).wf(),
        ensures
            final(self).wf(),
            Self::select_task_effect(*old(self), *final(self), task_id@, *user_id, caller@, now, r),
    {
        let task = match self.task_metadata_by_id.get(task_id) {
            Some(t) => t,
            None => {
                return Err(ContractError::InvalidTask);
            },
        };
        match task.task_state {
            TaskState::Completed => {},
            _ => {
                task.ping_outcome_at(now)?;
                return Err(ContractError::AlreadyPayed);
            },
        }
        if !task.is_past_deadline_at(now) {
            return Err(ContractError::DeadlineNotReached);
        }
        if *caller != task.company_id {
            return Err(ContractError::InvalidCompany);
        }
        if !task.submissions_by_account_id.contains_key(user_id) {
            return Err(ContractError::NoSubmission);
        }
        let counted = match self.tasks_completed_per_account.get(user_id) {
            Some(set) => set.contains(task_id),
            None => false,
        };
        if counted {
            return Err(ContractError::AccountTaskExists { user_id: user_id.clone(), task_id: task_id.clone() });
        }
        let payment = self.transfer_reward_to(task_id, user_id)?;
        self.internal_add_tasks_to_account(user_id, task_id)?;
        let ghost t0 = old(self).task_metadata_by_id@[task_id@];
        let mut t = match self.task_metadata_by_id.remove(task_id) {
            Some(t) => t,
            None => {
                return Err(ContractError::InvalidTask);
            },
        };
        t.task_state = TaskState::Payed;
        self.task_metadata_by_id.insert(task_id.clone(), t);
        proof {
            assert(self.task_metadata_by_id@ =~= old(self).task_metadata_by_id@.insert(
                task_id@,
                Task { task_state: TaskState::Payed, ..t0 },
            ));
        }
        Ok(payment)
    }

    /// The calling company selects the submission of `user_id` as the winner of the bounty
    /// `task_id`; returns the payment of the reward to the winner.
    pub fn select_task(&mut self, task_id: &TaskId, user_id: &String) -> (r: Result<PromiseAction, ContractError>)
        requires
            old(self).wf(),
        ensures
            final(self).wf(),
            exists|caller: Seq<char>, now: u64| Self::select_task_effect(*old(self), *final(self), task_id@, *user_id, caller, now, r),
    {
        let now = runtime::block_timestamp_ms();
        let caller = runtime::predecessor_account_id();
        self.select_task_as(task_id, user_id, &caller, now)
    }

    /// Fails unless `company_id` is whitelisted.
    pub fn assert_whitelisted_company(&self, company_id: &String) -> (r: Result<(), ContractError>)
        ensures
            r == (if self.whitelisted_companies@.contains_key(company_id@) {
                Ok(())
            } else {
                Err::<(), ContractError>(ContractError::InvalidCompany)
            }),
    {
        if self.whitelisted_companies.contains_key(company_id) {
            Ok(())
        } else {
            Err(ContractError::InvalidCompany)
        }
    }
}

/// What an edit of a company's details settles, when storage went from `initial_storage`
/// to `final_storage` bytes and the company attached `attached` yoctoNEAR: storage that
/// grew is paid from the deposit (the rest goes back), storage that shrank is paid back.
pub open spec fn edit_settlement_outcome(initial_storage: u64, final_storage: u64, attached: u128, company_id: String) -> Result<Option<PromiseAction>, ContractError> {
    if final_storage > initial_storage {
        refund_outcome(attached, company_id, (final_storage - initial_storage) as u64)
    } else if final_storage < initial_storage {
        Ok(Some(PromiseAction::Transfer {
            receiver_id: company_id,
            amount: (spec_storage_byte_cost() * (initial_storage - final_storage)) as u128,
        }))
    } else {
        Ok(None)
    }
}

/// Settles the storage of an edit of a company's details.
pub fn edit_company_settlement(initial_storage: u64, final_storage: u64, attached: u128, company_id: String) -> (r: Result<Option<PromiseAction>, ContractError>)
    ensures
        r == edit_settlement_outcome(initial_storage, final_storage, attached, company_id),
{
    if final_storage > initial_storage {
        refund_excess_deposit_from(attached, company_id, final_storage - initial_storage)
    } else if final_storage < initial_storage {
        let used = (initial_storage - final_storage) as u128;
        let byte_cost = runtime::storage_byte_cost();
        assert(byte_cost * used <= 10_000_000_000_000_000_000u128 * 0xffff_ffff_ffff_ffffu128) by (nonlinear_arith)
            requires
                byte_cost == 10_000_000_000_000_000_000u128,
                used <= 0xffff_ffff_ffff_ffffu128,
        ;
        Ok(Some(PromiseAction::Transfer { receiver_id: company_id, amount: used * byte_cost }))
    } else {
        Ok(None)
    }
}

/// `name` ends in `-Co`.
pub open spec fn ends_with_co(name: Seq<u8>) -> bool {
    name.len() >= 3 && name[name.len() - 3] == 45u8 && name[name.len() - 2] == 67u8
        && name[name.len() - 1] == 111u8
}

/// Whether `account` (UTF-8 bytes) is a company account of the contract `contract`:
/// `company_name-Co.contract`, where the company name holds only ASCII letters, digits
/// and `_`; otherwise why not.
pub open spec fn company_account_outcome(account: Seq<u8>, contract: Seq<u8>) -> Result<(), ContractError> {
    let dot = first_index(account, DOT);
    if dot < 0 {
        Err(ContractError::InvalidAccountId)
    } else {
        let name = account.take(dot);
        if !ends_with_co(name) {
            Err(ContractError::CompanyNameSuffix)
        } else if !all_name_bytes(name.take(name.len() - 3)) {
            Err(ContractError::InvalidCompanyName)
        } else if account.skip(dot + 1) != contract {
            Err(ContractError::InvalidAccountId)
        } else {
            Ok(())
        }
    }
}

/// Fails unless `account_id` is exactly of the form `company_name-Co.contract_id`.
pub fn check_company_account_pattern(account_id: &str, contract_id: &str) -> (r: Result<(), ContractError>)
    ensures
        r == company_account_outcome(account_id.spec_bytes(), contract_id.spec_bytes()),
{
    let bytes = account_id.as_bytes();
    let contract = contract_id.as_bytes();
    let n = bytes.len();
    proof {
        assert(bytes@.take(n as int) =~= bytes@);
    }
    let dot = match position_in(bytes, DOT, n) {
        Some(i) => i,
        None => {
            return Err(ContractError::InvalidAccountId);
        },
    };
    let ghost name = bytes@.take(dot as int);
    if !(dot >= 3 && bytes[dot - 3] == 45u8 && bytes[dot - 2] == 67u8 && bytes[dot - 1] == 111u8) {
        return Err(ContractError::CompanyNameSuffix);
    }
    proof {
        assert(name.take(dot - 3) =~= bytes@.take(dot - 3));
    }
    if !all_name_bytes_in(bytes, dot - 3) {
        return Err(ContractError::InvalidCompanyName);
    }
    if !suffix_equals(bytes, dot + 1, contract) {
        return Err(ContractError::InvalidAccountId);
    }
    Ok(())
}

/// Fails unless `account_id` is exactly of the form `company_name-Co.` followed by the
/// contract's own account ID.
pub fn assert_valid_carbonite_company_account_pattern(account_id: &str) -> (r: Result<(), ContractError>)
    ensures
        exists|contract_id: String| r == company_account_outcome(account_id.spec_bytes(), encode_utf8(contract_id@)),
{
    let contract_id = runtime::current_account_id();
    check_company_account_pattern(account_id, contract_id.as_str())
}

} // verus!
