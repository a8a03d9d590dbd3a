//! Additions to the contract's collections that refuse to overwrite.
use vstd::prelude::*;

use crate::collections::StrSet;
use crate::company::Company;
use crate::metadata::TokenMetadata;
use crate::utils::ContractError;
use crate::Contract;

verus! {

/// The task IDs that `m` holds for `k`; none if `k` has no entry.
pub open spec fn tasks_of(m: Map<Seq<char>, StrSet>, k: Seq<char>) -> Set<Seq<char>> {
    if m.contains_key(k) {
        m[k]@
    } else {
        Set::empty()
    }
}

impl Contract {
    /// Gives `owner_id` the NFT `token_metadata`; fails if the account already has one.
    pub fn internal_add_token_to_owner(&mut self, owner_id: &String, token_metadata: TokenMetadata) -> (r: Result<(), ContractError>)
        requires
            old(self).wf(),
        ensures
            final(self).wf(),
            match r {
                Ok(()) => {
                    &&& !old(self).tokens_by_account_id@.contains_key(owner_id@)
                    &&& final(self).tokens_by_account_id@ == old(self).tokens_by_account_id@.insert(owner_id@, token_metadata)
                    &&& *final(self) == (Contract { tokens_by_account_id: final(self).tokens_by_account_id, ..*old(self) })
                },
                Err(e) => {
                    &&& old(self).tokens_by_account_id@.contains_key(owner_id@)
                    &&& e == ContractError::AccountExists
                    &&& *final(self) == *old(self)
                },
            },
    {
        if self.tokens_by_account_id.contains_key(owner_id) {
            return Err(ContractError::AccountExists);
        }
        self.tokens_by_account_id.insert(owner_id.clone(), token_metadata);
        Ok(())
    }

    /// Whitelists `company` under `company_id`; fails if the ID is already whitelisted.
    pub fn internal_add_company_to_whitelisted_companies(&mut self, company_id: &String, company: Company) -> (r: Result<(), ContractError>)
        requires
            old(self).wf(),
        ensures
            final(self).wf(),
            match r {
                Ok(()) => {
                    &&& !old(self).whitelisted_companies@.contains_key(company_id@)
                    &&& final(self).whitelisted_companies@ == old(self).whitelisted_companies@.insert(company_id@, company)
                    &&& *final(self) == (Contract { whitelisted_companies: final(self).whitelisted_companies, ..*old(self) })
                },
                Err(e) => {
                    &&& old(self).whitelisted_companies@.contains_key(company_id@)
                    &&& e == ContractError::CompanyExists
                    &&& *final(self) == *old(self)
                },
            },
    {
        if self.whitelisted_companies.contains_key(company_id) {
            return Err(ContractError::CompanyExists);
        }
        self.whitelisted_companies.insert(company_id.clone(), company);
        Ok(())
    }

    /// Records that `company_id` gives the task `task_id`; fails if it already does.
    pub fn internal_add_tasks_to_company(&mut self, company_id: &String, task_id: &String) -> (r: Result<(), ContractError>)
        requires
            old(self).wf(),
        ensures
            final(self).wf(),
            match r {
                Ok(()) => {
                    &&& !tasks_of(old(self).tasks_by_company@, company_id@).contains(task_id@)
                    &&& final(self).tasks_by_company@.dom() == old(self).tasks_by_company@.dom().insert(company_id@)
                    &&& tasks_of(final(self).tasks_by_company@, company_id@)
                        == tasks_of(old(self).tasks_by_company@, company_id@).insert(task_id@)
                    &&& forall|k: Seq<char>| k != company_id@ && #[trigger] old(self).tasks_by_company@.contains_key(k)
                        ==> final(self).tasks_by_company@[k] == old(self).tasks_by_company@[k]
                    &&& *final(self) == (Contract { tasks_by_company: final(self).tasks_by_company, ..*old(self) })
                },
                Err(e) => {
                    &&& tasks_of(old(self).tasks_by_company@, company_id@).contains(task_id@)
                    &&& e == (ContractError::CompanyTaskExists { company_id: *company_id, task_id: *task_id })
                    &&& *final(self) == *old(self)
                },
            },
    {
        match self.tasks_by_company.get(company_id) {
            Some(set) => {
                if set.contains(task_id) {
                    return Err(ContractError::CompanyTaskExists { company_id: company_id.clone(), task_id: task_id.clone() });
                }
            },
            None => {},
        }
        let mut task_set = match self.tasks_by_company.remove(company_id) {
            Some(set) => set,
            None => StrSet::new(),
        };
        task_set.insert(task_id.clone());
        self.tasks_by_company.insert(company_id.clone(), task_set);
        Ok(())
    }

    /// Records that `user_id` has completed the task `task_id`; fails if it already has.
    pub fn internal_add_tasks_to_account(&mut self, user_id: &String, task_id: &String) -> (r: Result<(), ContractError>)
        requires
            old(self).wf(),
        ensures
            final(self).wf(),
            match r {
                Ok(()) => {
                    &&& !tasks_of(old(self).tasks_completed_per_account@, user_id@).contains(task_id@)
                    &&& final(self).tasks_completed_per_account@.dom() == old(self).tasks_completed_per_account@.dom().insert(user_id@)
                    &&& tasks_of(final(self).tasks_completed_per_account@, user_id@)
                        == tasks_of(old(self).tasks_completed_per_account@, user_id@).insert(task_id@)
                    &&& forall|k: Seq<char>| k != user_id@ && #[trigger] old(self).tasks_completed_per_account@.contains_key(k)
                        ==> final(self).tasks_completed_per_account@[k] == old(self).tasks_completed_per_account@[k]
                    &&& *final(self) == (Contract { tasks_completed_per_account: final(self).tasks_completed_per_account, ..*old(self) })
                },
                Err(e) => {
                    &&& tasks_of(old(self).tasks_completed_per_account@, user_id@).contains(task_id@)
                    &&& e == (ContractError::AccountTaskExists { user_id: *user_id, task_id: *task_id })
                    &&& *final(self) == *old(self)
                },
            },
    {
        match self.tasks_completed_per_account.get(user_id) {
            Some(set) => {
                if set.contains(task_id) {
                    return Err(ContractError::AccountTaskExists { user_id: user_id.clone(), task_id: task_id.clone() });
                }
            },
            None => {},
        }
        let mut task_set = match self.tasks_completed_per_account.remove(user_id) {
            Some(set) => set,
            None => StrSet::new(),
        };
        task_set.insert(task_id.clone());
        self.tasks_completed_per_account.insert(user_id.clone(), task_set);
        Ok(())
    }
}

} // verus!
