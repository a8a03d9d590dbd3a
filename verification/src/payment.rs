//! Paying rewards out.
use vstd::prelude::*;

use crate::metadata::TaskId;
use crate::utils::{ContractError, PromiseAction};
use crate::Contract;

verus! {

impl Contract {
    /// The payment of the reward of `task_id` to `user_id`; no other check is made.
    /// Rewards in other tokens than NEAR are not implemented.
    pub fn transfer_reward_to(&self, task_id: &TaskId, user_id: &String) -> (r: Result<PromiseAction, ContractError>)
        requires
            self.wf(),
        ensures
            match r {
                Ok(a) => {
                    &&& self.task_metadata_by_id@.contains_key(task_id@)
                    &&& self.task_metadata_by_id@[task_id@].ft_contract_id@ == "near"@
                    &&& a == (PromiseAction::Transfer {
                        receiver_id: *user_id,
                        amount: self.task_metadata_by_id@[task_id@].reward,
                    })
                },
                Err(e) => if !self.task_metadata_by_id@.contains_key(task_id@) {
                    e == ContractError::InvalidTask
                } else {
                    self.task_metadata_by_id@[task_id@].ft_contract_id@ != "near"@ && e == ContractError::NotImplemented
                },
            },
    {
        let task = match self.task_metadata_by_id.get(task_id) {
            Some(t) => t,
            None => {
                return Err(ContractError::InvalidTask);
            },
        };
        let near = "near".to_owned();
        if task.ft_contract_id == near {
            Ok(PromiseAction::Transfer { receiver_id: user_id.clone(), amount: task.reward })
        } else {
            Err(ContractError::NotImplemented)
        }
    }
}

} // verus!
