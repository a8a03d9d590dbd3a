//! Tasks that companies post, and their life cycle.
use vstd::prelude::*;

use crate::collections::{StrMap, StrSet};
use crate::internal::tasks_of;
use crate::metadata::{Skills, TaskId};
use crate::runtime;
use crate::utils::{storage_cost, ContractError, PromiseAction};
use crate::Contract;

verus! {

/// Who can take a task up.
pub enum TaskType {
    /// Only the invited accounts (ideally 3). If none accepts before `valid_till`
    /// (Unix epoch in ms) the company can claim a refund.
    InviteOnly { invited_accounts: StrSet, valid_till: u64 },
    /// Anyone can take the task up; the company selects the winner.
    ForEveryone,
}

/// Where a task stands.
#[derive(Debug, Clone, Copy, PartialEq, Eq, Structural)]
pub enum TaskState {
    /// an invite-only task that no one has accepted yet
    Open,
    /// accepted but not completed, or a bounty not completed yet
    Pending,
    /// completed (a bounty: at least one submission)
    Completed,
    /// an invite-only task that no one accepted in time
    Expired,
    /// not completed by the deadline
    Overdue,
    /// the reward has been paid
    Payed,
}

/// What a company says of a task.
pub struct TaskDetails {
    pub title: String,
    /// short description of the task
    pub description: String,
    /// skills the task requires, comma separated
    pub required_skills: Skills,
    pub task_type: TaskType,
    /// URL to an off-chain JSON file with more info
    pub reference: String,
    /// sha256 hash of the file that `reference` points to
    pub reference_hash: Vec<u8>,
}

/// A user's submission for a task.
pub struct Submission {
    /// link to the submitted documents on decentralised storage
    pub submission_reference: String,
    pub submission_reference_hash: Vec<u8>,
}

/// A task and its state.
pub struct Task {
    pub task_details: TaskDetails,
    /// account ID of the company giving the task
    pub company_id: String,
    /// if the task is not completed by this time (Unix epoch in ms) the company can claim a refund
    pub deadline: u64,
    /// the person who accepted the invite of an invite-only task
    pub person_assigned: Option<String>,
    pub task_state: TaskState,
    /// account ID of the token the reward is paid in
    pub ft_contract_id: String,
    /// reward in the smallest unit of the token (yoctoNEAR for NEAR)
    pub reward: u128,
    /// each user's submission
    pub submissions_by_account_id: StrMap<Submission>,
}

impl TaskDetails {
    /// The details are valid: the reference hash is 32 bytes long.
    pub open spec fn valid(&self) -> bool {
        self.reference_hash@.len() == 32
    }

    /// Fails unless the details are valid.
    pub fn assert_valid_task_details(&self) -> (r: Result<(), ContractError>)
        ensures
            r == (if self.valid() { Ok(()) } else { Err::<(), ContractError>(ContractError::InvalidHashLength) }),
    {
        if self.reference_hash.len() == 32 {
            Ok(())
        } else {
            Err(ContractError::InvalidHashLength)
        }
    }
}

/// The state a task starts in: open for an invite-only task, pending for one open to everyone.
pub open spec fn initial_state(task_type: TaskType) -> TaskState {
    match task_type {
        TaskType::ForEveryone => TaskState::Pending,
        TaskType::InviteOnly { .. } => TaskState::Open,
    }
}

impl Task {
    /// The invitation of an invite-only task has run out at `now`.
    pub open spec fn past_validity(&self, now: u64) -> bool {
        match self.task_details.task_type {
            TaskType::InviteOnly { valid_till, .. } => now >= valid_till,
            TaskType::ForEveryone => false,
        }
    }

    /// The deadline has been reached at `now`.
    pub open spec fn past_deadline(&self, now: u64) -> bool {
        now >= self.deadline
    }

    /// The state that pinging the task at `now` moves it to, or why the ping fails.
    /// Paying the winner of a completed task and refunding the company of an
    /// expired or overdue one are not implemented: those pings fail.
    pub open spec fn ping_outcome(&self, now: u64) -> Result<TaskState, ContractError> {
        match self.task_state {
            TaskState::Open => Ok(if self.past_validity(now) { TaskState::Expired } else { TaskState::Open }),
            TaskState::Pending => Ok(if self.past_deadline(now) { TaskState::Overdue } else { TaskState::Pending }),
            TaskState::Completed => if self.past_deadline(now) {
                Err(ContractError::NotImplemented)
            } else {
                Ok(TaskState::Completed)
            },
            TaskState::Expired | TaskState::Overdue => Err(ContractError::NotImplemented),
            TaskState::Payed => Ok(TaskState::Payed),
        }
    }

    /// A new task with the given details; fails unless the details are valid.
    pub fn new(
        task_details: TaskDetails,
        company_id: String,
        deadline: u64,
        ft_contract_id: String,
        reward: u128,
    ) -> (r: Result<Task, ContractError>)
        ensures
            match r {
                Ok(t) => {
                    &&& task_details.valid()
                    &&& t.task_details == task_details
                    &&& t.company_id == company_id
                    &&& t.deadline == deadline
                    &&& t.person_assigned is None
                    &&& t.task_state == initial_state(task_details.task_type)
                    &&& t.ft_contract_id == ft_contract_id
                    &&& t.reward == reward
                    &&& t.submissions_by_account_id.wf()
                    &&& t.submissions_by_account_id@ == Map::<Seq<char>, Submission>::empty()
                },
                Err(e) => !task_details.valid() && e == ContractError::InvalidHashLength,
            },
    {
        task_details.assert_valid_task_details()?;
        let task_state = match task_details.task_type {
            TaskType::ForEveryone => TaskState::Pending,
            TaskType::InviteOnly { .. } => TaskState::Open,
        };
        Ok(Task {
            task_details,
            company_id,
            deadline,
            person_assigned: None,
            task_state,
            ft_contract_id,
            reward,
            submissions_by_account_id: StrMap::new(),
        })
    }

    /// Whether the invitation of an invite-only task has run out at `now`; false for a task
    /// open to everyone.
    pub fn is_past_validity_at(&self, now: u64) -> (r: bool)
        ensures
            r == self.past_validity(now),
    {
        match &self.task_details.task_type {
            TaskType::InviteOnly { valid_till, .. } => now >= *valid_till,
            TaskType::ForEveryone => false,
        }
    }

    /// Whether the invitation of an invite-only task has run out; false for a task open
    /// to everyone.
    pub fn is_past_validity(&self) -> (r: bool)
        ensures
            exists|now: u64| r == self.past_validity(now),
    {
        let now = runtime::block_timestamp_ms();
        self.is_past_validity_at(now)
    }

    /// Whether the deadline has been reached at `now`.
    pub fn is_past_deadline_at(&self, now: u64) -> (r: bool)
        ensures
            r == self.past_deadline(now),
    {
        now >= self.deadline
    }

    /// Whether the deadline has been reached.
    pub fn is_past_deadline(&self) -> (r: bool)
        ensures
            exists|now: u64| r == self.past_deadline(now),
    {
        let now = runtime::block_timestamp_ms();
        self.is_past_deadline_at(now)
    }

    /// A task just posted: it has the given details, company, deadline, token and reward,
    /// starts in its initial state, with no one assigned and no submission.
    pub open spec fn is_fresh(&self, details: TaskDetails, company_id: Seq<char>, deadline: u64, ft_contract_id: Seq<char>, reward: u128) -> bool {
        &&& self.task_details == details
        &&& self.company_id@ == company_id
        &&& self.deadline == deadline
        &&& self.person_assigned is None
        &&& self.task_state == initial_state(details.task_type)
        &&& self.ft_contract_id@ == ft_contract_id
        &&& self.reward == reward
        &&& self.submissions_by_account_id.wf()
        &&& self.submissions_by_account_id@ == Map::<Seq<char>, Submission>::empty()
    }

    /// The state that pinging the task at `now` moves it to, or why the ping fails.
    pub fn ping_outcome_at(&self, now: u64) -> (r: Result<TaskState, ContractError>)
        ensures
            r == self.ping_outcome(now),
    {
        match self.task_state {
            TaskState::Open => {
                if self.is_past_validity_at(now) {
                    Ok(TaskState::Expired)
                } else {
                    Ok(TaskState::Open)
                }
            },
            TaskState::Pending => {
                if self.is_past_deadline_at(now) {
                    Ok(TaskState::Overdue)
                } else {
                    Ok(TaskState::Pending)
                }
            },
            TaskState::Completed => {
                if self.is_past_deadline_at(now) {
                    Err(ContractError::NotImplemented)
                } else {
                    Ok(TaskState::Completed)
                }
            },
            TaskState::Expired | TaskState::Overdue => Err(ContractError::NotImplemented),
            TaskState::Payed => Ok(TaskState::Payed),
        }
    }
}

/// The deadline that extending `deadline` to `new_deadline` gives a task in `state`: only
/// an open or pending task is extended, and never to an earlier time.
pub open spec fn extended_deadline(state: TaskState, deadline: u64, new_deadline: u64) -> u64 {
    if (state == TaskState::Open || state == TaskState::Pending) && deadline < new_deadline {
        new_deadline
    } else {
        deadline
    }
}

impl Contract {
    /// What posting the task `task_id` by `caller` does: `r` is its result, taking `old` to `new`.
    pub open spec fn add_task_effect(
        old: Contract,
        new: Contract,
        caller: Seq<char>,
        task_id: Seq<char>,
        task_details: TaskDetails,
        deadline: u64,
        reward: u128,
        r: Result<(), ContractError>,
    ) -> bool {
        if !old.whitelisted_companies@.contains_key(caller) {
            r == Err::<(), ContractError>(ContractError::InvalidCompany) && new == old
        } else if !task_details.valid() {
            r == Err::<(), ContractError>(ContractError::InvalidHashLength) && new == old
        } else if tasks_of(old.tasks_by_company@, caller).contains(task_id) {
            &&& match r {
                Err(ContractError::CompanyTaskExists { company_id, task_id: t }) => company_id@ == caller && t@ == task_id,
                _ => false,
            }
            &&& new == old
        } else if old.task_metadata_by_id@.contains_key(task_id) {
            r == Err::<(), ContractError>(ContractError::TaskIdTaken) && new == old
        } else {
            &&& r is Ok
            &&& new.tasks_by_company@.dom() == old.tasks_by_company@.dom().insert(caller)
            &&& tasks_of(new.tasks_by_company@, caller) == tasks_of(old.tasks_by_company@, caller).insert(task_id)
            &&& forall|k: Seq<char>| k != caller && #[trigger] old.tasks_by_company@.contains_key(k)
                ==> new.tasks_by_company@[k] == old.tasks_by_company@[k]
            &&& new.task_metadata_by_id@ == old.task_metadata_by_id@.insert(task_id, new.task_metadata_by_id@[task_id])
            &&& new.task_metadata_by_id@[task_id].is_fresh(task_details, caller, deadline, "near"@, reward)
            &&& new == (Contract {
                tasks_by_company: new.tasks_by_company,
                task_metadata_by_id: new.task_metadata_by_id,
                ..old
            })
        }
    }

    /// Posts the task `task_id`, paid in NEAR, for the whitelisted company `caller`.
    /// Fails if the company is not whitelisted, the details are not valid, the company
    /// already has a task with this ID, or another company's task has this ID.
    pub fn add_task_in_near_token_as(
        &mut self,
        caller: &String,
        task_id: &TaskId,
        task_details: TaskDetails,
        deadline: u64,
        reward: u128,
    ) -> (r: Result<(), ContractError>)
        requires
            old(self).wf(),
        ensures
            final(self).wf(),
            Self::add_task_effect(*old(self), *final(self), caller@, task_id@, task_details, deadline, reward, r),
    {
        self.assert_whitelisted_company(caller)?;
        let near_contract_id = "near".to_owned();
        let task = Task::new(task_details, caller.clone(), deadline, near_contract_id, reward)?;
        if self.task_metadata_by_id.contains_key(task_id) {
            let own = match self.tasks_by_company.get(caller) {
                Some(set) => set.contains(task_id),
                None => false,
            };
            if own {
                return Err(ContractError::CompanyTaskExists { company_id: caller.clone(), task_id: task_id.clone() });
            }
            return Err(ContractError::TaskIdTaken);
        }
        self.internal_add_tasks_to_company(caller, task_id)?;
        self.task_metadata_by_id.insert(task_id.clone(), task);
        proof {
            let t = self.task_metadata_by_id@[task_id@];
            assert(self.task_metadata_by_id@ =~= old(self).task_metadata_by_id@.insert(task_id@, t));
        }
        Ok(())
    }

    /// Posts the task `task_id`, paid in NEAR, for the calling company.
    pub fn add_task_in_near_token(&mut self, task_id: &TaskId, task_details: TaskDetails, deadline: u64, reward: u128) -> (r: Result<(), ContractError>)
        requires
            old(self).wf(),
        ensures
            final(self).wf(),
            exists|caller: Seq<char>| Self::add_task_effect(*old(self), *final(self), caller, task_id@, task_details, deadline, reward, r),
    {
        let caller = runtime::predecessor_account_id();
        self.add_task_in_near_token_as(&caller, task_id, task_details, deadline, reward)
    }

    /// What extending the deadline of `task_id` to `new_deadline` at `now` does: `r` is its
    /// result, taking `old` to `new`. The task is pinged first.
    pub open spec fn extend_deadline_effect(
        old: Contract,
        new: Contract,
        task_id: Seq<char>,
        new_deadline: u64,
        now: u64,
        r: Result<(), ContractError>,
    ) -> bool {
        if !old.task_metadata_by_id@.contains_key(task_id) {
            r == Err::<(), ContractError>(ContractError::InvalidTaskId) && new == old
        } else {
            let task = old.task_metadata_by_id@[task_id];
            match task.ping_outcome(now) {
                Ok(state) => {
                    &&& r is Ok
                    &&& new.task_metadata_by_id@ == old.task_metadata_by_id@.insert(
                        task_id,
                        Task { task_state: state, deadline: extended_deadline(state, task.deadline, new_deadline), ..task },
                    )
                    &&& new == (Contract { task_metadata_by_id: new.task_metadata_by_id, ..old })
                },
                Err(e) => r == Err::<(), ContractError>(e) && new == old,
            }
        }
    }

    /// Pings the task `task_id` at `now`, then moves the deadline of an open or pending task
    /// to `new_deadline` if that is later.
    pub fn extend_deadline_at(&mut self, task_id: &TaskId, new_deadline: u64, now: u64) -> (r: Result<(), ContractError>)
        requires
            old(self).wf(),
        ensures
            final(self).wf(),
            Self::extend_deadline_effect(*old(self), *final(self), task_id@, new_deadline, now, r),
    {
        self.ping_task_at(task_id, now)?;
        let ghost pinged = self.task_metadata_by_id@;
        let mut task = match self.task_metadata_by_id.remove(task_id) {
            Some(t) => t,
            None => {
                return Err(ContractError::InvalidTaskId);
            },
        };
        match task.task_state {
            TaskState::Open | TaskState::Pending => {
                if task.deadline < new_deadline {
                    task.deadline = new_deadline;
                }
            },
            _ => {},
        }
        self.task_metadata_by_id.insert(task_id.clone(), task);
        proof {
            let t = old(self).task_metadata_by_id@[task_id@];
            let state = t.ping_outcome(now)->Ok_0;
            assert(self.task_metadata_by_id@ =~= old(self).task_metadata_by_id@.insert(
                task_id@,
                Task { task_state: state, deadline: extended_deadline(state, t.deadline, new_deadline), ..t },
            ));
        }
        Ok(())
    }

    /// Pings the task `task_id`, then moves the deadline of an open or pending task to
    /// `new_deadline` if that is later.
    pub fn extend_deadline(&mut self, task_id: &TaskId, new_deadline: u64) -> (r: Result<(), ContractError>)
        requires
            old(self).wf(),
        ensures
            final(self).wf(),
            exists|now: u64| Self::extend_deadline_effect(*old(self), *final(self), task_id@, new_deadline, now, r),
    {
        let now = runtime::block_timestamp_ms();
        self.extend_deadline_at(task_id, new_deadline, now)
    }

    /// Taking submissions is not implemented: the call does nothing.
    pub fn submit_task(task_id: TaskId, submission: Submission) {
    }
}

/// What the company gets back of `attached` once `storage_used` bytes and the `reward` it
/// puts up are paid for. Fails unless something is left over.
pub fn task_deposit_refund(attached: u128, storage_used: u64, reward: u128, company_id: String) -> (r: Result<PromiseAction, ContractError>)
    ensures
        match r {
            Ok(a) => {
                &&& attached > storage_cost(storage_used) + reward
                &&& a == (PromiseAction::Transfer {
                    receiver_id: company_id,
                    amount: (attached - storage_cost(storage_used) - reward) as u128,
                })
            },
            Err(e) => attached <= storage_cost(storage_used) + reward && e == ContractError::DepositNotEnough,
        },
{
    let left = crate::utils::storage_refund(attached, storage_used);
    match left {
        Ok(x) => {
            if x > reward {
                Ok(PromiseAction::Transfer { receiver_id: company_id, amount: x - reward })
            } else {
                Err(ContractError::DepositNotEnough)
            }
        },
        Err(e) => Err(e),
    }
}

} // verus!
