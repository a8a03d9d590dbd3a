//! Properties that hold across the contract's operations.
use vstd::prelude::*;

use crate::company::{company_account_outcome, ends_with_co};
use crate::task::{extended_deadline, Task, TaskDetails, TaskState, TaskType};
use crate::user::user_account_outcome;
use crate::utils::{first_index, ContractError, PromiseAction, DOT};
use crate::internal::tasks_of;
use crate::metadata::NFTContractMetadata;
use crate::{approve_effect, whitelist_effect, CompanyEntry, Contract};

verus! {

/// Company accounts and user accounts never mix: an account ID that passes as a company
/// account of a contract (`name-Co.contract`) is refused as a user account of it.
pub proof fn lemma_company_account_is_not_user_account(account: Seq<u8>, contract: Seq<u8>)
    requires
        company_account_outcome(account, contract) is Ok,
    ensures
        user_account_outcome(account, contract) == Err::<(), ContractError>(ContractError::InvalidUsername),
{
    let dot = first_index(account, DOT);
    let name = account.take(dot);
    assert(ends_with_co(name));
    assert(name[name.len() - 3] == 45u8);
}

/// Pinging a task only moves it forward in its life cycle: an open task may expire, a
/// pending one may become overdue, and no other state changes.
pub proof fn lemma_ping_moves_forward(task: Task, now: u64)
    requires
        task.ping_outcome(now) is Ok,
    ensures
        ({
            let s = task.ping_outcome(now)->Ok_0;
            ||| s == task.task_state
            ||| task.task_state == TaskState::Open && s == TaskState::Expired
            ||| task.task_state == TaskState::Pending && s == TaskState::Overdue
        }),
{
}

/// Time only makes things later: a task that a ping expires or finds overdue at `now` is
/// expired or found overdue by a ping at any later time too.
pub proof fn lemma_ping_monotone_in_time(task: Task, now: u64, later: u64)
    requires
        now <= later,
        task.ping_outcome(now) == Ok::<TaskState, ContractError>(TaskState::Expired)
            || task.ping_outcome(now) == Ok::<TaskState, ContractError>(TaskState::Overdue),
    ensures
        task.ping_outcome(later) == task.ping_outcome(now),
{
}

/// Extending a deadline never brings it forward, and only an open or pending task's
/// deadline moves.
pub proof fn lemma_deadline_never_shrinks(state: TaskState, deadline: u64, new_deadline: u64)
    ensures
        extended_deadline(state, deadline, new_deadline) >= deadline,
        extended_deadline(state, deadline, new_deadline) != deadline
            ==> (state == TaskState::Open || state == TaskState::Pending),
{
}

/// An account gets at most one NFT: once minting for `receiver_id` has succeeded, minting
/// again for the same account fails, whatever the title, key or time.
pub proof fn lemma_mint_once_per_account(
    c0: Contract,
    c1: Contract,
    c2: Contract,
    receiver_id: String,
    again: String,
    title1: Seq<char>,
    description1: Option<Seq<char>>,
    key1: Vec<u8>,
    title2: Seq<char>,
    description2: Option<Seq<char>>,
    key2: Vec<u8>,
    contract: Seq<u8>,
    now1: u64,
    now2: u64,
    r1: Result<PromiseAction, ContractError>,
    r2: Result<PromiseAction, ContractError>,
)
    requires
        Contract::mint_effect(c0, c1, receiver_id, title1, description1, key1, contract, now1, r1),
        r1 is Ok,
        again@ == receiver_id@,
        Contract::mint_effect(c1, c2, again, title2, description2, key2, contract, now2, r2),
    ensures
        r2 == Err::<PromiseAction, ContractError>(ContractError::AccountExists),
        c2 == c1,
{
}

/// A company posts a task ID at most once: once posting `task_id` has succeeded, posting
/// it again fails, whatever the details.
pub proof fn lemma_task_posted_once(
    c0: Contract,
    c1: Contract,
    c2: Contract,
    caller: Seq<char>,
    task_id: Seq<char>,
    details1: TaskDetails,
    details2: TaskDetails,
    deadline1: u64,
    deadline2: u64,
    reward1: u128,
    reward2: u128,
    r1: Result<(), ContractError>,
    r2: Result<(), ContractError>,
)
    requires
        Contract::add_task_effect(c0, c1, caller, task_id, details1, deadline1, reward1, r1),
        r1 is Ok,
        Contract::add_task_effect(c1, c2, caller, task_id, details2, deadline2, reward2, r2),
    ensures
        r2 is Err,
        c2 == c1,
{
    assert(c1.whitelisted_companies == c0.whitelisted_companies);
}

/// Only an invited account is ever assigned to a task: when accepting an invite assigns
/// anyone, the task was an open invite-only task and the caller was invited.
pub proof fn lemma_only_invited_are_assigned(c0: Contract, c1: Contract, task_id: Seq<char>, caller: String, now: u64, r: Result<(), ContractError>)
    requires
        Contract::accept_invite_effect(c0, c1, task_id, caller, now, r),
        c1.task_metadata_by_id@.contains_key(task_id),
        c1.task_metadata_by_id@[task_id].person_assigned != c0.task_metadata_by_id@[task_id].person_assigned,
    ensures
        r is Ok,
        c0.task_metadata_by_id@[task_id].task_state == TaskState::Open,
        c1.task_metadata_by_id@[task_id].person_assigned == Some(caller),
        match c0.task_metadata_by_id@[task_id].task_details.task_type {
            TaskType::InviteOnly { invited_accounts, .. } => invited_accounts@.contains(caller@),
            TaskType::ForEveryone => false,
        },
{
}

/// The two records of who gives which task agree: every task ID in a company's task set
/// is a stored task of that company, and every stored task is in its company's set.
pub open spec fn tasks_agree(c: Contract) -> bool {
    &&& forall|company: Seq<char>, t: Seq<char>|
        c.tasks_by_company@.contains_key(company) && #[trigger] c.tasks_by_company@[company]@.contains(t)
            ==> c.task_metadata_by_id@.contains_key(t) && c.task_metadata_by_id@[t].company_id@ == company
    &&& forall|t: Seq<char>| #[trigger] c.task_metadata_by_id@.contains_key(t)
        ==> tasks_of(c.tasks_by_company@, c.task_metadata_by_id@[t].company_id@).contains(t)
}

/// A new contract has no task, so its records agree.
pub proof fn lemma_new_contract_tasks_agree(c: Contract, owner_id: String, metadata: NFTContractMetadata, account: Seq<char>)
    requires
        c.is_initial_state(owner_id, metadata, account),
    ensures
        tasks_agree(c),
{
}

/// A change that keeps the task sets, the stored task IDs and each task's company keeps
/// the records in agreement.
pub proof fn lemma_tasks_agree_frame(c0: Contract, c1: Contract)
    requires
        tasks_agree(c0),
        c1.tasks_by_company@ == c0.tasks_by_company@,
        c1.task_metadata_by_id@.dom() == c0.task_metadata_by_id@.dom(),
        forall|t: Seq<char>| #[trigger] c0.task_metadata_by_id@.contains_key(t)
            ==> c1.task_metadata_by_id@[t].company_id == c0.task_metadata_by_id@[t].company_id,
    ensures
        tasks_agree(c1),
{
}

/// Posting a task keeps the records in agreement: a task ID is never taken over from
/// another company.
pub proof fn lemma_add_task_keeps_tasks_agree(
    c0: Contract,
    c1: Contract,
    caller: Seq<char>,
    task_id: Seq<char>,
    details: TaskDetails,
    deadline: u64,
    reward: u128,
    r: Result<(), ContractError>,
)
    requires
        tasks_agree(c0),
        Contract::add_task_effect(c0, c1, caller, task_id, details, deadline, reward, r),
    ensures
        tasks_agree(c1),
{
    if r is Ok {
        assert forall|company: Seq<char>, t: Seq<char>|
            c1.tasks_by_company@.contains_key(company) && #[trigger] c1.tasks_by_company@[company]@.contains(t)
                implies c1.task_metadata_by_id@.contains_key(t) && c1.task_metadata_by_id@[t].company_id@ == company by {
            if company == caller {
                assert(tasks_of(c1.tasks_by_company@, caller).contains(t));
                if t != task_id {
                    assert(tasks_of(c0.tasks_by_company@, caller).contains(t));
                }
            } else {
                assert(c0.tasks_by_company@.contains_key(company));
                assert(c0.tasks_by_company@[company]@.contains(t));
                assert(t != task_id);
            }
        }
        assert forall|t: Seq<char>| #[trigger] c1.task_metadata_by_id@.contains_key(t)
            implies tasks_of(c1.tasks_by_company@, c1.task_metadata_by_id@[t].company_id@).contains(t) by {
            if t != task_id {
                assert(c0.task_metadata_by_id@.contains_key(t));
                let company = c0.task_metadata_by_id@[t].company_id@;
                assert(tasks_of(c0.tasks_by_company@, company).contains(t));
                if company != caller {
                    assert(c0.tasks_by_company@.contains_key(company));
                }
            }
        }
    }
}

/// Pinging a task keeps the records in agreement.
pub proof fn lemma_ping_keeps_tasks_agree(c0: Contract, c1: Contract, task_id: Seq<char>, now: u64, r: Result<(), ContractError>)
    requires
        tasks_agree(c0),
        Contract::ping_effect(c0, c1, task_id, now, r),
    ensures
        tasks_agree(c1),
{
    assert(c1.task_metadata_by_id@.dom() =~= c0.task_metadata_by_id@.dom());
    lemma_tasks_agree_frame(c0, c1);
}

/// Extending a deadline keeps the records in agreement.
pub proof fn lemma_extend_deadline_keeps_tasks_agree(
    c0: Contract,
    c1: Contract,
    task_id: Seq<char>,
    new_deadline: u64,
    now: u64,
    r: Result<(), ContractError>,
)
    requires
        tasks_agree(c0),
        Contract::extend_deadline_effect(c0, c1, task_id, new_deadline, now, r),
    ensures
        tasks_agree(c1),
{
    assert(c1.task_metadata_by_id@.dom() =~= c0.task_metadata_by_id@.dom());
    lemma_tasks_agree_frame(c0, c1);
}

/// Accepting an invite keeps the records in agreement.
pub proof fn lemma_accept_invite_keeps_tasks_agree(c0: Contract, c1: Contract, task_id: Seq<char>, caller: String, now: u64, r: Result<(), ContractError>)
    requires
        tasks_agree(c0),
        Contract::accept_invite_effect(c0, c1, task_id, caller, now, r),
    ensures
        tasks_agree(c1),
{
    assert(c1.task_metadata_by_id@.dom() =~= c0.task_metadata_by_id@.dom());
    lemma_tasks_agree_frame(c0, c1);
}

/// Selecting a winner keeps the records in agreement.
pub proof fn lemma_select_task_keeps_tasks_agree(
    c0: Contract,
    c1: Contract,
    task_id: Seq<char>,
    user: String,
    caller: Seq<char>,
    now: u64,
    r: Result<PromiseAction, ContractError>,
)
    requires
        tasks_agree(c0),
        Contract::select_task_effect(c0, c1, task_id, user, caller, now, r),
    ensures
        tasks_agree(c1),
{
    assert(c1.task_metadata_by_id@.dom() =~= c0.task_metadata_by_id@.dom());
    lemma_tasks_agree_frame(c0, c1);
}

/// `new` follows from `old` by one call of one of the contract's entry points.
pub open spec fn entry_point_step(old: Contract, new: Contract) -> bool {
    ||| exists|caller: Seq<char>, ids: Seq<String>, r: Result<(), ContractError>| #[trigger] approve_effect(old, new, caller, ids, r)
    ||| exists|caller: Seq<char>, contract: Seq<u8>, entries: Seq<CompanyEntry>, r: Result<Vec<PromiseAction>, ContractError>|
        #[trigger] whitelist_effect(old, new, caller, contract, entries, r)
    ||| exists|task_id: Seq<char>, now: u64, r: Result<(), ContractError>| #[trigger] Contract::ping_effect(old, new, task_id, now, r)
    ||| exists|caller: Seq<char>, details: crate::company::Company, r: Result<(), ContractError>|
        #[trigger] Contract::edit_company_effect(old, new, caller, details, r)
    ||| exists|task_id: Seq<char>, user: String, caller: Seq<char>, now: u64, r: Result<PromiseAction, ContractError>|
        #[trigger] Contract::select_task_effect(old, new, task_id, user, caller, now, r)
    ||| exists|caller: Seq<char>, task_id: Seq<char>, details: TaskDetails, deadline: u64, reward: u128, r: Result<(), ContractError>|
        #[trigger] Contract::add_task_effect(old, new, caller, task_id, details, deadline, reward, r)
    ||| exists|task_id: Seq<char>, new_deadline: u64, now: u64, r: Result<(), ContractError>|
        #[trigger] Contract::extend_deadline_effect(old, new, task_id, new_deadline, now, r)
    ||| exists|receiver_id: String, title: Seq<char>, description: Option<Seq<char>>, key: Vec<u8>, contract: Seq<u8>, now: u64, r: Result<PromiseAction, ContractError>|
        #[trigger] Contract::mint_effect(old, new, receiver_id, title, description, key, contract, now, r)
    ||| exists|task_id: Seq<char>, caller: String, now: u64, r: Result<(), ContractError>|
        #[trigger] Contract::accept_invite_effect(old, new, task_id, caller, now, r)
}

/// No entry point changes the contract's metadata.
pub proof fn lemma_step_keeps_metadata(old: Contract, new: Contract)
    requires
        entry_point_step(old, new),
    ensures
        new.metadata == old.metadata,
{
}

/// The contract's metadata never changes: whatever entry points are called after the
/// contract is made with `metadata`, it keeps that metadata (which `nft_metadata` returns).
pub proof fn lemma_metadata_never_changes(states: Seq<Contract>, owner_id: String, metadata: NFTContractMetadata, account: Seq<char>)
    requires
        states.len() >= 1,
        states[0].is_initial_state(owner_id, metadata, account),
        forall|i: int| 0 <= i < states.len() - 1 ==> entry_point_step(#[trigger] states[i], states[i + 1]),
    ensures
        forall|i: int| 0 <= i < states.len() ==> #[trigger] states[i].metadata == metadata,
    decreases states.len(),
{
    if states.len() > 1 {
        let prefix = states.drop_last();
        assert forall|i: int| 0 <= i < prefix.len() - 1 implies entry_point_step(#[trigger] prefix[i], prefix[i + 1]) by {
            assert(prefix[i] == states[i] && prefix[i + 1] == states[i + 1]);
            assert(entry_point_step(states[i], states[i + 1]));
        }
        lemma_metadata_never_changes(prefix, owner_id, metadata, account);
        let n = states.len() - 1;
        assert(prefix[n - 1] == states[n - 1]);
        assert(entry_point_step(states[n - 1], states[n]));
        lemma_step_keeps_metadata(states[n - 1], states[n]);
        assert forall|i: int| 0 <= i < states.len() implies #[trigger] states[i].metadata == metadata by {
            if i < n {
                assert(prefix[i] == states[i]);
            }
        }
    }
}

} // verus!
