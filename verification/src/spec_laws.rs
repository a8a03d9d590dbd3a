//! What the account checks, the task checks and the task life cycle accept, stated over
//! the inputs themselves.
use vstd::prelude::*;

use crate::company::company_account_outcome;
use crate::internal::tasks_of;
use crate::task::{extended_deadline, Task, TaskDetails, TaskState, TaskType};
use crate::user::user_account_outcome;
use crate::utils::{first_index, lemma_index_from, PromiseAction, ContractError, DOT};
use crate::Contract;

verus! {

/// Every byte of `s` is an ASCII letter, an ASCII digit or `_`.
pub open spec fn ascii_name(s: Seq<u8>) -> bool {
    forall|i: int| 0 <= i < s.len() ==> {
        let b = #[trigger] s[i];
        (65 <= b && b <= 90) || (97 <= b && b <= 122) || (48 <= b && b <= 57) || b == 95
    }
}

/// The first `.` of `prefix + seq![.] + rest` is the one after `prefix`, when `prefix`
/// holds no `.`.
proof fn lemma_first_dot(prefix: Seq<u8>, rest: Seq<u8>)
    requires
        forall|i: int| 0 <= i < prefix.len() ==> prefix[i] != DOT,
    ensures
        first_index(prefix + seq![DOT] + rest, DOT) == prefix.len(),
{
    let a = prefix + seq![DOT] + rest;
    lemma_index_from(a, DOT, 0);
    assert(a[prefix.len() as int] == DOT);
    let r = first_index(a, DOT);
    if r < prefix.len() && r >= 0 {
        assert(a[r] == prefix[r]);
    }
}

/// Every company name of ASCII letters, digits and `_` is accepted: `name-Co.contract`
/// passes the company account check of `contract`, whatever the contract's account.
pub proof fn lemma_company_account_complete(name: Seq<u8>, contract: Seq<u8>)
    requires
        ascii_name(name),
    ensures
        company_account_outcome(name + seq![45u8, 67u8, 111u8, 46u8] + contract, contract) == Ok::<(), ContractError>(()),
{
    let prefix = name + seq![45u8, 67u8, 111u8];
    let account = name + seq![45u8, 67u8, 111u8, 46u8] + contract;
    assert(account =~= prefix + seq![DOT] + contract);
    assert forall|i: int| 0 <= i < prefix.len() implies prefix[i] != DOT by {
        if i < name.len() {
            assert(prefix[i] == name[i]);
            assert(ascii_name(name));
            let b = name[i];
            assert((65 <= b && b <= 90) || (97 <= b && b <= 122) || (48 <= b && b <= 57) || b == 95);
        }
    }
    lemma_first_dot(prefix, contract);
    let dot = first_index(account, DOT);
    assert(dot == prefix.len());
    assert(account.take(dot) =~= prefix);
    assert(prefix.take(prefix.len() - 3) =~= name);
    assert(account.skip(dot + 1) =~= contract);
    assert forall|i: int| 0 <= i < name.len() implies crate::utils::is_name_byte(#[trigger] name[i]) by {
        let b = name[i];
        assert((65 <= b && b <= 90) || (97 <= b && b <= 122) || (48 <= b && b <= 57) || b == 95);
    }
}

/// Only such accounts are accepted: an account that passes the company account check of
/// `contract` is a company name of ASCII letters, digits and `_`, then `-Co.`, then `contract`.
pub proof fn lemma_company_account_sound(account: Seq<u8>, contract: Seq<u8>)
    requires
        company_account_outcome(account, contract) is Ok,
    ensures
        exists|name: Seq<u8>| ascii_name(name) && account == name + seq![45u8, 67u8, 111u8, 46u8] + contract,
{
    let dot = first_index(account, DOT);
    lemma_index_from(account, DOT, 0);
    let name = account.take(dot - 3);
    assert(account =~= name + seq![45u8, 67u8, 111u8, 46u8] + contract) by {
        assert(account.take(dot)[dot - 3] == account[dot - 3]);
        assert(account.take(dot)[dot - 2] == account[dot - 2]);
        assert(account.take(dot)[dot - 1] == account[dot - 1]);
        assert(account.skip(dot + 1) == contract);
        assert forall|i: int| 0 <= i < account.len() implies account[i] == (name + seq![45u8, 67u8, 111u8, 46u8] + contract)[i] by {
            if i >= dot + 1 {
                assert(account.skip(dot + 1)[i - dot - 1] == account[i]);
            }
        }
    }
    assert forall|i: int| 0 <= i < name.len() implies {
        let b = #[trigger] name[i];
        (65 <= b && b <= 90) || (97 <= b && b <= 122) || (48 <= b && b <= 57) || b == 95
    } by {
        assert(account.take(dot).take(account.take(dot).len() - 3)[i] == name[i]);
        assert(crate::utils::is_name_byte(account.take(dot).take(account.take(dot).len() - 3)[i]));
    }
    assert(ascii_name(name));
    assert(ascii_name(name) && account == name + seq![45u8, 67u8, 111u8, 46u8] + contract);
}

/// Every username of ASCII letters, digits and `_` is accepted: `username.contract` passes
/// the user account check of `contract`.
pub proof fn lemma_user_account_complete(username: Seq<u8>, contract: Seq<u8>)
    requires
        ascii_name(username),
    ensures
        user_account_outcome(username + seq![46u8] + contract, contract) == Ok::<(), ContractError>(()),
{
    let account = username + seq![46u8] + contract;
    assert forall|i: int| 0 <= i < username.len() implies username[i] != DOT by {
        let b = username[i];
        assert((65 <= b && b <= 90) || (97 <= b && b <= 122) || (48 <= b && b <= 57) || b == 95);
    }
    lemma_first_dot(username, contract);
    let dot = first_index(account, DOT);
    assert(account.take(dot) =~= username);
    assert(account.skip(dot + 1) =~= contract);
    assert forall|i: int| 0 <= i < username.len() implies crate::utils::is_name_byte(#[trigger] username[i]) by {
        let b = username[i];
        assert((65 <= b && b <= 90) || (97 <= b && b <= 122) || (48 <= b && b <= 57) || b == 95);
    }
}

/// Only such accounts are accepted: an account that passes the user account check of
/// `contract` is a username of ASCII letters, digits and `_`, then `.`, then `contract`.
pub proof fn lemma_user_account_sound(account: Seq<u8>, contract: Seq<u8>)
    requires
        user_account_outcome(account, contract) is Ok,
    ensures
        exists|username: Seq<u8>| ascii_name(username) && account == username + seq![46u8] + contract,
{
    let dot = first_index(account, DOT);
    lemma_index_from(account, DOT, 0);
    let username = account.take(dot);
    assert(account =~= username + seq![46u8] + contract) by {
        assert(account.skip(dot + 1) == contract);
        assert forall|i: int| 0 <= i < account.len() implies account[i] == (username + seq![46u8] + contract)[i] by {
            if i >= dot + 1 {
                assert(account.skip(dot + 1)[i - dot - 1] == account[i]);
            }
        }
    }
    assert forall|i: int| 0 <= i < username.len() implies {
        let b = #[trigger] username[i];
        (65 <= b && b <= 90) || (97 <= b && b <= 122) || (48 <= b && b <= 57) || b == 95
    } by {
        assert(crate::utils::is_name_byte(username[i]));
    }
    assert(ascii_name(username));
    assert(ascii_name(username) && account == username + seq![46u8] + contract);
}

/// Task details are valid exactly when their reference hash is 32 bytes long, whatever the
/// title, description, required skills, reference or task type.
pub proof fn lemma_task_details_valid_by_hash(details: TaskDetails)
    ensures
        details.valid() <==> details.reference_hash@.len() == 32,
{
}

/// A whitelisted company posting a task under a new ID with a 32-byte reference hash
/// succeeds, whatever else the details say; the task is stored, belongs to the company,
/// and starts pending (open to everyone) or open (invite only).
pub proof fn lemma_add_task_succeeds(
    c0: Contract,
    c1: Contract,
    caller: Seq<char>,
    task_id: Seq<char>,
    details: TaskDetails,
    deadline: u64,
    reward: u128,
    r: Result<(), ContractError>,
)
    requires
        Contract::add_task_effect(c0, c1, caller, task_id, details, deadline, reward, r),
        c0.whitelisted_companies@.contains_key(caller),
        details.reference_hash@.len() == 32,
        !tasks_of(c0.tasks_by_company@, caller).contains(task_id),
        !c0.task_metadata_by_id@.contains_key(task_id),
    ensures
        r is Ok,
        c1.task_metadata_by_id@.contains_key(task_id),
        c1.task_metadata_by_id@[task_id].company_id@ == caller,
        c1.task_metadata_by_id@[task_id].deadline == deadline,
        c1.task_metadata_by_id@[task_id].reward == reward,
        c1.task_metadata_by_id@[task_id].task_state == (match details.task_type {
            TaskType::ForEveryone => TaskState::Pending,
            TaskType::InviteOnly { .. } => TaskState::Open,
        }),
{
}

/// An invitation is open until its time: for an invite-only task, the invitation has run
/// out at `now` exactly when `now` has reached `valid_till`. A task open to everyone has
/// no invitation to run out.
pub proof fn lemma_validity_is_valid_till(task: Task, now: u64)
    ensures
        match task.task_details.task_type {
            TaskType::InviteOnly { valid_till, .. } => task.past_validity(now) <==> now as int >= valid_till as int,
            TaskType::ForEveryone => !task.past_validity(now),
        },
        task.past_deadline(now) <==> now as int >= task.deadline as int,
{
}

/// What a ping does to each state, in terms of the task's own times: an open task expires
/// once its invitation's `valid_till` is reached; a pending task becomes overdue only at its
/// deadline; a completed task stays completed before its deadline; a payed task stays payed.
pub proof fn lemma_ping_by_state(task: Task, now: u64)
    ensures
        task.task_state == TaskState::Open ==> task.ping_outcome(now) == Ok::<TaskState, ContractError>(
            match task.task_details.task_type {
                TaskType::InviteOnly { valid_till, .. } => if now >= valid_till { TaskState::Expired } else { TaskState::Open },
                TaskType::ForEveryone => TaskState::Open,
            },
        ),
        task.task_state == TaskState::Pending ==> task.ping_outcome(now) == Ok::<TaskState, ContractError>(
            if now >= task.deadline { TaskState::Overdue } else { TaskState::Pending },
        ),
        task.task_state == TaskState::Completed && now < task.deadline ==> task.ping_outcome(now)
            == Ok::<TaskState, ContractError>(TaskState::Completed),
        task.task_state == TaskState::Payed ==> task.ping_outcome(now) == Ok::<TaskState, ContractError>(TaskState::Payed),
{
}

/// An invited caller accepting an open invite-only task before its `valid_till` is assigned
/// to it, and the task becomes pending.
pub proof fn lemma_accept_before_valid_till(c0: Contract, c1: Contract, task_id: Seq<char>, caller: String, now: u64, r: Result<(), ContractError>)
    requires
        Contract::accept_invite_effect(c0, c1, task_id, caller, now, r),
        c0.task_metadata_by_id@.contains_key(task_id),
        c0.task_metadata_by_id@[task_id].task_state == TaskState::Open,
        match c0.task_metadata_by_id@[task_id].task_details.task_type {
            TaskType::InviteOnly { invited_accounts, valid_till } => now < valid_till && invited_accounts@.contains(caller@),
            TaskType::ForEveryone => false,
        },
    ensures
        r is Ok,
        c1.task_metadata_by_id@[task_id].person_assigned == Some(caller),
        c1.task_metadata_by_id@[task_id].task_state == TaskState::Pending,
{
}

/// A pinged pending task stays pending until its deadline, whatever its invitation said.
pub proof fn lemma_pending_ping_before_deadline(c0: Contract, c1: Contract, task_id: Seq<char>, now: u64, r: Result<(), ContractError>)
    requires
        Contract::ping_effect(c0, c1, task_id, now, r),
        c0.task_metadata_by_id@.contains_key(task_id),
        c0.task_metadata_by_id@[task_id].task_state == TaskState::Pending,
        now < c0.task_metadata_by_id@[task_id].deadline,
    ensures
        r is Ok,
        c1.task_metadata_by_id@[task_id].task_state == TaskState::Pending,
{
}

/// Minting for a new account `username.contract`, where the username is ASCII letters,
/// digits and `_`, succeeds and asks for that account's creation.
pub proof fn lemma_mint_succeeds(
    c0: Contract,
    c1: Contract,
    receiver_id: String,
    username: Seq<u8>,
    title: Seq<char>,
    description: Option<Seq<char>>,
    key: Vec<u8>,
    contract: Seq<u8>,
    now: u64,
    r: Result<PromiseAction, ContractError>,
)
    requires
        Contract::mint_effect(c0, c1, receiver_id, title, description, key, contract, now, r),
        ascii_name(username),
        vstd::utf8::encode_utf8(receiver_id@) == username + seq![46u8] + contract,
        !c0.tokens_by_account_id@.contains_key(receiver_id@),
    ensures
        r is Ok,
        c1.tokens_by_account_id@.contains_key(receiver_id@),
{
    lemma_user_account_complete(username, contract);
}

/// Extending the deadline of an open or pending task to a later time moves it there; an
/// earlier time, or a task in any other state, keeps its deadline.
pub proof fn lemma_extend_moves_to_later_deadline(state: TaskState, deadline: u64, new_deadline: u64)
    ensures
        (state == TaskState::Open || state == TaskState::Pending) && deadline < new_deadline
            ==> extended_deadline(state, deadline, new_deadline) == new_deadline,
        !((state == TaskState::Open || state == TaskState::Pending) && deadline < new_deadline)
            ==> extended_deadline(state, deadline, new_deadline) == deadline,
{
}

} // verus!
