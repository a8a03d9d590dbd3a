//! Errors, runtime actions, storage accounting and owner checks.
use vstd::prelude::*;
use vstd::string::StringSliceAdditionalSpecFns;

use crate::runtime;
use crate::runtime::{sha256_digest, spec_storage_byte_cost};
use crate::Contract;
use crate::BASE_STORAGE_COST;

verus! {

/// Why a contract call fails. A call that fails changes nothing: the NEAR
/// runtime reverts all of its effects.
#[derive(Debug, PartialEq, Eq)]
pub enum ContractError {
    NotOwner,
    InvalidTaskId,
    InvalidTask,
    InvalidCompany,
    CompanyNameSuffix,
    InvalidCompanyName,
    InvalidUsername,
    InvalidAccountId,
    DepositNotEnough,
    AccountExists,
    CompanyExists,
    CompanyTaskExists { company_id: String, task_id: String },
    AccountTaskExists { user_id: String, task_id: String },
    TaskIdTaken,
    InvalidHashLength,
    NotInvited,
    NoSubmission,
    DeadlineNotReached,
    AlreadyPayed,
    NotImplemented,
}

/// The message of each error.
pub open spec fn error_message(e: ContractError) -> Seq<char> {
    match e {
        ContractError::NotOwner => "Only Contract Owner can call this method"@,
        ContractError::InvalidTaskId => "invalid task_id"@,
        ContractError::InvalidTask => "invalid task"@,
        ContractError::InvalidCompany => "invalid company"@,
        ContractError::CompanyNameSuffix => "Invlalid company name passed"@,
        ContractError::InvalidCompanyName => "Invalid company name passed"@,
        ContractError::InvalidUsername => "Invalid username passed"@,
        ContractError::InvalidAccountId => "Invalid account ID passed"@,
        ContractError::DepositNotEnough => "attached deposit was not enough"@,
        ContractError::AccountExists => "account ID already exists"@,
        ContractError::CompanyExists => "company ID already exists"@,
        ContractError::CompanyTaskExists { company_id, task_id } => company_id@ + " already has task "@ + task_id@,
        ContractError::AccountTaskExists { user_id, task_id } => user_id@ + " already has completed "@ + task_id@,
        ContractError::TaskIdTaken => "task ID already belongs to another company"@,
        ContractError::InvalidHashLength => "hash should be 32 bytes long"@,
        ContractError::NotInvited => "you are not invited for this"@ + " task"@,
        ContractError::NoSubmission => "given user has no submissions for this"@ + " task"@,
        ContractError::DeadlineNotReached => "can't select tasks until deadline has reached"@,
        ContractError::AlreadyPayed => "reward for task has already been payed"@,
        ContractError::NotImplemented => "not implemented"@,
    }
}

impl ContractError {
    /// The message that the contract panics with.
    pub fn message(&self) -> (r: String)
        ensures
            r@ == error_message(*self),
    {
        match self {
            ContractError::NotOwner => "Only Contract Owner can call this method".to_owned(),
            ContractError::InvalidTaskId => "invalid task_id".to_owned(),
            ContractError::InvalidTask => "invalid task".to_owned(),
            ContractError::InvalidCompany => "invalid company".to_owned(),
            ContractError::CompanyNameSuffix => "Invlalid company name passed".to_owned(),
            ContractError::InvalidCompanyName => "Invalid company name passed".to_owned(),
            ContractError::InvalidUsername => "Invalid username passed".to_owned(),
            ContractError::InvalidAccountId => "Invalid account ID passed".to_owned(),
            ContractError::DepositNotEnough => "attached deposit was not enough".to_owned(),
            ContractError::AccountExists => "account ID already exists".to_owned(),
            ContractError::CompanyExists => "company ID already exists".to_owned(),
            ContractError::InvalidHashLength => "hash should be 32 bytes long".to_owned(),
            ContractError::NotInvited => "you are not invited for this".to_owned().concat(" task"),
            ContractError::NoSubmission => "given user has no submissions for this".to_owned().concat(" task"),
            ContractError::DeadlineNotReached => "can't select tasks until deadline has reached".to_owned(),
            ContractError::AlreadyPayed => "reward for task has already been payed".to_owned(),
            ContractError::NotImplemented => "not implemented".to_owned(),
            ContractError::CompanyTaskExists { company_id, task_id } => {
                company_id.clone().concat(" already has task ").concat(task_id.as_str())
            },
            ContractError::AccountTaskExists { user_id, task_id } => {
                user_id.clone().concat(" already has completed ").concat(task_id.as_str())
            },
            ContractError::TaskIdTaken => "task ID already belongs to another company".to_owned(),
        }
    }
}

/// What the contract asks the NEAR runtime to do once a call has succeeded.
#[derive(Debug, PartialEq, Eq)]
pub enum PromiseAction {
    /// Send `amount` yoctoNEAR to `receiver_id`.
    Transfer { receiver_id: String, amount: u128 },
    /// Create the account `account_id`, fund it with `initial_balance` yoctoNEAR and
    /// give it the full access key `full_access_key`.
    CreateSubAccount { account_id: String, initial_balance: u128, full_access_key: Vec<u8> },
}

/// The SHA-256 hash of the account ID.
pub fn hash_account_id(account_id: &str) -> (h: [u8; 32])
    ensures
        h@ == sha256_digest(account_id.spec_bytes()),
{
    let digest = runtime::sha256(account_id.as_bytes());
    let mut hash = [0u8; 32];
    let mut i: usize = 0;
    while i < 32
        invariant
            digest@.len() == 32,
            i <= 32,
            forall|j: int| 0 <= j < i ==> hash@[j] == digest@[j],
        decreases 32 - i,
    {
        hash[i] = digest[i];
        i = i + 1;
    }
    assert(hash@ =~= digest@);
    hash
}

/// The creation of the sub-account `account_id` with `BASE_STORAGE_COST` on it and the
/// full access key `public_key`.
pub fn create_sub_account(account_id: String, public_key: Vec<u8>) -> (a: PromiseAction)
    ensures
        a == (PromiseAction::CreateSubAccount {
            account_id,
            initial_balance: BASE_STORAGE_COST,
            full_access_key: public_key,
        }),
{
    PromiseAction::CreateSubAccount {
        account_id,
        initial_balance: BASE_STORAGE_COST,
        full_access_key: public_key,
    }
}

/// The price, in yoctoNEAR, of `storage_used` bytes of storage.
pub open spec fn storage_cost(storage_used: u64) -> int {
    spec_storage_byte_cost() * storage_used
}

/// What is left of `attached` once `storage_used` bytes are paid for; fails when the
/// deposit does not cover them.
pub fn storage_refund(attached: u128, storage_used: u64) -> (r: Result<u128, ContractError>)
    ensures
        match r {
            Ok(x) => attached >= storage_cost(storage_used) && x == attached - storage_cost(storage_used),
            Err(e) => attached < storage_cost(storage_used) && e == ContractError::DepositNotEnough,
        },
{
    let byte_cost = runtime::storage_byte_cost();
    let used = storage_used as u128;
    assert(byte_cost * used <= 10_000_000_000_000_000_000u128 * 0xffff_ffff_ffff_ffffu128) by (nonlinear_arith)
        requires
            byte_cost == 10_000_000_000_000_000_000u128,
            used <= 0xffff_ffff_ffff_ffffu128,
    ;
    let cost = byte_cost * used;
    match attached.checked_sub(cost) {
        Some(x) => Ok(x),
        None => Err(ContractError::DepositNotEnough),
    }
}

/// What `refund_excess_deposit` decides when `caller` attached `attached` yoctoNEAR and
/// the call used `storage_used` bytes: the excess goes back to the caller.
pub open spec fn refund_outcome(attached: u128, caller: String, storage_used: u64) -> Result<Option<PromiseAction>, ContractError> {
    let cost = storage_cost(storage_used);
    if attached < cost {
        Err(ContractError::DepositNotEnough)
    } else if attached - cost > 0 {
        Ok(Some(PromiseAction::Transfer { receiver_id: caller, amount: (attached - cost) as u128 }))
    } else {
        Ok(None)
    }
}

/// Refunds what `attached` has beyond the price of `storage_used` bytes to `caller`;
/// fails when the deposit does not cover the storage.
pub fn refund_excess_deposit_from(attached: u128, caller: String, storage_used: u64) -> (r: Result<Option<PromiseAction>, ContractError>)
    ensures
        r == refund_outcome(attached, caller, storage_used),
{
    let refund_amount = storage_refund(attached, storage_used)?;
    if refund_amount > 0 {
        Ok(Some(PromiseAction::Transfer { receiver_id: caller, amount: refund_amount }))
    } else {
        Ok(None)
    }
}

/// Refunds to the caller what the attached deposit has beyond the price of
/// `storage_used` bytes; fails when the deposit does not cover the storage.
pub fn refund_excess_deposit(storage_used: u64) -> (r: Result<Option<PromiseAction>, ContractError>)
    ensures
        exists|attached: u128, caller: String| r == refund_outcome(attached, caller, storage_used),
{
    let attached = runtime::attached_deposit();
    let caller = runtime::predecessor_account_id();
    refund_excess_deposit_from(attached, caller, storage_used)
}

/// The byte `.`, which separates the parts of an account ID.
pub const DOT: u8 = 46u8;

/// The index of the first `b` in `s` at or after `from`, or -1 if there is none.
pub open spec fn index_from(s: Seq<u8>, b: u8, from: int) -> int
    decreases s.len() - from,
{
    if from < 0 || from >= s.len() {
        -1
    } else if s[from] == b {
        from
    } else {
        index_from(s, b, from + 1)
    }
}

/// The index of the first `b` in `s`, or -1 if there is none.
pub open spec fn first_index(s: Seq<u8>, b: u8) -> int {
    index_from(s, b, 0)
}

/// `index_from` is the first occurrence at or after `from`, or -1 if there is none.
pub proof fn lemma_index_from(s: Seq<u8>, b: u8, from: int)
    requires
        0 <= from <= s.len(),
    ensures
        ({
            let r = index_from(s, b, from);
            ||| r == -1 && (forall|j: int| from <= j < s.len() ==> s[j] != b)
            ||| from <= r < s.len() && s[r] == b && (forall|j: int| from <= j < r ==> s[j] != b)
        }),
    decreases s.len() - from,
{
    if from < s.len() && s[from] != b {
        lemma_index_from(s, b, from + 1);
    }
}

/// A byte allowed in a user or company name: an ASCII letter, digit or `_`.
pub open spec fn is_name_byte(c: u8) -> bool {
    (65 <= c <= 90) || (97 <= c <= 122) || (48 <= c <= 57) || c == 95
}

/// Every byte of `s` is allowed in a name.
pub open spec fn all_name_bytes(s: Seq<u8>) -> bool {
    forall|i: int| 0 <= i < s.len() ==> is_name_byte(#[trigger] s[i])
}

/// The first `b` among the first `end` bytes of `s`.
pub fn position_in(s: &[u8], b: u8, end: usize) -> (r: Option<usize>)
    requires
        end <= s@.len(),
    ensures
        match r {
            Some(i) => i as int == first_index(s@.take(end as int), b) && i < end,
            None => first_index(s@.take(end as int), b) == -1,
        },
{
    let ghost t = s@.take(end as int);
    proof {
        lemma_index_from(t, b, 0);
    }
    let mut i: usize = 0;
    while i < end
        invariant
            end <= s@.len(),
            t == s@.take(end as int),
            i <= end,
            forall|j: int| 0 <= j < i ==> t[j] != b,
            ({
                let r = index_from(t, b, 0);
                ||| r == -1 && (forall|j: int| 0 <= j < t.len() ==> t[j] != b)
                ||| 0 <= r < t.len() && t[r] == b && (forall|j: int| 0 <= j < r ==> t[j] != b)
            }),
        decreases end - i,
    {
        if s[i] == b {
            assert(t[i as int] == b);
            return Some(i);
        }
        i = i + 1;
    }
    None
}

/// Whether every one of the first `end` bytes of `s` is allowed in a name.
pub fn all_name_bytes_in(s: &[u8], end: usize) -> (r: bool)
    requires
        end <= s@.len(),
    ensures
        r == all_name_bytes(s@.take(end as int)),
{
    let mut i: usize = 0;
    while i < end
        invariant
            end <= s@.len(),
            i <= end,
            forall|j: int| 0 <= j < i ==> is_name_byte(#[trigger] s@[j]),
        decreases end - i,
    {
        let c = s[i];
        if !((65 <= c && c <= 90) || (97 <= c && c <= 122) || (48 <= c && c <= 57) || c == 95) {
            assert(s@.take(end as int)[i as int] == c);
            return false;
        }
        i = i + 1;
    }
    assert forall|j: int| 0 <= j < s@.take(end as int).len() implies is_name_byte(#[trigger] s@.take(end as int)[j]) by {
        assert(s@.take(end as int)[j] == s@[j]);
    }
    true
}

/// Whether the bytes of `s` from `start` on are those of `t`.
pub fn suffix_equals(s: &[u8], start: usize, t: &[u8]) -> (r: bool)
    requires
        start <= s@.len(),
    ensures
        r == (s@.skip(start as int) == t@),
{
    let n = s.len();
    if n - start != t.len() {
        assert(s@.skip(start as int).len() != t@.len());
        return false;
    }
    let mut i: usize = 0;
    while i < t.len()
        invariant
            n == s@.len(),
            start <= n,
            n - start == t@.len(),
            i <= t@.len(),
            forall|j: int| 0 <= j < i ==> s@[start + j] == t@[j],
        decreases t@.len() - i,
    {
        if s[start + i] != t[i] {
            assert(s@.skip(start as int)[i as int] != t@[i as int]);
            return false;
        }
        i = i + 1;
    }
    assert(s@.skip(start as int) =~= t@);
    true
}

impl Contract {
    /// What `check_owner` answers when `caller` calls.
    pub open spec fn owner_outcome(&self, caller: Seq<char>) -> Result<(), ContractError> {
        if caller == self.owner_id@ {
            Ok(())
        } else {
            Err(ContractError::NotOwner)
        }
    }

    /// Fails unless `caller` is the owner of the contract.
    pub fn check_owner(&self, caller: &String) -> (r: Result<(), ContractError>)
        ensures
            r == self.owner_outcome(caller@),
    {
        if *caller == self.owner_id {
            Ok(())
        } else {
            Err(ContractError::NotOwner)
        }
    }

    /// Fails unless the caller is the owner of the contract.
    pub fn assert_owner(&self) -> (r: Result<(), ContractError>)
        ensures
            exists|caller: Seq<char>| r == self.owner_outcome(caller),
    {
        let caller = runtime::predecessor_account_id();
        self.check_owner(&caller)
    }
}

} // verus!
