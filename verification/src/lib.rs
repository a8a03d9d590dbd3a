//! Carbonite: a proof-of-skills contract for NEAR. Companies that the owner
//! whitelists post tasks with rewards, users with carbonite sub-accounts take
//! them up, and completed tasks build up a user's record.
//!
//! The contract's state and every decision it takes are here, verified. What
//! the NEAR runtime does on the contract's behalf (transfers, account creation)
//! is returned as `PromiseAction` values for the caller to schedule.
use vstd::prelude::*;

pub mod collections;
pub mod company;
pub mod internal;
pub mod laws;
pub mod metadata;
pub mod payment;
pub mod runtime;
pub mod spec_laws;
pub mod task;
pub mod user;
pub mod utils;

use crate::collections::{lemma_strings_set_push, strings_set, StrMap, StrSet};
use crate::company::{check_company_account_pattern, company_account_outcome, Company};
use crate::metadata::{NFTContractMetadata, TokenMetadata};
use crate::task::Task;
use crate::utils::{create_sub_account, ContractError, PromiseAction};
use vstd::string::StringSliceAdditionalSpecFns;
use vstd::utf8::encode_utf8;

verus! {

/// Cost, in yoctoNEAR, of the storage that a new sub-account is given (0.01 NEAR).
pub const BASE_STORAGE_COST: u128 = 10_000_000_000_000_000_000_000u128;

/// The state of the contract.
pub struct Contract {
    /// owner of the contract
    pub owner_id: String,
    /// metadata of the carbonite NFT of each account
    pub tokens_by_account_id: StrMap<TokenMetadata>,
    /// tasks completed and verified, per account
    pub tasks_completed_per_account: StrMap<StrSet>,
    /// tasks given, per company
    pub tasks_by_company: StrMap<StrSet>,
    /// task metadata per task ID
    pub task_metadata_by_id: StrMap<Task>,
    /// skills recognised by the carbonite community
    pub recognised_skills: StrSet,
    /// companies verified to be genuine
    pub whitelisted_companies: StrMap<Company>,
    /// tokens that companies can pay rewards in
    pub approved_ft_tokens: StrSet,
    /// metadata of the contract
    pub metadata: NFTContractMetadata,
}

impl Contract {
    /// The collections hold no key twice, the per-account and per-company task sets included.
    pub open spec fn wf(&self) -> bool {
        &&& self.tokens_by_account_id.wf()
        &&& self.tasks_completed_per_account.wf()
        &&& (forall|k: Seq<char>| #[trigger] self.tasks_completed_per_account@.contains_key(k)
            ==> self.tasks_completed_per_account@[k].wf())
        &&& self.tasks_by_company.wf()
        &&& (forall|k: Seq<char>| #[trigger] self.tasks_by_company@.contains_key(k)
            ==> self.tasks_by_company@[k].wf())
        &&& self.task_metadata_by_id.wf()
        &&& self.recognised_skills.wf()
        &&& self.whitelisted_companies.wf()
        &&& self.approved_ft_tokens.wf()
    }

    /// The state that `new` starts from, with `carbonite_account_id` as the contract's own account.
    pub open spec fn is_initial_state(&self, owner_id: String, metadata: NFTContractMetadata, carbonite_account_id: Seq<char>) -> bool {
        &&& self.wf()
        &&& self.owner_id == owner_id
        &&& self.metadata == metadata
        &&& self.tokens_by_account_id@ == Map::<Seq<char>, TokenMetadata>::empty()
        &&& self.tasks_completed_per_account@ == Map::<Seq<char>, StrSet>::empty()
        &&& self.tasks_by_company@ == Map::<Seq<char>, StrSet>::empty()
        &&& self.task_metadata_by_id@ == Map::<Seq<char>, Task>::empty()
        &&& self.recognised_skills@ == set!["UI Designing"@, "UX Designing"@]
        &&& self.whitelisted_companies@.dom() == set![carbonite_account_id]
        &&& is_carbonite_company(self.whitelisted_companies@[carbonite_account_id])
        &&& self.approved_ft_tokens@ == set!["near"@]
    }

    /// The contract owned by `owner_id`, run from the account `carbonite_account_id`: it
    /// recognises the default skills, whitelists Carbonite itself under its own account,
    /// and accepts rewards in NEAR.
    pub fn new_for_account(owner_id: String, metadata: NFTContractMetadata, carbonite_account_id: String) -> (r: Contract)
        ensures
            r.is_initial_state(owner_id, metadata, carbonite_account_id@),
    {
        let mut recognised_skills = StrSet::new();
        recognised_skills.insert("UI Designing".to_owned());
        recognised_skills.insert("UX Designing".to_owned());
        let carbonite = Company {
            name: "Carbonite".to_owned(),
            icon: "CARBONITE".to_owned(),
            industries: "Blockchain".to_owned(),
            description: "Build your Proof of Skills".to_owned(),
            location: None,
            reference: "ipfs://dummylink".to_owned(),
        };
        let mut whitelisted_companies = StrMap::new();
        let ghost carbonite_view = carbonite_account_id@;
        whitelisted_companies.insert(carbonite_account_id, carbonite);
        let mut approved_ft_tokens = StrSet::new();
        approved_ft_tokens.insert("near".to_owned());
        let r = Contract {
            owner_id,
            tokens_by_account_id: StrMap::new(),
            tasks_completed_per_account: StrMap::new(),
            tasks_by_company: StrMap::new(),
            task_metadata_by_id: StrMap::new(),
            recognised_skills,
            whitelisted_companies,
            approved_ft_tokens,
            metadata,
        };
        assert(r.whitelisted_companies@.dom() =~= set![carbonite_view]);
        r
    }

    /// The contract owned by `owner_id`, run from the account it is deployed to.
    pub fn new(owner_id: String, metadata: NFTContractMetadata) -> (r: Contract)
        ensures
            exists|carbonite_account_id: Seq<char>| r.is_initial_state(owner_id, metadata, carbonite_account_id),
    {
        let carbonite_account_id = runtime::current_account_id();
        Self::new_for_account(owner_id, metadata, carbonite_account_id)
    }

    /// Approves the tokens `ft_tokens_contract_ids` for paying rewards; only the owner
    /// (`caller`) may.
    pub fn approve_ft_tokens_as(&mut self, caller: &String, ft_tokens_contract_ids: Vec<String>) -> (r: Result<(), ContractError>)
        requires
            old(self).wf(),
        ensures
            final(self).wf(),
            approve_effect(*old(self), *final(self), caller@, ft_tokens_contract_ids@, r),
    {
        self.check_owner(caller)?;
        let n = ft_tokens_contract_ids.len();
        let mut i: usize = 0;
        while i < n
            invariant
                n == ft_tokens_contract_ids@.len(),
                i <= n,
                self.wf(),
                self.approved_ft_tokens@ == old(self).approved_ft_tokens@.union(strings_set(ft_tokens_contract_ids@.take(i as int))),
                *self == (Contract { approved_ft_tokens: self.approved_ft_tokens, ..*old(self) }),
            decreases n - i,
        {
            let id = ft_tokens_contract_ids[i].clone();
            self.approved_ft_tokens.insert(id);
            proof {
                let ids = ft_tokens_contract_ids@;
                assert(ids.take(i + 1) == ids.take(i as int).push(ids[i as int]));
                lemma_strings_set_push(ids.take(i as int), ids[i as int]);
                assert(self.approved_ft_tokens@ =~= old(self).approved_ft_tokens@.union(strings_set(ids.take(i + 1))));
            }
            i = i + 1;
        }
        assert(ft_tokens_contract_ids@.take(n as int) =~= ft_tokens_contract_ids@);
        Ok(())
    }

    /// Approves the tokens `ft_tokens_contract_ids` for paying rewards; only the owner may.
    pub fn approve_ft_tokens(&mut self, ft_tokens_contract_ids: Vec<String>) -> (r: Result<(), ContractError>)
        requires
            old(self).wf(),
        ensures
            final(self).wf(),
            match r {
                Ok(()) => {
                    &&& final(self).approved_ft_tokens@ == old(self).approved_ft_tokens@.union(strings_set(ft_tokens_contract_ids@))
                    &&& *final(self) == (Contract { approved_ft_tokens: final(self).approved_ft_tokens, ..*old(self) })
                },
                Err(e) => e == ContractError::NotOwner && *final(self) == *old(self),
            },
    {
        let caller = runtime::predecessor_account_id();
        self.approve_ft_tokens_as(&caller, ft_tokens_contract_ids)
    }

    /// Whitelists `companies`, and asks for the creation of a sub-account for each; only
    /// the owner (`caller`) may. Every company account must be of the form
    /// `name-Co.contract_id`, and none may be whitelisted already or come twice.
    pub fn whitelist_companies_as(&mut self, caller: &String, contract_id: &str, companies: Vec<CompanyEntry>) -> (r: Result<Vec<PromiseAction>, ContractError>)
        requires
            old(self).wf(),
        ensures
            final(self).wf(),
            match r {
                Ok(actions) => {
                    &&& caller@ == old(self).owner_id@
                    &&& whitelist_error(old(self).whitelisted_companies@.dom(), companies@, contract_id.spec_bytes()) is None
                    &&& final(self).whitelisted_companies@.dom() == old(self).whitelisted_companies@.dom().union(entry_ids(companies@))
                    &&& forall|k: Seq<char>| #[trigger] old(self).whitelisted_companies@.contains_key(k)
                        ==> final(self).whitelisted_companies@[k] == old(self).whitelisted_companies@[k]
                    &&& forall|i: int| 0 <= i < companies@.len()
                        ==> final(self).whitelisted_companies@[#[trigger] companies@[i].0@] == companies@[i].1
                    &&& actions@.len() == companies@.len()
                    &&& forall|i: int| 0 <= i < companies@.len() ==> creates_account_of(#[trigger] actions@[i], companies@[i])
                    &&& *final(self) == (Contract { whitelisted_companies: final(self).whitelisted_companies, ..*old(self) })
                },
                Err(e) => {
                    &&& *final(self) == *old(self)
                    &&& if caller@ != old(self).owner_id@ {
                        e == ContractError::NotOwner
                    } else {
                        whitelist_error(old(self).whitelisted_companies@.dom(), companies@, contract_id.spec_bytes()) == Some(e)
                    }
                },
            },
    {
        self.check_owner(caller)?;
        let ghost known = old(self).whitelisted_companies@.dom();
        let ghost contract = contract_id.spec_bytes();
        let ghost all = companies@;
        let n = companies.len();
        let mut seen = StrSet::new();
        let mut i: usize = 0;
        while i < n
            invariant
                n == companies@.len(),
                all == companies@,
                i <= n,
                seen.wf(),
                seen@ == entry_ids(all.take(i as int)),
                whitelist_error(known, all.take(i as int), contract) is None,
                known == self.whitelisted_companies@.dom(),
                contract == contract_id.spec_bytes(),
                *self == *old(self),
                self.wf(),
                caller@ == old(self).owner_id@,
            decreases n - i,
        {
            proof {
                assert(all.take(i + 1).drop_last() =~= all.take(i as int));
                assert(all.take(i + 1).last() == all[i as int]);
            }
            let id = &companies[i].0;
            match check_company_account_pattern(id.as_str(), contract_id) {
                Ok(()) => {},
                Err(e) => {
                    proof {
                        lemma_whitelist_error_extends(known, all, contract, i + 1);
                    }
                    return Err(e);
                },
            }
            if self.whitelisted_companies.contains_key(id) || seen.contains(id) {
                proof {
                    lemma_whitelist_error_extends(known, all, contract, i + 1);
                }
                return Err(ContractError::CompanyExists);
            }
            seen.insert(id.clone());
            proof {
                lemma_entry_ids_step(all, i as int);
            }
            i = i + 1;
        }
        proof {
            assert(all.take(n as int) =~= all);
        }
        let mut companies = companies;
        let mut actions: Vec<PromiseAction> = Vec::new();
        let mut k: usize = 0;
        while k < n
            invariant
                n == all.len(),
                k <= n,
                companies@ == all.skip(k as int),
                actions@.len() == k,
                forall|j: int| 0 <= j < k ==> creates_account_of(#[trigger] actions@[j], all[j]),
                whitelist_error(known, all, contract) is None,
                self.wf(),
                self.whitelisted_companies@.dom() == known.union(entry_ids(all.take(k as int))),
                forall|key: Seq<char>| #[trigger] known.contains(key)
                    ==> self.whitelisted_companies@[key] == old(self).whitelisted_companies@[key],
                forall|j: int| 0 <= j < k ==> self.whitelisted_companies@[#[trigger] all[j].0@] == all[j].1,
                *self == (Contract { whitelisted_companies: self.whitelisted_companies, ..*old(self) }),
                known == old(self).whitelisted_companies@.dom(),
            decreases n - k,
        {
            proof {
                lemma_whitelist_prefix(known, all, contract, k as int);
                assert(all.take(k + 1).drop_last() =~= all.take(k as int));
                assert(all.take(k + 1).last() == all[k as int]);
                assert(companies@[0] == all[k as int]);
            }
            let (company_id, company, public_key) = companies.remove(0);
            let action = create_sub_account(company_id.clone(), public_key);
            let ghost before = self.whitelisted_companies@;
            match self.internal_add_company_to_whitelisted_companies(&company_id, company) {
                Ok(()) => {},
                Err(e) => {
                    return Err(e);
                },
            }
            actions.push(action);
            proof {
                assert(companies@ =~= all.skip(k + 1));
                lemma_entry_ids_step(all, k as int);
                assert forall|j: int| 0 <= j < k + 1 implies self.whitelisted_companies@[#[trigger] all[j].0@] == all[j].1 by {
                    if j < k {
                        assert(entry_ids(all.take(k as int)).contains(all[j].0@)) by {
                            assert(all.take(k as int)[j] == all[j]);
                        }
                    }
                }
            }
            k = k + 1;
        }
        proof {
            assert(all.take(n as int) =~= all);
        }
        Ok(actions)
    }

    /// Whitelists `companies`, and asks for the creation of a sub-account for each; only
    /// the owner may.
    pub fn whitelist_companies(&mut self, companies: Vec<CompanyEntry>) -> (r: Result<Vec<PromiseAction>, ContractError>)
        requires
            old(self).wf(),
        ensures
            final(self).wf(),
            exists|caller: Seq<char>, contract: Seq<char>|
                #[trigger] whitelist_effect(*old(self), *final(self), caller, encode_utf8(contract), companies@, r),
    {
        let caller = runtime::predecessor_account_id();
        let contract_id = runtime::current_account_id();
        let r = self.whitelist_companies_as(&caller, contract_id.as_str(), companies);
        assert(whitelist_effect(*old(self), *self, caller@, encode_utf8(contract_id@), companies@, r));
        r
    }

    /// What pinging `task_id` at `now` does: `r` is its result, taking `old` to `new`.
    pub open spec fn ping_effect(old: Contract, new: Contract, task_id: Seq<char>, now: u64, r: Result<(), ContractError>) -> bool {
        if !old.task_metadata_by_id@.contains_key(task_id) {
            r == Err::<(), ContractError>(ContractError::InvalidTaskId) && new == old
        } else {
            let task = old.task_metadata_by_id@[task_id];
            match task.ping_outcome(now) {
                Ok(state) => {
                    &&& r is Ok
                    &&& new.task_metadata_by_id@ == old.task_metadata_by_id@.insert(task_id, Task { task_state: state, ..task })
                    &&& new == (Contract { task_metadata_by_id: new.task_metadata_by_id, ..old })
                },
                Err(e) => r == Err::<(), ContractError>(e) && new == old,
            }
        }
    }

    /// Brings the state of the task `task_id` up to date at `now`: an invitation that ran
    /// out expires, a task past its deadline becomes overdue.
    pub fn ping_task_at(&mut self, task_id: &String, now: u64) -> (r: Result<(), ContractError>)
        requires
            old(self).wf(),
        ensures
            final(self).wf(),
            Self::ping_effect(*old(self), *final(self), task_id@, now, r),
    {
        let state = match self.task_metadata_by_id.get(task_id) {
            Some(task) => task.ping_outcome_at(now)?,
            None => {
                return Err(ContractError::InvalidTaskId);
            },
        };
        let mut task = match self.task_metadata_by_id.remove(task_id) {
            Some(t) => t,
            None => {
                return Err(ContractError::InvalidTaskId);
            },
        };
        task.task_state = state;
        self.task_metadata_by_id.insert(task_id.clone(), task);
        proof {
            let t = old(self).task_metadata_by_id@[task_id@];
            assert(task == (Task { task_state: state, ..t }));
            assert(self.task_metadata_by_id@ =~= old(self).task_metadata_by_id@.insert(task_id@, Task { task_state: state, ..t }));
        }
        Ok(())
    }

    /// Brings the state of the task `task_id` up to date.
    pub fn ping_task(&mut self, task_id: &String) -> (r: Result<(), ContractError>)
        requires
            old(self).wf(),
        ensures
            final(self).wf(),
            exists|now: u64| Self::ping_effect(*old(self), *final(self), task_id@, now, r),
    {
        let now = runtime::block_timestamp_ms();
        self.ping_task_at(task_id, now)
    }
}

/// A company to whitelist: its account ID, its details, and the public key that
/// becomes the full access key of its new sub-account.
pub type CompanyEntry = (String, Company, Vec<u8>);

/// Why whitelisting `entries` fails, if it does: `known` are the account IDs whitelisted
/// before, and `contract` the contract's own account ID (UTF-8 bytes). The entries are
/// taken in order; the first that is not a company account of the contract, or whose ID
/// is known or came before, decides.
pub open spec fn whitelist_error(known: Set<Seq<char>>, entries: Seq<CompanyEntry>, contract: Seq<u8>) -> Option<ContractError>
    decreases entries.len(),
{
    if entries.len() == 0 {
        None
    } else {
        let prefix = entries.drop_last();
        match whitelist_error(known, prefix, contract) {
            Some(e) => Some(e),
            None => {
                let id = entries.last().0@;
                match company_account_outcome(encode_utf8(id), contract) {
                    Err(e) => Some(e),
                    Ok(_) => if known.contains(id) || entry_ids(prefix).contains(id) {
                        Some(ContractError::CompanyExists)
                    } else {
                        None
                    },
                }
            }
        }
    }
}

/// The account IDs of `entries`.
pub open spec fn entry_ids(entries: Seq<CompanyEntry>) -> Set<Seq<char>> {
    Set::new(|k: Seq<char>| exists|i: int| 0 <= i < entries.len() && entries[i].0@ == k)
}

/// `a` creates the sub-account of `entry`, funded with `BASE_STORAGE_COST`.
pub open spec fn creates_account_of(a: PromiseAction, entry: CompanyEntry) -> bool {
    match a {
        PromiseAction::CreateSubAccount { account_id, initial_balance, full_access_key } => {
            &&& account_id@ == entry.0@
            &&& initial_balance == BASE_STORAGE_COST
            &&& full_access_key@ == entry.2@
        },
        _ => false,
    }
}

/// Once whitelisting the first `i` entries fails, whitelisting all of them fails the same way.
pub proof fn lemma_whitelist_error_extends(known: Set<Seq<char>>, entries: Seq<CompanyEntry>, contract: Seq<u8>, i: int)
    requires
        0 <= i <= entries.len(),
        whitelist_error(known, entries.take(i), contract) is Some,
    ensures
        whitelist_error(known, entries, contract) == whitelist_error(known, entries.take(i), contract),
    decreases entries.len() - i,
{
    if i < entries.len() {
        assert(entries.take(i + 1).drop_last() =~= entries.take(i));
        lemma_whitelist_error_extends(known, entries, contract, i + 1);
    } else {
        assert(entries.take(i) =~= entries);
    }
}

/// When whitelisting all entries succeeds, so does whitelisting the first `i`, and the
/// entry at `i` is a company account that is neither known nor one of those before it.
pub proof fn lemma_whitelist_prefix(known: Set<Seq<char>>, entries: Seq<CompanyEntry>, contract: Seq<u8>, i: int)
    requires
        0 <= i < entries.len(),
        whitelist_error(known, entries, contract) is None,
    ensures
        whitelist_error(known, entries.take(i), contract) is None,
        company_account_outcome(encode_utf8(entries[i].0@), contract) is Ok,
        !known.contains(entries[i].0@),
        !entry_ids(entries.take(i)).contains(entries[i].0@),
{
    if whitelist_error(known, entries.take(i + 1), contract) is Some {
        lemma_whitelist_error_extends(known, entries, contract, i + 1);
    }
    assert(entries.take(i + 1).drop_last() =~= entries.take(i));
    assert(entries.take(i + 1).last() == entries[i]);
}

/// What approving the tokens `ids` by `caller` does: `r` is its result, taking `old` to
/// `new`. Only the owner may; the tokens are added to the approved ones.
pub open spec fn approve_effect(old: Contract, new: Contract, caller: Seq<char>, ids: Seq<String>, r: Result<(), ContractError>) -> bool {
    match r {
        Ok(()) => {
            &&& caller == old.owner_id@
            &&& new.approved_ft_tokens@ == old.approved_ft_tokens@.union(strings_set(ids))
            &&& new == (Contract { approved_ft_tokens: new.approved_ft_tokens, ..old })
        },
        Err(e) => caller != old.owner_id@ && e == ContractError::NotOwner && new == old,
    }
}

/// What whitelisting `entries` by `caller` does, with `contract` the contract's own account
/// ID (UTF-8 bytes): `r` is its result, taking `old` to `new`. Only the owner may whitelist;
/// then it succeeds exactly when `whitelist_error` finds nothing, whitelists every entry
/// without touching the companies whitelisted before, and asks for one sub-account per entry.
pub open spec fn whitelist_effect(
    old: Contract,
    new: Contract,
    caller: Seq<char>,
    contract: Seq<u8>,
    entries: Seq<CompanyEntry>,
    r: Result<Vec<PromiseAction>, ContractError>,
) -> bool {
    match r {
        Ok(actions) => {
            &&& caller == old.owner_id@
            &&& whitelist_error(old.whitelisted_companies@.dom(), entries, contract) is None
            &&& new.whitelisted_companies@.dom() == old.whitelisted_companies@.dom().union(entry_ids(entries))
            &&& forall|k: Seq<char>| #[trigger] old.whitelisted_companies@.contains_key(k)
                ==> new.whitelisted_companies@[k] == old.whitelisted_companies@[k]
            &&& forall|i: int| 0 <= i < entries.len()
                ==> new.whitelisted_companies@[#[trigger] entries[i].0@] == entries[i].1
            &&& actions@.len() == entries.len()
            &&& forall|i: int| 0 <= i < entries.len() ==> creates_account_of(#[trigger] actions@[i], entries[i])
            &&& new == (Contract { whitelisted_companies: new.whitelisted_companies, ..old })
        },
        Err(e) => {
            &&& new == old
            &&& if caller != old.owner_id@ {
                e == ContractError::NotOwner
            } else {
                whitelist_error(old.whitelisted_companies@.dom(), entries, contract) == Some(e)
            }
        },
    }
}

/// The IDs of the first `i + 1` entries are those of the first `i` and that of entry `i`.
pub proof fn lemma_entry_ids_step(entries: Seq<CompanyEntry>, i: int)
    requires
        0 <= i < entries.len(),
    ensures
        entry_ids(entries.take(i + 1)) == entry_ids(entries.take(i)).insert(entries[i].0@),
{
    let a = entries.take(i);
    let b = entries.take(i + 1);
    assert forall|x: Seq<char>| entry_ids(a).contains(x) implies #[trigger] entry_ids(b).contains(x) by {
        let j = choose|j: int| 0 <= j < a.len() && #[trigger] a[j].0@ == x;
        assert(b[j] == a[j]);
    }
    assert(b[i] == entries[i]);
    assert forall|x: Seq<char>| #[trigger] entry_ids(b).contains(x) implies entry_ids(a).insert(entries[i].0@).contains(x) by {
        let j = choose|j: int| 0 <= j < b.len() && #[trigger] b[j].0@ == x;
        if j < i {
            assert(a[j] == b[j]);
        }
    }
    assert(entry_ids(b) =~= entry_ids(a).insert(entries[i].0@));
}

/// The company that the contract whitelists under its own account.
pub open spec fn is_carbonite_company(c: Company) -> bool {
    &&& c.name@ == "Carbonite"@
    &&& c.icon@ == "CARBONITE"@
    &&& c.industries@ == "Blockchain"@
    &&& c.description@ == "Build your Proof of Skills"@
    &&& c.location is None
    &&& c.reference@ == "ipfs://dummylink"@
}

} // verus!
