use carbonite::collections::{StrMap, StrSet};
use carbonite::company::{check_company_account_pattern, edit_company_settlement, Company};
use carbonite::metadata::{NFTContractMetadata, NonFungibleTokenMetadata, TokenMetadata};
use carbonite::task::{task_deposit_refund, Submission, Task, TaskDetails, TaskState, TaskType};
use carbonite::user::check_user_account_pattern;
use carbonite::utils::{
    create_sub_account, hash_account_id, refund_excess_deposit, refund_excess_deposit_from, storage_refund,
    ContractError, PromiseAction,
};
use carbonite::{Contract, BASE_STORAGE_COST};

const BYTE_COST: u128 = 10_000_000_000_000_000_000;

fn s(x: &str) -> String {
    x.to_string()
}

fn metadata() -> NFTContractMetadata {
    NFTContractMetadata {
        spec: s("nft-1.0.0"),
        name: s("Carbonite"),
        symbol: s("CRB"),
        icon: s("data:,"),
        base_uri: s("https://ipfs.io"),
        reference: s("ipfs://ref"),
        reference_hash: vec![1u8; 32],
    }
}

fn company(name: &str) -> Company {
    Company {
        name: s(name),
        icon: s("icon"),
        industries: s("Software"),
        description: s("makes software"),
        location: None,
        reference: s("https://example.com"),
    }
}

fn details(task_type: TaskType, hash_len: usize) -> TaskDetails {
    TaskDetails {
        title: s("Logo"),
        description: s("design a logo"),
        required_skills: s("UI Designing"),
        task_type,
        reference: s("ipfs://task"),
        reference_hash: vec![7u8; hash_len],
    }
}

fn invite_only(accounts: &[&str], valid_till: u64) -> TaskType {
    let mut invited = StrSet::new();
    for a in accounts {
        invited.insert(s(a));
    }
    TaskType::InviteOnly { invited_accounts: invited, valid_till }
}

fn fresh() -> Contract {
    Contract::new_for_account(s("owner.near"), metadata(), s("carbonite.near"))
}

/// A contract with `Acme-Co.carbonite.near` whitelisted.
fn with_company() -> Contract {
    let mut c = fresh();
    c.internal_add_company_to_whitelisted_companies(&s("Acme-Co.carbonite.near"), company("Acme")).unwrap();
    c
}

fn task_state(c: &Contract, id: &str) -> TaskState {
    c.task_metadata_by_id.get(&s(id)).unwrap().task_state
}

// ---- account patterns ----

#[test]
fn company_pattern_accepts_company_account() {
    assert_eq!(check_company_account_pattern("Acme_1-Co.carbonite.near", "carbonite.near"), Ok(()));
}

#[test]
fn company_pattern_needs_a_dot() {
    assert_eq!(
        check_company_account_pattern("Acme-Co", "carbonite.near"),
        Err(ContractError::InvalidAccountId)
    );
}

#[test]
fn company_pattern_needs_co_suffix() {
    assert_eq!(
        check_company_account_pattern("Acme.carbonite.near", "carbonite.near"),
        Err(ContractError::CompanyNameSuffix)
    );
    assert_eq!(
        check_company_account_pattern("Acme-co.carbonite.near", "carbonite.near"),
        Err(ContractError::CompanyNameSuffix)
    );
}

#[test]
fn company_pattern_checks_whole_name() {
    assert_eq!(
        check_company_account_pattern("Ac$me-Co.carbonite.near", "carbonite.near"),
        Err(ContractError::InvalidCompanyName)
    );
    assert_eq!(
        check_company_account_pattern("a-b!-Co.carbonite.near", "carbonite.near"),
        Err(ContractError::InvalidCompanyName)
    );
    assert_eq!(
        check_company_account_pattern("a-b-Co.carbonite.near", "carbonite.near"),
        Err(ContractError::InvalidCompanyName)
    );
    assert_eq!(check_company_account_pattern("-Co.carbonite.near", "carbonite.near"), Ok(()));
}

#[test]
fn company_pattern_needs_this_contract() {
    assert_eq!(
        check_company_account_pattern("Acme-Co.other.near", "carbonite.near"),
        Err(ContractError::InvalidAccountId)
    );
}

#[test]
fn user_pattern_cases() {
    assert_eq!(check_user_account_pattern("alice_01.carbonite.near", "carbonite.near"), Ok(()));
    assert_eq!(check_user_account_pattern("alice", "carbonite.near"), Err(ContractError::InvalidAccountId));
    assert_eq!(
        check_user_account_pattern("ali-ce.carbonite.near", "carbonite.near"),
        Err(ContractError::InvalidUsername)
    );
    assert_eq!(
        check_user_account_pattern("alice.elsewhere.near", "carbonite.near"),
        Err(ContractError::InvalidAccountId)
    );
}

#[test]
fn company_account_is_not_user_account() {
    let id = "Acme-Co.carbonite.near";
    assert_eq!(check_company_account_pattern(id, "carbonite.near"), Ok(()));
    assert_eq!(check_user_account_pattern(id, "carbonite.near"), Err(ContractError::InvalidUsername));
}

#[test]
fn env_patterns_use_current_account() {
    // the mocked runtime runs the contract as alice.near
    assert_eq!(carbonite::company::assert_valid_carbonite_company_account_pattern("Acme-Co.alice.near"), Ok(()));
    assert_eq!(
        carbonite::user::assert_valid_carbonite_user_account_pattern("carol.carbonite.near"),
        Err(ContractError::InvalidAccountId)
    );
}

// ---- utilities ----

#[test]
fn hash_of_account_is_sha256() {
    let expected: [u8; 32] = [
        45, 213, 221, 165, 64, 118, 123, 58, 26, 163, 53, 68, 188, 186, 56, 4, 47, 77, 246, 222, 155, 221, 180,
        103, 152, 178, 148, 129, 200, 66, 197, 88,
    ];
    assert_eq!(hash_account_id("alice.near"), expected);
}

#[test]
fn sub_account_creation_is_funded() {
    assert_eq!(
        create_sub_account(s("bob.carbonite.near"), vec![0u8; 33]),
        PromiseAction::CreateSubAccount {
            account_id: s("bob.carbonite.near"),
            initial_balance: BASE_STORAGE_COST,
            full_access_key: vec![0u8; 33],
        }
    );
}

#[test]
fn storage_refund_values() {
    assert_eq!(storage_refund(5 * BYTE_COST, 3), Ok(2 * BYTE_COST));
    assert_eq!(storage_refund(3 * BYTE_COST, 3), Ok(0));
    assert_eq!(storage_refund(3 * BYTE_COST - 1, 3), Err(ContractError::DepositNotEnough));
    assert_eq!(storage_refund(u128::MAX, u64::MAX), Ok(u128::MAX - BYTE_COST * (u64::MAX as u128)));
}

#[test]
fn refund_excess_deposit_values() {
    assert_eq!(
        refund_excess_deposit_from(10 * BYTE_COST, s("bob.near"), 4),
        Ok(Some(PromiseAction::Transfer { receiver_id: s("bob.near"), amount: 6 * BYTE_COST }))
    );
    assert_eq!(refund_excess_deposit_from(4 * BYTE_COST, s("bob.near"), 4), Ok(None));
    assert_eq!(refund_excess_deposit_from(0, s("bob.near"), 1), Err(ContractError::DepositNotEnough));
    // the mocked runtime attaches nothing
    assert_eq!(refund_excess_deposit(0), Ok(None));
    assert_eq!(refund_excess_deposit(1), Err(ContractError::DepositNotEnough));
}

#[test]
fn task_deposit_refund_values() {
    assert_eq!(
        task_deposit_refund(10 * BYTE_COST, 2, 3 * BYTE_COST, s("Acme-Co.carbonite.near")),
        Ok(PromiseAction::Transfer { receiver_id: s("Acme-Co.carbonite.near"), amount: 5 * BYTE_COST })
    );
    // nothing left over is refused too
    assert_eq!(
        task_deposit_refund(5 * BYTE_COST, 2, 3 * BYTE_COST, s("Acme-Co.carbonite.near")),
        Err(ContractError::DepositNotEnough)
    );
    assert_eq!(task_deposit_refund(BYTE_COST, 2, 0, s("x")), Err(ContractError::DepositNotEnough));
}

#[test]
fn edit_settlement_values() {
    assert_eq!(
        edit_company_settlement(100, 103, 5 * BYTE_COST, s("Acme-Co.carbonite.near")),
        Ok(Some(PromiseAction::Transfer { receiver_id: s("Acme-Co.carbonite.near"), amount: 2 * BYTE_COST }))
    );
    assert_eq!(
        edit_company_settlement(100, 103, BYTE_COST, s("Acme-Co.carbonite.near")),
        Err(ContractError::DepositNotEnough)
    );
    assert_eq!(
        edit_company_settlement(103, 100, 0, s("Acme-Co.carbonite.near")),
        Ok(Some(PromiseAction::Transfer { receiver_id: s("Acme-Co.carbonite.near"), amount: 3 * BYTE_COST }))
    );
    assert_eq!(edit_company_settlement(100, 100, 7, s("Acme-Co.carbonite.near")), Ok(None));
}

#[test]
fn error_messages() {
    assert_eq!(ContractError::NotOwner.message(), "Only Contract Owner can call this method");
    assert_eq!(ContractError::CompanyNameSuffix.message(), "Invlalid company name passed");
    assert_eq!(ContractError::DepositNotEnough.message(), "attached deposit was not enough");
    assert_eq!(ContractError::NotInvited.message(), ["you are not invited for this", " task"].concat());
    assert_eq!(ContractError::NoSubmission.message(), ["given user has no submissions for this", " task"].concat());
    assert_eq!(
        ContractError::CompanyTaskExists { company_id: s("Acme-Co.carbonite.near"), task_id: s("acme.logo") }.message(),
        "Acme-Co.carbonite.near already has task acme.logo"
    );
    assert_eq!(
        ContractError::AccountTaskExists { user_id: s("bob.carbonite.near"), task_id: s("acme.logo") }.message(),
        "bob.carbonite.near already has completed acme.logo"
    );
}

// ---- collections ----

#[test]
fn str_set_insert_reports_novelty() {
    let mut set = StrSet::new();
    assert!(set.insert(s("a")));
    assert!(!set.insert(s("a")));
    assert!(set.insert(s("b")));
    assert!(set.contains(&s("a")));
    assert!(!set.contains(&s("c")));
    let mut v = set.into_vec();
    v.sort();
    assert_eq!(v, vec![s("a"), s("b")]);
}

#[test]
fn str_map_insert_get_remove() {
    let mut m: StrMap<u32> = StrMap::new();
    assert_eq!(m.insert(s("a"), 1), None);
    assert_eq!(m.insert(s("b"), 2), None);
    assert_eq!(m.insert(s("a"), 3), Some(1));
    assert_eq!(m.get(&s("a")), Some(&3));
    assert!(m.contains_key(&s("b")));
    assert_eq!(m.remove(&s("a")), Some(3));
    assert_eq!(m.remove(&s("a")), None);
    assert_eq!(m.get(&s("a")), None);
    assert_eq!(m.into_entries(), vec![(s("b"), 2)]);
}

// ---- contract set-up and owner methods ----

#[test]
fn new_contract_state() {
    let c = fresh();
    assert_eq!(c.owner_id, "owner.near");
    assert!(c.recognised_skills.contains(&s("UI Designing")));
    assert!(c.recognised_skills.contains(&s("UX Designing")));
    assert!(c.approved_ft_tokens.contains(&s("near")));
    let carbonite = c.whitelisted_companies.get(&s("carbonite.near")).unwrap();
    assert_eq!(carbonite.name, "Carbonite");
    assert_eq!(carbonite.reference, "ipfs://dummylink");
    assert!(!c.tokens_by_account_id.contains_key(&s("carbonite.near")));
    assert_eq!(c.nft_metadata().symbol, "CRB");
    assert_eq!(c.nft_metadata().reference_hash, vec![1u8; 32]);
}

#[test]
fn new_uses_current_account() {
    let c = Contract::new(s("owner.near"), metadata());
    assert!(c.whitelisted_companies.contains_key(&s("alice.near")));
}

#[test]
fn only_owner_approves_tokens() {
    let mut c = fresh();
    assert_eq!(c.approve_ft_tokens_as(&s("owner.near"), vec![s("usdc.near"), s("dai.near")]), Ok(()));
    assert!(c.approved_ft_tokens.contains(&s("usdc.near")));
    assert!(c.approved_ft_tokens.contains(&s("dai.near")));
    assert!(c.approved_ft_tokens.contains(&s("near")));
    assert_eq!(c.approve_ft_tokens_as(&s("eve.near"), vec![s("evil.near")]), Err(ContractError::NotOwner));
    assert!(!c.approved_ft_tokens.contains(&s("evil.near")));
    // the mocked caller is bob.near, not the owner
    assert_eq!(c.approve_ft_tokens(vec![s("x.near")]), Err(ContractError::NotOwner));
    assert_eq!(c.check_owner(&s("owner.near")), Ok(()));
    assert_eq!(c.assert_owner(), Err(ContractError::NotOwner));
}

#[test]
fn whitelist_companies_creates_accounts() {
    let mut c = fresh();
    let r = c.whitelist_companies_as(
        &s("owner.near"),
        "carbonite.near",
        vec![
            (s("Acme-Co.carbonite.near"), company("Acme"), vec![1u8]),
            (s("Beta-Co.carbonite.near"), company("Beta"), vec![2u8]),
        ],
    );
    assert_eq!(
        r,
        Ok(vec![
            PromiseAction::CreateSubAccount {
                account_id: s("Acme-Co.carbonite.near"),
                initial_balance: BASE_STORAGE_COST,
                full_access_key: vec![1u8],
            },
            PromiseAction::CreateSubAccount {
                account_id: s("Beta-Co.carbonite.near"),
                initial_balance: BASE_STORAGE_COST,
                full_access_key: vec![2u8],
            },
        ])
    );
    assert_eq!(c.whitelisted_companies.get(&s("Beta-Co.carbonite.near")).unwrap().name, "Beta");
    assert!(c.whitelisted_companies.contains_key(&s("carbonite.near")));
}

#[test]
fn whitelist_companies_is_all_or_nothing() {
    let mut c = fresh();
    let r = c.whitelist_companies_as(
        &s("owner.near"),
        "carbonite.near",
        vec![
            (s("Acme-Co.carbonite.near"), company("Acme"), vec![1u8]),
            (s("Acme-Co.carbonite.near"), company("Acme again"), vec![2u8]),
        ],
    );
    assert_eq!(r, Err(ContractError::CompanyExists));
    assert!(!c.whitelisted_companies.contains_key(&s("Acme-Co.carbonite.near")));

    let r = c.whitelist_companies_as(
        &s("owner.near"),
        "carbonite.near",
        vec![
            (s("Acme-Co.carbonite.near"), company("Acme"), vec![1u8]),
            (s("Beta.carbonite.near"), company("Beta"), vec![2u8]),
        ],
    );
    assert_eq!(r, Err(ContractError::CompanyNameSuffix));
    assert!(!c.whitelisted_companies.contains_key(&s("Acme-Co.carbonite.near")));

    let r = c.whitelist_companies_as(&s("eve.near"), "carbonite.near", vec![]);
    assert_eq!(r, Err(ContractError::NotOwner));
}

#[test]
fn whitelisting_twice_fails() {
    let mut c = with_company();
    let r = c.whitelist_companies_as(
        &s("owner.near"),
        "carbonite.near",
        vec![(s("Acme-Co.carbonite.near"), company("Other"), vec![1u8])],
    );
    assert_eq!(r, Err(ContractError::CompanyExists));
    assert_eq!(c.whitelisted_companies.get(&s("Acme-Co.carbonite.near")).unwrap().name, "Acme");
}

#[test]
fn whitelist_companies_env_caller_is_not_owner() {
    let mut c = fresh();
    assert_eq!(c.whitelist_companies(vec![]), Err(ContractError::NotOwner));
}

// ---- internal additions ----

#[test]
fn internal_additions_refuse_duplicates() {
    let mut c = fresh();
    let token = TokenMetadata::new_at(s("t"), None, 5);
    assert_eq!(c.internal_add_token_to_owner(&s("bob.carbonite.near"), token), Ok(()));
    let token = TokenMetadata::new_at(s("u"), None, 6);
    assert_eq!(c.internal_add_token_to_owner(&s("bob.carbonite.near"), token), Err(ContractError::AccountExists));
    assert_eq!(c.tokens_by_account_id.get(&s("bob.carbonite.near")).unwrap().title, "t");

    assert_eq!(
        c.internal_add_company_to_whitelisted_companies(&s("carbonite.near"), company("x")),
        Err(ContractError::CompanyExists)
    );

    assert_eq!(c.internal_add_tasks_to_company(&s("Acme-Co.carbonite.near"), &s("acme.logo")), Ok(()));
    assert_eq!(c.internal_add_tasks_to_company(&s("Acme-Co.carbonite.near"), &s("acme.site")), Ok(()));
    assert_eq!(
        c.internal_add_tasks_to_company(&s("Acme-Co.carbonite.near"), &s("acme.logo")),
        Err(ContractError::CompanyTaskExists { company_id: s("Acme-Co.carbonite.near"), task_id: s("acme.logo") })
    );
    assert!(c.tasks_by_company.get(&s("Acme-Co.carbonite.near")).unwrap().contains(&s("acme.site")));

    assert_eq!(c.internal_add_tasks_to_account(&s("bob.carbonite.near"), &s("acme.logo")), Ok(()));
    assert_eq!(
        c.internal_add_tasks_to_account(&s("bob.carbonite.near"), &s("acme.logo")),
        Err(ContractError::AccountTaskExists { user_id: s("bob.carbonite.near"), task_id: s("acme.logo") })
    );
}

// ---- tasks ----

#[test]
fn task_new_and_validity() {
    let t = Task::new(details(TaskType::ForEveryone, 32), s("Acme-Co.carbonite.near"), 100, s("near"), 9).unwrap();
    assert_eq!(t.task_state, TaskState::Pending);
    assert_eq!(t.person_assigned, None);
    assert_eq!(t.reward, 9);
    assert!(!t.is_past_validity_at(1_000));
    assert!(!t.is_past_deadline_at(99));
    assert!(t.is_past_deadline_at(100));

    let t = Task::new(details(invite_only(&["bob.carbonite.near"], 50), 32), s("c"), 100, s("near"), 9).unwrap();
    assert_eq!(t.task_state, TaskState::Open);
    assert!(!t.is_past_validity_at(49));
    assert!(t.is_past_validity_at(50));
    // the mocked clock reads 0
    assert!(!t.is_past_validity());
    assert!(!t.is_past_deadline());

    assert!(Task::new(details(TaskType::ForEveryone, 31), s("c"), 100, s("near"), 9).is_err());
    assert_eq!(details(TaskType::ForEveryone, 31).assert_valid_task_details(), Err(ContractError::InvalidHashLength));
    assert_eq!(details(TaskType::ForEveryone, 32).assert_valid_task_details(), Ok(()));
}

#[test]
fn add_task_in_near_token_records_task() {
    let mut c = with_company();
    let acme = s("Acme-Co.carbonite.near");
    assert_eq!(
        c.add_task_in_near_token_as(&acme, &s("acme.logo"), details(TaskType::ForEveryone, 32), 100, 7),
        Ok(())
    );
    let t = c.task_metadata_by_id.get(&s("acme.logo")).unwrap();
    assert_eq!(t.company_id, acme);
    assert_eq!(t.ft_contract_id, "near");
    assert_eq!(t.deadline, 100);
    assert_eq!(t.task_state, TaskState::Pending);
    assert!(c.tasks_by_company.get(&acme).unwrap().contains(&s("acme.logo")));

    assert_eq!(
        c.add_task_in_near_token_as(&acme, &s("acme.logo"), details(TaskType::ForEveryone, 32), 200, 7),
        Err(ContractError::CompanyTaskExists { company_id: acme.clone(), task_id: s("acme.logo") })
    );
    assert_eq!(c.task_metadata_by_id.get(&s("acme.logo")).unwrap().deadline, 100);
    assert_eq!(
        c.add_task_in_near_token_as(&acme, &s("acme.site"), details(TaskType::ForEveryone, 3), 200, 7),
        Err(ContractError::InvalidHashLength)
    );
    assert_eq!(
        c.add_task_in_near_token_as(&s("nobody.near"), &s("x"), details(TaskType::ForEveryone, 32), 200, 7),
        Err(ContractError::InvalidCompany)
    );
    // another company cannot take the task ID over
    let beta = s("Beta-Co.carbonite.near");
    c.internal_add_company_to_whitelisted_companies(&beta, company("Beta")).unwrap();
    assert_eq!(
        c.add_task_in_near_token_as(&beta, &s("acme.logo"), details(TaskType::ForEveryone, 32), 200, 7),
        Err(ContractError::TaskIdTaken)
    );
    assert_eq!(c.task_metadata_by_id.get(&s("acme.logo")).unwrap().company_id, acme);
    // the mocked caller bob.near is no company
    assert_eq!(
        c.add_task_in_near_token(&s("y"), details(TaskType::ForEveryone, 32), 200, 7),
        Err(ContractError::InvalidCompany)
    );
}

fn with_tasks() -> Contract {
    let mut c = with_company();
    let acme = s("Acme-Co.carbonite.near");
    c.add_task_in_near_token_as(&acme, &s("acme.bounty"), details(TaskType::ForEveryone, 32), 100, 7).unwrap();
    c.add_task_in_near_token_as(
        &acme,
        &s("acme.invite"),
        details(invite_only(&["bob.carbonite.near"], 50), 32),
        100,
        7,
    )
    .unwrap();
    c
}

#[test]
fn ping_moves_tasks_forward() {
    let mut c = with_tasks();
    assert_eq!(c.ping_task_at(&s("acme.bounty"), 99), Ok(()));
    assert_eq!(task_state(&c, "acme.bounty"), TaskState::Pending);
    assert_eq!(c.ping_task_at(&s("acme.bounty"), 100), Ok(()));
    assert_eq!(task_state(&c, "acme.bounty"), TaskState::Overdue);
    // refunding the company is not implemented
    assert_eq!(c.ping_task_at(&s("acme.bounty"), 100), Err(ContractError::NotImplemented));
    assert_eq!(task_state(&c, "acme.bounty"), TaskState::Overdue);

    assert_eq!(c.ping_task_at(&s("acme.invite"), 49), Ok(()));
    assert_eq!(task_state(&c, "acme.invite"), TaskState::Open);
    assert_eq!(c.ping_task_at(&s("acme.invite"), 50), Ok(()));
    assert_eq!(task_state(&c, "acme.invite"), TaskState::Expired);

    assert_eq!(c.ping_task_at(&s("missing"), 0), Err(ContractError::InvalidTaskId));
    assert_eq!(c.ping_task(&s("missing")), Err(ContractError::InvalidTaskId));
}

#[test]
fn ping_completed_task() {
    let mut c = with_tasks();
    let mut t = c.task_metadata_by_id.remove(&s("acme.bounty")).unwrap();
    t.task_state = TaskState::Completed;
    c.task_metadata_by_id.insert(s("acme.bounty"), t);
    assert_eq!(c.ping_task_at(&s("acme.bounty"), 99), Ok(()));
    assert_eq!(task_state(&c, "acme.bounty"), TaskState::Completed);
    assert_eq!(c.ping_task_at(&s("acme.bounty"), 100), Err(ContractError::NotImplemented));
}

#[test]
fn extend_deadline_only_later() {
    let mut c = with_tasks();
    assert_eq!(c.extend_deadline_at(&s("acme.bounty"), 150, 10), Ok(()));
    assert_eq!(c.task_metadata_by_id.get(&s("acme.bounty")).unwrap().deadline, 150);
    assert_eq!(c.extend_deadline_at(&s("acme.bounty"), 120, 10), Ok(()));
    assert_eq!(c.task_metadata_by_id.get(&s("acme.bounty")).unwrap().deadline, 150);
    // an overdue task keeps its deadline
    assert_eq!(c.extend_deadline_at(&s("acme.bounty"), 500, 150), Ok(()));
    assert_eq!(task_state(&c, "acme.bounty"), TaskState::Overdue);
    assert_eq!(c.task_metadata_by_id.get(&s("acme.bounty")).unwrap().deadline, 150);
    assert_eq!(c.extend_deadline_at(&s("missing"), 500, 150), Err(ContractError::InvalidTaskId));
    // the mocked clock reads 0
    assert_eq!(c.extend_deadline(&s("acme.invite"), 300), Ok(()));
    assert_eq!(c.task_metadata_by_id.get(&s("acme.invite")).unwrap().deadline, 300);
}

#[test]
fn accept_invite_assigns_invited_account() {
    let mut c = with_tasks();
    assert_eq!(c.accept_invite_as(&s("acme.invite"), s("eve.carbonite.near"), 10), Err(ContractError::NotInvited));
    assert_eq!(c.task_metadata_by_id.get(&s("acme.invite")).unwrap().person_assigned, None);
    assert_eq!(c.accept_invite_as(&s("acme.invite"), s("bob.carbonite.near"), 10), Ok(()));
    let t = c.task_metadata_by_id.get(&s("acme.invite")).unwrap();
    assert_eq!(t.person_assigned, Some(s("bob.carbonite.near")));
    assert_eq!(t.task_state, TaskState::Pending);
    // once accepted, the invite is no longer open
    assert_eq!(c.accept_invite_as(&s("acme.invite"), s("bob.carbonite.near"), 11), Ok(()));
    assert_eq!(c.task_metadata_by_id.get(&s("acme.invite")).unwrap().person_assigned, Some(s("bob.carbonite.near")));
    // a bounty has no invitation: nobody is assigned
    assert_eq!(c.accept_invite_as(&s("acme.bounty"), s("eve.carbonite.near"), 10), Ok(()));
    assert_eq!(c.task_metadata_by_id.get(&s("acme.bounty")).unwrap().person_assigned, None);
    assert_eq!(c.accept_invite_as(&s("missing"), s("bob.carbonite.near"), 10), Err(ContractError::InvalidTaskId));
}

#[test]
fn accept_invite_env_caller_not_invited() {
    let mut c = with_tasks();
    // the mocked caller bob.near is not invited
    assert_eq!(c.accept_invite(&s("acme.invite")), Err(ContractError::NotInvited));
}

#[test]
fn expired_invite_is_not_accepted() {
    let mut c = with_tasks();
    assert_eq!(c.accept_invite_as(&s("acme.invite"), s("bob.carbonite.near"), 60), Ok(()));
    let t = c.task_metadata_by_id.get(&s("acme.invite")).unwrap();
    assert_eq!(t.task_state, TaskState::Expired);
    assert_eq!(t.person_assigned, None);
}

fn completed_bounty() -> Contract {
    let mut c = with_tasks();
    let mut t = c.task_metadata_by_id.remove(&s("acme.bounty")).unwrap();
    t.task_state = TaskState::Completed;
    t.submissions_by_account_id.insert(
        s("bob.carbonite.near"),
        Submission { submission_reference: s("ipfs://sub"), submission_reference_hash: vec![0u8; 32] },
    );
    c.task_metadata_by_id.insert(s("acme.bounty"), t);
    c
}

#[test]
fn select_task_pays_the_winner() {
    let mut c = completed_bounty();
    let acme = s("Acme-Co.carbonite.near");
    let bob = s("bob.carbonite.near");
    assert_eq!(
        c.select_task_as(&s("acme.bounty"), &bob, &acme, 100),
        Ok(PromiseAction::Transfer { receiver_id: bob.clone(), amount: 7 })
    );
    assert_eq!(task_state(&c, "acme.bounty"), TaskState::Payed);
    assert!(c.tasks_completed_per_account.get(&bob).unwrap().contains(&s("acme.bounty")));
    // a payed task is not paid twice
    assert_eq!(c.select_task_as(&s("acme.bounty"), &bob, &acme, 100), Err(ContractError::AlreadyPayed));
}

#[test]
fn select_task_refusals() {
    let acme = s("Acme-Co.carbonite.near");
    let bob = s("bob.carbonite.near");
    let mut c = with_tasks();
    assert_eq!(c.select_task_as(&s("missing"), &bob, &acme, 0), Err(ContractError::InvalidTask));
    assert_eq!(c.select_task_as(&s("acme.bounty"), &bob, &acme, 0), Err(ContractError::AlreadyPayed));
    // an overdue task fails its ping first
    assert_eq!(c.ping_task_at(&s("acme.bounty"), 100), Ok(()));
    assert_eq!(c.select_task_as(&s("acme.bounty"), &bob, &acme, 100), Err(ContractError::NotImplemented));

    let mut c = completed_bounty();
    assert_eq!(c.select_task_as(&s("acme.bounty"), &bob, &acme, 50), Err(ContractError::DeadlineNotReached));
    assert_eq!(c.select_task_as(&s("acme.bounty"), &bob, &s("other.near"), 100), Err(ContractError::InvalidCompany));
    assert_eq!(
        c.select_task_as(&s("acme.bounty"), &s("eve.carbonite.near"), &acme, 100),
        Err(ContractError::NoSubmission)
    );
    c.internal_add_tasks_to_account(&bob, &s("acme.bounty")).unwrap();
    assert_eq!(
        c.select_task_as(&s("acme.bounty"), &bob, &acme, 100),
        Err(ContractError::AccountTaskExists { user_id: bob.clone(), task_id: s("acme.bounty") })
    );
    assert_eq!(task_state(&c, "acme.bounty"), TaskState::Completed);

    let mut c = completed_bounty();
    let mut t = c.task_metadata_by_id.remove(&s("acme.bounty")).unwrap();
    t.ft_contract_id = s("usdc.near");
    c.task_metadata_by_id.insert(s("acme.bounty"), t);
    assert_eq!(c.select_task_as(&s("acme.bounty"), &bob, &acme, 100), Err(ContractError::NotImplemented));
    assert!(!c.tasks_completed_per_account.contains_key(&bob));
    // the mocked caller bob.near is not the company; the mocked clock reads 0
    assert_eq!(c.select_task(&s("acme.bounty"), &bob), Err(ContractError::DeadlineNotReached));
}

#[test]
fn submit_task_does_nothing() {
    Contract::submit_task(s("acme.bounty"), Submission { submission_reference: s("r"), submission_reference_hash: vec![] });
}

#[test]
fn transfer_reward_pays_in_near() {
    let mut c = with_tasks();
    assert_eq!(
        c.transfer_reward_to(&s("acme.bounty"), &s("bob.carbonite.near")),
        Ok(PromiseAction::Transfer { receiver_id: s("bob.carbonite.near"), amount: 7 })
    );
    assert_eq!(c.transfer_reward_to(&s("missing"), &s("bob.carbonite.near")), Err(ContractError::InvalidTask));
    let mut t = c.task_metadata_by_id.remove(&s("acme.bounty")).unwrap();
    t.ft_contract_id = s("usdc.near");
    c.task_metadata_by_id.insert(s("acme.bounty"), t);
    assert_eq!(
        c.transfer_reward_to(&s("acme.bounty"), &s("bob.carbonite.near")),
        Err(ContractError::NotImplemented)
    );
}

// ---- companies and users ----

#[test]
fn edit_company_details_replaces_details() {
    let mut c = with_company();
    let acme = s("Acme-Co.carbonite.near");
    assert_eq!(c.edit_company_details_as(&acme, company("Acme Inc")), Ok(()));
    assert_eq!(c.whitelisted_companies.get(&acme).unwrap().name, "Acme Inc");
    assert_eq!(c.edit_company_details_as(&s("nobody.near"), company("x")), Err(ContractError::InvalidCompany));
    assert!(!c.whitelisted_companies.contains_key(&s("nobody.near")));
    assert_eq!(c.edit_company_details(company("x")), Err(ContractError::InvalidCompany));
    assert_eq!(c.assert_whitelisted_company(&acme), Ok(()));
}

#[test]
fn token_metadata_defaults() {
    let t = TokenMetadata::new_at(s("Bob"), Some(s("about me")), 1234);
    assert_eq!(t.title, "Bob");
    assert_eq!(t.description, Some(s("about me")));
    assert_eq!(t.media, "ipfs://dummy_default_media_link");
    assert_eq!(t.reference, "ipfs://dummy_default_nft_link");
    assert_eq!(t.media_hash, vec![5u8; 32]);
    assert_eq!(t.reference_hash, vec![5u8; 32]);
    assert_eq!(t.issued_at, 1234);
    assert_eq!(t.updated_at, None);
    assert_eq!(t.extra, None);
    assert_eq!(t.carbonite_metadata.xp, 0);
    assert_eq!(t.carbonite_metadata.total_bounty_earned, 0);
    // the mocked clock reads 0
    assert_eq!(TokenMetadata::new(s("Bob"), None).issued_at, 0);
}

#[test]
fn nft_mint_once_per_account() {
    let mut c = fresh();
    let r = c.nft_mint_as(s("bob.carbonite.near"), s("Bob"), None, vec![9u8; 33], "carbonite.near", 77);
    assert_eq!(
        r,
        Ok(PromiseAction::CreateSubAccount {
            account_id: s("bob.carbonite.near"),
            initial_balance: BASE_STORAGE_COST,
            full_access_key: vec![9u8; 33],
        })
    );
    let t = c.tokens_by_account_id.get(&s("bob.carbonite.near")).unwrap();
    assert_eq!(t.title, "Bob");
    assert_eq!(t.issued_at, 77);
    let r = c.nft_mint_as(s("bob.carbonite.near"), s("Bob 2"), None, vec![9u8; 33], "carbonite.near", 78);
    assert_eq!(r, Err(ContractError::AccountExists));
    assert_eq!(c.tokens_by_account_id.get(&s("bob.carbonite.near")).unwrap().title, "Bob");
    let r = c.nft_mint_as(s("b-ob.carbonite.near"), s("x"), None, vec![], "carbonite.near", 78);
    assert_eq!(r, Err(ContractError::InvalidUsername));
    // the mocked runtime runs the contract as alice.near
    let r = c.nft_mint(s("dave.alice.near"), s("Dave"), None, vec![]);
    assert!(r.is_ok());
    assert!(c.tokens_by_account_id.contains_key(&s("dave.alice.near")));
}

#[test]
fn later_ping_gives_same_terminal_state() {
    let mut early = with_tasks();
    let mut late = with_tasks();
    assert_eq!(early.ping_task_at(&s("acme.bounty"), 100), Ok(()));
    assert_eq!(late.ping_task_at(&s("acme.bounty"), 5_000), Ok(()));
    assert_eq!(task_state(&early, "acme.bounty"), task_state(&late, "acme.bounty"));
    assert_eq!(task_state(&late, "acme.bounty"), TaskState::Overdue);
}
