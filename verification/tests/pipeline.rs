use migration_batch::batch::{run_batch, run_batch_limited};
use migration_batch::outcome::{BatchResult, MigratedMint, MigrationError, Outcome, ResultAggregator};
use migration_batch::resolver::{resolve_item, ItemTask, StepResults, TaskState};
use solana_program::bpf_loader_upgradeable::UpgradeableLoaderState;
use solana_program::program_option::COption;
use solana_program::program_pack::Pack;
use solana_program::pubkey::Pubkey;
use spl_token::state::{Account as TokenAccount, AccountState};

/// Serialized token-holding account whose owner is `owner`.
fn token_account_bytes(owner: &Pubkey) -> Vec<u8> {
    let account = TokenAccount {
        mint: Pubkey::new_from_array([1u8; 32]),
        owner: *owner,
        amount: 1,
        delegate: COption::None,
        state: AccountState::Initialized,
        is_native: COption::None,
        delegated_amount: 0,
        close_authority: COption::None,
    };
    let mut buf = vec![0u8; TokenAccount::LEN];
    TokenAccount::pack(account, &mut buf).unwrap();
    buf
}

/// Serialized account of an upgradeable program whose program-data
/// buffer is `buffer`.
fn upgradeable_program_bytes(buffer: &Pubkey) -> Vec<u8> {
    bincode::serialize(&UpgradeableLoaderState::Program {
        programdata_address: *buffer,
    })
    .unwrap()
}

/// Serialized account of a program that is not upgradeable.
fn plain_program_bytes() -> Vec<u8> {
    bincode::serialize(&UpgradeableLoaderState::Uninitialized).unwrap()
}

/// Replies that carry one item through every step successfully.
fn all_ok_steps(owner: &Pubkey, sig: &str) -> StepResults {
    StepResults {
        token_account: Ok("token-account".to_string()),
        token_data: Ok(token_account_bytes(owner)),
        owner_program: Ok("owner-program".to_string()),
        program_data: Ok(plain_program_bytes()),
        submit: Ok(sig.to_string()),
    }
}

#[test]
fn single_item_success() {
    let owner = Pubkey::new_from_array([2u8; 32]);
    let o = resolve_item(
        "mint-1".to_string(),
        "collection".to_string(),
        "rule-set".to_string(),
        all_ok_steps(&owner, "tx-abc"),
    );
    assert_eq!(
        o,
        Outcome::Success {
            mint: "mint-1".to_string(),
            sig: "tx-abc".to_string(),
        }
    );
}

#[test]
fn token_fetch_error_gives_one_failure() {
    let o = resolve_item(
        "mint-1".to_string(),
        "collection".to_string(),
        "rule-set".to_string(),
        StepResults {
            token_account: Ok("token-account".to_string()),
            token_data: Err("token account fetch failed".to_string()),
            owner_program: Ok("unused".to_string()),
            program_data: Ok(plain_program_bytes()),
            submit: Ok("unused-sig".to_string()),
        },
    );
    assert_eq!(
        o,
        Outcome::Failure {
            mint: "mint-1".to_string(),
            error: "token account fetch failed".to_string(),
        }
    );
}

#[test]
fn undecodable_token_account_fails_decode() {
    // Garbage bytes cannot be a token-holding record: the decode step
    // must fail, not hand anything through.
    let o = resolve_item(
        "mint-1".to_string(),
        "collection".to_string(),
        "rule-set".to_string(),
        StepResults {
            token_account: Ok("token-account".to_string()),
            token_data: Ok(vec![0u8; 10]),
            owner_program: Ok("unused".to_string()),
            program_data: Ok(plain_program_bytes()),
            submit: Ok("unused-sig".to_string()),
        },
    );
    match o {
        Outcome::Failure { mint, error } => {
            assert_eq!(mint, "mint-1");
            assert!(!error.is_empty());
        }
        Outcome::Success { .. } => panic!("garbage token data must not succeed"),
    }
}

#[test]
fn decoded_owner_reaches_submission_args() {
    // The owner recorded in the token account must come back out as the
    // base58 address in the submission arguments.
    let owner = Pubkey::new_from_array([3u8; 32]);
    let t = ItemTask::begin(
        "mint-1".to_string(),
        "collection".to_string(),
        "rule-set".to_string(),
    );
    let t = t.on_token_account(Ok("token-account".to_string()));
    let t = t.on_token_data(Ok(token_account_bytes(&owner)));
    let t = t.on_owner_program(Ok("owner-program".to_string()));
    let t = t.on_program_data(Ok(plain_program_bytes()));
    match t.state {
        TaskState::AwaitSubmission { args } => {
            assert_eq!(args.item_mint, "mint-1");
            assert_eq!(args.item_token, "token-account");
            assert_eq!(args.token_owner, owner.to_string());
            assert_eq!(args.token_owner_program, "owner-program");
            assert_eq!(args.token_owner_program_buffer, None);
            assert_eq!(args.collection_mint, "collection");
            assert_eq!(args.rule_set, "rule-set");
        }
        _ => panic!("expected the task to await submission"),
    }
}

#[test]
fn upgradeable_owner_program_forwards_buffer() {
    // An upgradeable owner program designates a program-data buffer, and
    // the submission call must receive exactly that address.
    let owner = Pubkey::new_from_array([4u8; 32]);
    let buffer = Pubkey::new_from_array([5u8; 32]);
    let t = ItemTask::begin(
        "item-x".to_string(),
        "collection".to_string(),
        "rule-set".to_string(),
    );
    let t = t.on_token_account(Ok("token-account".to_string()));
    let t = t.on_token_data(Ok(token_account_bytes(&owner)));
    let t = t.on_owner_program(Ok("owner-program".to_string()));
    let t = t.on_program_data(Ok(upgradeable_program_bytes(&buffer)));
    match &t.state {
        TaskState::AwaitSubmission { args } => {
            assert_eq!(args.token_owner_program_buffer, Some(buffer.to_string()));
        }
        _ => panic!("expected the task to await submission"),
    }
    let t = t.on_submitted(Ok("tx-x".to_string()));
    match t.state {
        TaskState::Finished { outcome } => assert_eq!(
            outcome,
            Outcome::Success {
                mint: "item-x".to_string(),
                sig: "tx-x".to_string(),
            }
        ),
        _ => panic!("expected the task to be finished"),
    }
}

#[test]
fn non_upgradeable_owner_program_is_not_a_failure() {
    // Absence of a program-data buffer is a normal outcome: resolution
    // proceeds to submission with an absent buffer.
    let owner = Pubkey::new_from_array([6u8; 32]);
    let t = ItemTask::begin(
        "item-x".to_string(),
        "collection".to_string(),
        "rule-set".to_string(),
    );
    let t = t.on_token_account(Ok("token-account".to_string()));
    let t = t.on_token_data(Ok(token_account_bytes(&owner)));
    let t = t.on_owner_program(Ok("owner-program".to_string()));
    let t = t.on_program_data(Ok(plain_program_bytes()));
    match &t.state {
        TaskState::AwaitSubmission { args } => {
            assert_eq!(args.token_owner_program_buffer, None);
        }
        _ => panic!("a non-upgradeable owner program must not fail the item"),
    }
}

fn three_item_batch() -> (Vec<String>, Vec<StepResults>) {
    let owner = Pubkey::new_from_array([7u8; 32]);
    let mints = vec!["A".to_string(), "B".to_string(), "C".to_string()];
    let steps = vec![
        all_ok_steps(&owner, "tx1"),
        StepResults {
            token_account: Ok("token-b".to_string()),
            token_data: Ok(token_account_bytes(&owner)),
            owner_program: Err("owner account fetch failed".to_string()),
            program_data: Ok(plain_program_bytes()),
            submit: Ok("tx2".to_string()),
        },
        all_ok_steps(&owner, "tx3"),
    ];
    (mints, steps)
}

#[test]
fn scenario_middle_item_owner_fetch_fails() {
    let (mints, steps) = three_item_batch();
    let r = run_batch(
        Ok("rule-set".to_string()),
        &"collection".to_string(),
        mints,
        steps,
    )
    .unwrap();
    assert_eq!(
        r.migrated,
        vec![
            MigratedMint {
                sig: "tx1".to_string(),
                item_mint: "A".to_string(),
            },
            MigratedMint {
                sig: "tx3".to_string(),
                item_mint: "C".to_string(),
            },
        ]
    );
    assert_eq!(
        r.failed,
        vec![MigrationError {
            mint: "B".to_string(),
            error: "owner account fetch failed".to_string(),
        }]
    );
}

#[test]
fn every_item_yields_exactly_one_outcome() {
    let (mints, steps) = three_item_batch();
    let n = mints.len();
    let r = run_batch(
        Ok("rule-set".to_string()),
        &"collection".to_string(),
        mints,
        steps,
    )
    .unwrap();
    assert_eq!(r.migrated.len() + r.failed.len(), n);
    let mut seen: Vec<String> = r.migrated.iter().map(|m| m.item_mint.clone()).collect();
    seen.extend(r.failed.iter().map(|f| f.mint.clone()));
    seen.sort();
    assert_eq!(seen, vec!["A".to_string(), "B".to_string(), "C".to_string()]);
}

#[test]
fn lookup_failure_aborts_before_any_item() {
    let (mints, steps) = three_item_batch();
    let r = run_batch(
        Err("migration state not found".to_string()),
        &"collection".to_string(),
        mints,
        steps,
    );
    assert_eq!(r, Err("migration state not found".to_string()));
}

#[test]
fn concurrency_limit_does_not_change_result() {
    let (mints, steps) = three_item_batch();
    let wide = run_batch_limited(
        Ok("rule-set".to_string()),
        &"collection".to_string(),
        mints,
        steps,
        100,
    )
    .unwrap();
    let (mints, steps) = three_item_batch();
    let sequential = run_batch_limited(
        Ok("rule-set".to_string()),
        &"collection".to_string(),
        mints,
        steps,
        1,
    )
    .unwrap();
    assert_eq!(wide, sequential);
    assert_eq!(wide.migrated.len() + wide.failed.len(), 3);
}

#[test]
fn aggregator_partitions_outcomes() {
    let mut agg = ResultAggregator::new();
    agg.record(Outcome::Success {
        mint: "m1".to_string(),
        sig: "s1".to_string(),
    });
    agg.record(Outcome::Failure {
        mint: "m2".to_string(),
        error: "e2".to_string(),
    });
    agg.record(Outcome::Success {
        mint: "m3".to_string(),
        sig: "s3".to_string(),
    });
    let r: BatchResult = agg.finalize();
    assert_eq!(r.migrated.len(), 2);
    assert_eq!(r.failed.len(), 1);
    assert_eq!(r.migrated[0].item_mint, "m1");
    assert_eq!(r.migrated[1].item_mint, "m3");
    assert_eq!(r.failed[0].mint, "m2");
    assert_eq!(r.failed[0].error, "e2");
}

#[test]
fn submission_error_gives_failure() {
    let owner = Pubkey::new_from_array([8u8; 32]);
    let mut steps = all_ok_steps(&owner, "unused");
    steps.submit = Err("submission rejected".to_string());
    let o = resolve_item(
        "mint-1".to_string(),
        "collection".to_string(),
        "rule-set".to_string(),
        steps,
    );
    assert_eq!(
        o,
        Outcome::Failure {
            mint: "mint-1".to_string(),
            error: "submission rejected".to_string(),
        }
    );
}
