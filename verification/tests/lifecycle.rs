use scrape::client::{create_client, Client};
use scrape::endpoint_node::create_endpoint_node;
use scrape::error::ErrorCode;
use scrape::identity::Identity;
use scrape::node_registry::node_registry_initialize;
use scrape::provider_node::create_node;
use scrape::task::{
    assign_task_by_endpoint, close_task, complete_task, create_task, TaskStatus,
};
use scrape::token::{init_token_vault, TokenAccount};

fn id(key: u64) -> Identity {
    Identity { key }
}

#[test]
fn create_task_moves_reward_atomically() {
    // Creating a task with reward R leaves the funding balance reduced by
    // exactly R and the custodial balance increased by exactly R.
    let client_id = id(1);
    let mut client = create_client(None, client_id);
    let endpoint = create_endpoint_node(None, client_id).unwrap();
    let mut vault = init_token_vault(None, id(9), id(100)).unwrap();
    let mut vault_token = TokenAccount { owner: id(100), amount: 250 };
    let mut user_token = TokenAccount { owner: client_id, amount: 1_500 };

    let task = create_task(
        &mut client,
        &endpoint,
        &mut vault,
        &mut vault_token,
        &mut user_token,
        client_id,
        "https://example.com".to_string(),
        "all".to_string(),
        "none".to_string(),
        "jsonl".to_string(),
        1_000,
    )
    .unwrap();

    assert_eq!(user_token.amount, 500);
    assert_eq!(vault_token.amount, 1_250);
    assert_eq!(task.reward, 1_000);
    assert_eq!(task.id, 0);
    assert_eq!(task.status, TaskStatus::Pending);
    assert!(task.node_assigned.is_none());
    assert!(task.ipfs_hash.is_none());
    assert_eq!(task.dataset_size, 0);
    assert_eq!(client.task_counter, 1);
    assert_eq!(vault.total_rewards_distributed, 0);
}

#[test]
fn create_task_rejected_leaves_balances_untouched() {
    // A failed creation shows no intermediate state: neither side of the
    // transfer moved.
    let client_id = id(1);
    let mut client = create_client(None, client_id);
    let endpoint = create_endpoint_node(None, client_id).unwrap();
    let mut vault = init_token_vault(None, id(9), id(100)).unwrap();
    let mut vault_token = TokenAccount { owner: id(100), amount: 250 };
    let mut user_token = TokenAccount { owner: client_id, amount: 999 };

    let r = create_task(
        &mut client,
        &endpoint,
        &mut vault,
        &mut vault_token,
        &mut user_token,
        client_id,
        "https://example.com".to_string(),
        "all".to_string(),
        "none".to_string(),
        "jsonl".to_string(),
        1_000,
    );

    assert_eq!(r.unwrap_err(), ErrorCode::InsufficientFunds);
    assert_eq!(user_token.amount, 999);
    assert_eq!(vault_token.amount, 250);
    assert_eq!(client.task_counter, 0);
}

#[test]
fn full_lifecycle_pays_provider_and_updates_totals() {
    // Client creates a task with reward 1000; the registry lists the active
    // provider; the endpoint owner assigns; the provider completes with
    // reference "r1". The provider's reward account grows by 1000, the
    // vault's distributed total by 1000, the reputation by 10, and the
    // dataset size is recorded.
    let client_id = id(1);
    let provider_id = id(2);
    let mut client = create_client(None, client_id);
    let endpoint = create_endpoint_node(None, client_id).unwrap();
    let mut registry = node_registry_initialize(None).unwrap();
    let mut vault = init_token_vault(None, id(9), id(100)).unwrap();
    let mut vault_token = TokenAccount { owner: id(100), amount: 0 };
    let mut user_token = TokenAccount { owner: client_id, amount: 5_000 };
    let provider_token = TokenAccount { owner: provider_id, amount: 0 };

    let mut provider = create_node(
        None,
        &mut registry,
        provider_id,
        [10, 0, 0, 1],
        8080,
        8081,
        10_000,
        &provider_token,
    )
    .unwrap();
    assert!(provider.active);
    assert!(registry.contains_node(provider_id));

    let mut task = create_task(
        &mut client,
        &endpoint,
        &mut vault,
        &mut vault_token,
        &mut user_token,
        client_id,
        "https://example.com".to_string(),
        "all".to_string(),
        "none".to_string(),
        "jsonl".to_string(),
        1_000,
    )
    .unwrap();

    assign_task_by_endpoint(&mut task, &endpoint, &registry, &provider, client_id).unwrap();
    assert_eq!(task.status, TaskStatus::Assigned);
    assert_eq!(task.node_assigned, Some(provider_id));

    let mut node_token = provider_token;
    complete_task(
        &mut task,
        &mut provider,
        &mut vault,
        &mut vault_token,
        &mut node_token,
        provider_id,
        "r1".to_string(),
        42,
    )
    .unwrap();

    assert_eq!(task.status, TaskStatus::Completed);
    assert_eq!(task.ipfs_hash.as_deref(), Some("r1"));
    assert_eq!(task.dataset_size, 42);
    assert_eq!(node_token.amount, 1_000);
    assert_eq!(vault_token.amount, 0);
    assert_eq!(vault.total_rewards_distributed, 1_000);
    assert_eq!(vault.bandwidth_used, 42);
    assert_eq!(provider.reputation, 10);
    assert_eq!(provider.bandwidth_used, 42);
}

#[test]
fn status_never_decreases_across_the_lifecycle() {
    // Pending(0) <= Assigned(1) <= Completed(2): each observed status is at
    // least the one before it, and a repeated transition attempt cannot move
    // the task backwards.
    fn rank(s: TaskStatus) -> u8 {
        match s {
            TaskStatus::Pending => 0,
            TaskStatus::Assigned => 1,
            TaskStatus::Completed => 2,
        }
    }

    let client_id = id(1);
    let provider_id = id(2);
    let mut client = create_client(None, client_id);
    let endpoint = create_endpoint_node(None, client_id).unwrap();
    let mut registry = node_registry_initialize(None).unwrap();
    let mut vault = init_token_vault(None, id(9), id(100)).unwrap();
    let mut vault_token = TokenAccount { owner: id(100), amount: 0 };
    let mut user_token = TokenAccount { owner: client_id, amount: 100 };
    let provider_token = TokenAccount { owner: provider_id, amount: 0 };
    let mut provider = create_node(
        None,
        &mut registry,
        provider_id,
        [10, 0, 0, 1],
        1,
        2,
        100,
        &provider_token,
    )
    .unwrap();

    let mut task = create_task(
        &mut client,
        &endpoint,
        &mut vault,
        &mut vault_token,
        &mut user_token,
        client_id,
        "u".to_string(),
        "f".to_string(),
        "l".to_string(),
        "j".to_string(),
        10,
    )
    .unwrap();
    let mut observed = vec![rank(task.status)];

    assign_task_by_endpoint(&mut task, &endpoint, &registry, &provider, client_id).unwrap();
    observed.push(rank(task.status));

    // A second assignment attempt is refused and changes nothing.
    let r = assign_task_by_endpoint(&mut task, &endpoint, &registry, &provider, client_id);
    assert_eq!(r.unwrap_err(), ErrorCode::TaskNotAssigned);
    observed.push(rank(task.status));

    let mut node_token = provider_token;
    complete_task(
        &mut task,
        &mut provider,
        &mut vault,
        &mut vault_token,
        &mut node_token,
        provider_id,
        "r1".to_string(),
        1,
    )
    .unwrap();
    observed.push(rank(task.status));

    for pair in observed.windows(2) {
        assert!(pair[0] <= pair[1]);
    }
}

#[test]
fn close_task_refunds_undisbursed_escrow() {
    let client_id = id(1);
    let mut client = create_client(None, client_id);
    let endpoint = create_endpoint_node(None, client_id).unwrap();
    let mut vault = init_token_vault(None, id(9), id(100)).unwrap();
    let mut vault_token = TokenAccount { owner: id(100), amount: 0 };
    let mut user_token = TokenAccount { owner: client_id, amount: 300 };

    let task = create_task(
        &mut client,
        &endpoint,
        &mut vault,
        &mut vault_token,
        &mut user_token,
        client_id,
        "u".to_string(),
        "f".to_string(),
        "l".to_string(),
        "j".to_string(),
        300,
    )
    .unwrap();
    assert_eq!(user_token.amount, 0);
    assert_eq!(vault_token.amount, 300);

    // The task never completed, so closing it returns the whole escrow.
    close_task(&task, &vault, &mut vault_token, &mut user_token, client_id).unwrap();
    assert_eq!(user_token.amount, 300);
    assert_eq!(vault_token.amount, 0);
}

#[test]
fn close_task_after_completion_moves_nothing() {
    let client_id = id(1);
    let provider_id = id(2);
    let mut client = create_client(None, client_id);
    let endpoint = create_endpoint_node(None, client_id).unwrap();
    let mut registry = node_registry_initialize(None).unwrap();
    let mut vault = init_token_vault(None, id(9), id(100)).unwrap();
    let mut vault_token = TokenAccount { owner: id(100), amount: 0 };
    let mut user_token = TokenAccount { owner: client_id, amount: 50 };
    let provider_token = TokenAccount { owner: provider_id, amount: 0 };
    let mut provider = create_node(
        None,
        &mut registry,
        provider_id,
        [1, 2, 3, 4],
        1,
        2,
        100,
        &provider_token,
    )
    .unwrap();

    let mut task = create_task(
        &mut client,
        &endpoint,
        &mut vault,
        &mut vault_token,
        &mut user_token,
        client_id,
        "u".to_string(),
        "f".to_string(),
        "l".to_string(),
        "j".to_string(),
        50,
    )
    .unwrap();
    assign_task_by_endpoint(&mut task, &endpoint, &registry, &provider, client_id).unwrap();
    let mut node_token = provider_token;
    complete_task(
        &mut task,
        &mut provider,
        &mut vault,
        &mut vault_token,
        &mut node_token,
        provider_id,
        "r1".to_string(),
        1,
    )
    .unwrap();

    let vault_before = vault_token.amount;
    let user_before = user_token.amount;
    close_task(&task, &vault, &mut vault_token, &mut user_token, client_id).unwrap();
    assert_eq!(vault_token.amount, vault_before);
    assert_eq!(user_token.amount, user_before);
}

#[test]
fn task_ids_advance_with_the_client_counter() {
    let client_id = id(1);
    let mut client = create_client(None, client_id);
    let endpoint = create_endpoint_node(None, client_id).unwrap();
    let mut vault = init_token_vault(None, id(9), id(100)).unwrap();
    let mut vault_token = TokenAccount { owner: id(100), amount: 0 };
    let mut user_token = TokenAccount { owner: client_id, amount: 100 };

    for expected_id in 0..3u64 {
        let task = create_task(
            &mut client,
            &endpoint,
            &mut vault,
            &mut vault_token,
            &mut user_token,
            client_id,
            "u".to_string(),
            "f".to_string(),
            "l".to_string(),
            "j".to_string(),
            10,
        )
        .unwrap();
        assert_eq!(task.id, expected_id);
        assert_eq!(client.task_counter, expected_id + 1);
    }
}
