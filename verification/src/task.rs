//! The task lifecycle state machine and its coupled escrow accounting.
//!
//! A task moves forward-only through `Pending -> Assigned -> Completed`.
//! Creation escrows the reward into the vault's custodial account; completion
//! pays it out to the completing provider and updates the provider's usage
//! and reputation together with the vault's aggregate counters. Closing a
//! task refunds whatever escrow was not yet disbursed.

use vstd::prelude::*;
use vstd::string::StrSliceExecFns;

use crate::client::Client;
use crate::endpoint_node::EndpointNode;
use crate::error::ErrorCode;
use crate::identity::Identity;
use crate::node_registry::NodeRegistry;
use crate::provider_node::ProviderNode;
use crate::token::{transfer, TokenAccount, TokenVault};

verus! {

/// Maximum characters of a task's URL.
pub const MAX_URL_LEN: usize = 256;

/// Maximum characters of a task's semantic filter.
pub const MAX_FILTER_LEN: usize = 256;

/// Maximum characters of a task's labelling instruction.
pub const MAX_LABEL_LEN: usize = 256;

/// Maximum characters of a task's output format name.
pub const MAX_FORMAT_LEN: usize = 32;

/// Maximum characters of a completed task's result reference.
pub const MAX_RESULT_LEN: usize = 256;

/// Reputation a provider earns for each completed task.
pub const TASK_REPUTATION_REWARD: u64 = 10;

/// Lifecycle states of a task, in transition order.
#[derive(Clone, Copy, Debug, PartialEq, Eq, Structural)]
pub enum TaskStatus {
    /// Created, escrow locked, not yet assigned to a provider.
    Pending,
    /// Assigned to a provider node.
    Assigned,
    /// Completed; the result reference and dataset size are recorded.
    Completed,
}

impl Default for TaskStatus {
    /// A task starts its life pending.
    fn default() -> (s: Self)
        ensures
            s == TaskStatus::Pending,
    {
        TaskStatus::Pending
    }
}

/// Position of a status in the forward-only transition order.
pub open spec fn status_rank(s: TaskStatus) -> int {
    match s {
        TaskStatus::Pending => 0,
        TaskStatus::Assigned => 1,
        TaskStatus::Completed => 2,
    }
}

/// Whether `b` is the same state as `a` or a later one.
pub open spec fn status_le(a: TaskStatus, b: TaskStatus) -> bool {
    status_rank(a) <= status_rank(b)
}

/// The unit of work: created by a client against an escrowed reward,
/// assigned to a provider, completed with a result reference.
#[derive(Clone, Debug)]
pub struct Task {
    /// Sequence number within the creating client; with the owner it derives
    /// the task's unique address.
    pub id: u64,
    /// Identity of the creating client.
    pub owner: Identity,
    /// Owner identity of the endpoint node designated for routing; gates the
    /// endpoint assignment path.
    pub endpoint_node: Identity,
    /// URL to scrape.
    pub url: String,
    /// Semantic filter applied to the scraped content.
    pub filter: String,
    /// Labelling instruction for the result.
    pub label: String,
    /// Output format of the dataset.
    pub format: String,
    /// Reward escrowed at creation and paid out at completion.
    pub reward: u64,
    /// Current lifecycle state.
    pub status: TaskStatus,
    /// The provider working the task, present exactly when the task has left
    /// `Pending`.
    pub node_assigned: Option<Identity>,
    /// Reference to the delivered dataset, present exactly when completed.
    pub ipfs_hash: Option<String>,
    /// Size of the delivered dataset in size units; zero until completion.
    pub dataset_size: u64,
}

impl Task {
    /// The combinations of fields a task may legally hold: the assignment and
    /// result fields match the status, the dataset size appears only at
    /// completion, and every text field is within its fixed bound.
    pub open spec fn wf(&self) -> bool {
        &&& self.node_assigned is Some <==> !(self.status is Pending)
        &&& self.ipfs_hash is Some <==> self.status is Completed
        &&& !(self.status is Completed) ==> self.dataset_size == 0
        &&& self.url@.len() <= MAX_URL_LEN
        &&& self.filter@.len() <= MAX_FILTER_LEN
        &&& self.label@.len() <= MAX_LABEL_LEN
        &&& self.format@.len() <= MAX_FORMAT_LEN
        &&& self.ipfs_hash matches Some(h) ==> h@.len() <= MAX_RESULT_LEN
    }

    /// Runtime check of [`Task::wf`], for callers outside the verified core
    /// that must establish it before an operation.
    pub fn is_wf(&self) -> (r: bool)
        ensures
            r == self.wf(),
    {
        let pending = self.status == TaskStatus::Pending;
        let completed = self.status == TaskStatus::Completed;
        let assignment_ok = self.node_assigned.is_some() == !pending;
        let result_ok = self.ipfs_hash.is_some() == completed;
        let size_ok = completed || self.dataset_size == 0;
        let bounds_ok = self.url.as_str().unicode_len() <= MAX_URL_LEN
            && self.filter.as_str().unicode_len() <= MAX_FILTER_LEN
            && self.label.as_str().unicode_len() <= MAX_LABEL_LEN
            && self.format.as_str().unicode_len() <= MAX_FORMAT_LEN;
        let reference_ok = match &self.ipfs_hash {
            Some(h) => h.as_str().unicode_len() <= MAX_RESULT_LEN,
            None => true,
        };
        assignment_ok && result_ok && size_ok && bounds_ok && reference_ok
    }
}

/// Which check rejects a task creation, if any, in check order.
pub open spec fn create_task_check(
    client: Client,
    vault: TokenVault,
    vault_token: TokenAccount,
    user_token: TokenAccount,
    caller: Identity,
    url: Seq<char>,
    filter: Seq<char>,
    label: Seq<char>,
    format: Seq<char>,
    reward: u64,
) -> Option<ErrorCode> {
    if caller != client.owner {
        Some(ErrorCode::UnauthorizedNode)
    } else if user_token.owner != caller {
        Some(ErrorCode::InvalidTokenAccount)
    } else if vault_token.owner != vault.token_account {
        Some(ErrorCode::InvalidTokenAccount)
    } else if url.len() > MAX_URL_LEN || filter.len() > MAX_FILTER_LEN
        || label.len() > MAX_LABEL_LEN || format.len() > MAX_FORMAT_LEN {
        Some(ErrorCode::StringTooLong)
    } else if user_token.amount < reward {
        Some(ErrorCode::InsufficientFunds)
    } else if vault_token.amount + reward > u64::MAX
        || client.task_counter + 1 > u64::MAX
        || vault.bandwidth_paid + reward > u64::MAX {
        Some(ErrorCode::ArithmeticOverflow)
    } else {
        None
    }
}

/// Create a task, escrowing exactly `reward` from the caller's funding
/// account into the vault's custodial account.
///
/// The task takes the client's counter as its id and the counter advances by
/// one, so task addresses derived from `(owner, id)` stay unique. The
/// transfer and the record come into being together: on any failure no value
/// has moved and no record exists. A funding balance short of `reward` is
/// refused as insufficient funds.
pub fn create_task(
    client: &mut Client,
    endpoint: &EndpointNode,
    vault: &mut TokenVault,
    vault_token: &mut TokenAccount,
    user_token: &mut TokenAccount,
    caller: Identity,
    url: String,
    filter: String,
    label: String,
    format: String,
    reward: u64,
) -> (r: Result<Task, ErrorCode>)
    ensures
        create_task_check(
            *old(client), *old(vault), *old(vault_token), *old(user_token),
            caller, url@, filter@, label@, format@, reward,
        ) matches Some(e) ==> {
            &&& r == Err::<Task, ErrorCode>(e)
            &&& *final(client) == *old(client)
            &&& *final(vault) == *old(vault)
            &&& *final(vault_token) == *old(vault_token)
            &&& *final(user_token) == *old(user_token)
        },
        create_task_check(
            *old(client), *old(vault), *old(vault_token), *old(user_token),
            caller, url@, filter@, label@, format@, reward,
        ) is None ==> {
            &&& r matches Ok(t)
            &&& t == (Task {
                id: old(client).task_counter,
                owner: caller,
                endpoint_node: endpoint.owner,
                url,
                filter,
                label,
                format,
                reward,
                status: TaskStatus::Pending,
                node_assigned: None,
                ipfs_hash: None,
                dataset_size: 0,
            })
            &&& t.wf()
            &&& *final(client) == (Client {
                task_counter: (old(client).task_counter + 1) as u64,
                ..*old(client)
            })
            &&& *final(user_token) == (TokenAccount {
                amount: (old(user_token).amount - reward) as u64,
                ..*old(user_token)
            })
            &&& *final(vault_token) == (TokenAccount {
                amount: (old(vault_token).amount + reward) as u64,
                ..*old(vault_token)
            })
            &&& *final(vault) == (TokenVault {
                bandwidth_paid: (old(vault).bandwidth_paid + reward) as u64,
                ..*old(vault)
            })
        },
        final(vault).total_rewards_distributed == old(vault).total_rewards_distributed,
        final(client).task_counter >= old(client).task_counter,
        final(vault).bandwidth_paid >= old(vault).bandwidth_paid,
        final(user_token).amount + final(vault_token).amount
            == old(user_token).amount + old(vault_token).amount,
{
    if caller != client.owner {
        return Err(ErrorCode::UnauthorizedNode);
    }
    if user_token.owner != caller {
        return Err(ErrorCode::InvalidTokenAccount);
    }
    if vault_token.owner != vault.token_account {
        return Err(ErrorCode::InvalidTokenAccount);
    }
    if url.as_str().unicode_len() > MAX_URL_LEN
        || filter.as_str().unicode_len() > MAX_FILTER_LEN
        || label.as_str().unicode_len() > MAX_LABEL_LEN
        || format.as_str().unicode_len() > MAX_FORMAT_LEN
    {
        return Err(ErrorCode::StringTooLong);
    }
    if user_token.amount < reward {
        return Err(ErrorCode::InsufficientFunds);
    }
    if vault_token.amount > u64::MAX - reward
        || client.task_counter == u64::MAX
        || vault.bandwidth_paid > u64::MAX - reward
    {
        return Err(ErrorCode::ArithmeticOverflow);
    }
    match transfer(user_token, vault_token, reward) {
        Ok(()) => {}
        Err(e) => {
            return Err(e);
        }
    }
    let task_id = client.task_counter;
    client.task_counter = client.task_counter + 1;
    vault.bandwidth_paid = vault.bandwidth_paid + reward;
    Ok(Task {
        id: task_id,
        owner: caller,
        endpoint_node: endpoint.owner,
        url,
        filter,
        label,
        format,
        reward,
        status: TaskStatus::Pending,
        node_assigned: None,
        ipfs_hash: None,
        dataset_size: 0,
    })
}

/// Which check rejects a direct assignment, if any, in check order.
pub open spec fn assign_check(task: Task, node: ProviderNode) -> Option<ErrorCode> {
    if !(task.status is Pending) {
        Some(ErrorCode::TaskNotAssigned)
    } else if !node.active {
        Some(ErrorCode::InactiveNode)
    } else {
        None
    }
}

/// Assign a pending task directly to an active provider node.
///
/// The direct path deliberately checks no caller identity; the endpoint path
/// below is the stricter, intended production route, and this open variant
/// should be gated or removed before relying on it.
pub fn assign_task(task: &mut Task, node: &ProviderNode) -> (r: Result<(), ErrorCode>)
    requires
        old(task).wf(),
    ensures
        assign_check(*old(task), *node) matches Some(e)
            ==> r == Err::<(), ErrorCode>(e) && *final(task) == *old(task),
        assign_check(*old(task), *node) is None ==> r is Ok && *final(task) == (Task {
            status: TaskStatus::Assigned,
            node_assigned: Some(node.owner),
            ..*old(task)
        }),
        final(task).wf(),
        status_le(old(task).status, final(task).status),
{
    if !(task.status == TaskStatus::Pending) {
        return Err(ErrorCode::TaskNotAssigned);
    }
    if !node.active {
        return Err(ErrorCode::InactiveNode);
    }
    task.node_assigned = Some(node.owner);
    task.status = TaskStatus::Assigned;
    Ok(())
}

/// Which check rejects an endpoint-gated assignment, if any, in check order.
pub open spec fn assign_by_endpoint_check(
    task: Task,
    endpoint: EndpointNode,
    registry_nodes: Seq<Identity>,
    node: ProviderNode,
    caller: Identity,
) -> Option<ErrorCode> {
    if task.endpoint_node != endpoint.owner {
        Some(ErrorCode::UnauthorizedNode)
    } else if !(task.status is Pending) {
        Some(ErrorCode::TaskNotAssigned)
    } else if endpoint.owner != caller {
        Some(ErrorCode::UnauthorizedNode)
    } else if !node.active {
        Some(ErrorCode::InactiveNode)
    } else if !registry_nodes.contains(node.owner) {
        Some(ErrorCode::ProviderNotRegistered)
    } else {
        None
    }
}

/// Assign a pending task through its designated endpoint.
///
/// The endpoint must be the one the task recorded and must be owned by the
/// calling signer; the provider must be active and listed in the registry.
/// A provider absent from the registry is refused even if its record exists
/// and is active. On success the effect is identical to the direct path.
pub fn assign_task_by_endpoint(
    task: &mut Task,
    endpoint: &EndpointNode,
    registry: &NodeRegistry,
    node: &ProviderNode,
    caller: Identity,
) -> (r: Result<(), ErrorCode>)
    requires
        old(task).wf(),
    ensures
        assign_by_endpoint_check(*old(task), *endpoint, registry@, *node, caller)
            matches Some(e) ==> r == Err::<(), ErrorCode>(e) && *final(task) == *old(task),
        assign_by_endpoint_check(*old(task), *endpoint, registry@, *node, caller)
            is None ==> r is Ok && *final(task) == (Task {
                status: TaskStatus::Assigned,
                node_assigned: Some(node.owner),
                ..*old(task)
            }),
        !registry@.contains(node.owner) ==> r is Err && *final(task) == *old(task),
        final(task).wf(),
        status_le(old(task).status, final(task).status),
{
    if task.endpoint_node != endpoint.owner {
        return Err(ErrorCode::UnauthorizedNode);
    }
    if !(task.status == TaskStatus::Pending) {
        return Err(ErrorCode::TaskNotAssigned);
    }
    if endpoint.owner != caller {
        return Err(ErrorCode::UnauthorizedNode);
    }
    if !node.active {
        return Err(ErrorCode::InactiveNode);
    }
    if !registry.contains_node(node.owner) {
        return Err(ErrorCode::ProviderNotRegistered);
    }
    task.node_assigned = Some(node.owner);
    task.status = TaskStatus::Assigned;
    Ok(())
}

/// Which check rejects a completion, if any, in check order.
pub open spec fn complete_task_check(
    task: Task,
    node: ProviderNode,
    vault: TokenVault,
    vault_token: TokenAccount,
    node_token: TokenAccount,
    caller: Identity,
    ipfs_hash: Seq<char>,
    dataset_size: u64,
) -> Option<ErrorCode> {
    if !(task.status is Assigned) {
        Some(ErrorCode::TaskNotAssigned)
    } else if task.node_assigned != Some(node.owner) {
        Some(ErrorCode::UnauthorizedNode)
    } else if caller != node.owner {
        Some(ErrorCode::UnauthorizedNode)
    } else if ipfs_hash.len() > MAX_RESULT_LEN {
        Some(ErrorCode::StringTooLong)
    } else if node_token.owner != node.owner {
        Some(ErrorCode::InvalidTokenAccount)
    } else if vault_token.owner != vault.token_account {
        Some(ErrorCode::InvalidTokenAccount)
    } else if vault_token.amount < task.reward {
        Some(ErrorCode::InsufficientFunds)
    } else if node_token.amount + task.reward > u64::MAX
        || node.bandwidth_used + dataset_size > u64::MAX
        || node.reputation + TASK_REPUTATION_REWARD > u64::MAX
        || vault.total_rewards_distributed + task.reward > u64::MAX
        || vault.bandwidth_used + dataset_size > u64::MAX {
        Some(ErrorCode::ArithmeticOverflow)
    } else {
        None
    }
}

/// Complete an assigned task: record the result, pay the provider, and
/// update the usage, reputation and vault aggregates.
///
/// Only the assigned provider's owner may complete. Exactly the escrowed
/// reward moves from the vault's custodial account to the provider's reward
/// account; the provider's bandwidth grows by the reported dataset size and
/// its reputation by the fixed increment; the vault's distributed total and
/// bandwidth counters grow in step. All of it happens together or not at
/// all.
pub fn complete_task(
    task: &mut Task,
    node: &mut ProviderNode,
    vault: &mut TokenVault,
    vault_token: &mut TokenAccount,
    node_token: &mut TokenAccount,
    caller: Identity,
    ipfs_hash: String,
    dataset_size: u64,
) -> (r: Result<(), ErrorCode>)
    requires
        old(task).wf(),
    ensures
        complete_task_check(
            *old(task), *old(node), *old(vault), *old(vault_token), *old(node_token),
            caller, ipfs_hash@, dataset_size,
        ) matches Some(e) ==> {
            &&& r == Err::<(), ErrorCode>(e)
            &&& *final(task) == *old(task)
            &&& *final(node) == *old(node)
            &&& *final(vault) == *old(vault)
            &&& *final(vault_token) == *old(vault_token)
            &&& *final(node_token) == *old(node_token)
        },
        complete_task_check(
            *old(task), *old(node), *old(vault), *old(vault_token), *old(node_token),
            caller, ipfs_hash@, dataset_size,
        ) is None ==> {
            &&& r is Ok
            &&& *final(task) == (Task {
                status: TaskStatus::Completed,
                ipfs_hash: Some(ipfs_hash),
                dataset_size,
                ..*old(task)
            })
            &&& *final(node) == (ProviderNode {
                bandwidth_used: (old(node).bandwidth_used + dataset_size) as u64,
                reputation: (old(node).reputation + TASK_REPUTATION_REWARD) as u64,
                ..*old(node)
            })
            &&& *final(vault) == (TokenVault {
                total_rewards_distributed:
                    (old(vault).total_rewards_distributed + old(task).reward) as u64,
                bandwidth_used: (old(vault).bandwidth_used + dataset_size) as u64,
                ..*old(vault)
            })
            &&& *final(vault_token) == (TokenAccount {
                amount: (old(vault_token).amount - old(task).reward) as u64,
                ..*old(vault_token)
            })
            &&& *final(node_token) == (TokenAccount {
                amount: (old(node_token).amount + old(task).reward) as u64,
                ..*old(node_token)
            })
        },
        final(task).wf(),
        status_le(old(task).status, final(task).status),
        final(vault).total_rewards_distributed == old(vault).total_rewards_distributed
            + if r is Ok { old(task).reward as int } else { 0 },
        final(node).bandwidth_used >= old(node).bandwidth_used,
        final(node).reputation >= old(node).reputation,
        final(node).rewards == old(node).rewards,
        final(vault).bandwidth_used >= old(vault).bandwidth_used,
        final(vault_token).amount + final(node_token).amount
            == old(vault_token).amount + old(node_token).amount,
{
    if !(task.status == TaskStatus::Assigned) {
        return Err(ErrorCode::TaskNotAssigned);
    }
    let assigned_to_node = match task.node_assigned {
        Some(assignee) => assignee == node.owner,
        None => false,
    };
    if !assigned_to_node {
        return Err(ErrorCode::UnauthorizedNode);
    }
    if caller != node.owner {
        return Err(ErrorCode::UnauthorizedNode);
    }
    if ipfs_hash.as_str().unicode_len() > MAX_RESULT_LEN {
        return Err(ErrorCode::StringTooLong);
    }
    if node_token.owner != node.owner {
        return Err(ErrorCode::InvalidTokenAccount);
    }
    if vault_token.owner != vault.token_account {
        return Err(ErrorCode::InvalidTokenAccount);
    }
    if vault_token.amount < task.reward {
        return Err(ErrorCode::InsufficientFunds);
    }
    if node_token.amount > u64::MAX - task.reward
        || node.bandwidth_used > u64::MAX - dataset_size
        || node.reputation > u64::MAX - TASK_REPUTATION_REWARD
        || vault.total_rewards_distributed > u64::MAX - task.reward
        || vault.bandwidth_used > u64::MAX - dataset_size
    {
        return Err(ErrorCode::ArithmeticOverflow);
    }
    let reward = task.reward;
    match transfer(vault_token, node_token, reward) {
        Ok(()) => {}
        Err(e) => {
            return Err(e);
        }
    }
    task.status = TaskStatus::Completed;
    task.ipfs_hash = Some(ipfs_hash);
    task.dataset_size = dataset_size;
    node.bandwidth_used = node.bandwidth_used + dataset_size;
    node.reputation = node.reputation + TASK_REPUTATION_REWARD;
    vault.total_rewards_distributed = vault.total_rewards_distributed + reward;
    vault.bandwidth_used = vault.bandwidth_used + dataset_size;
    Ok(())
}

/// Which check rejects a task closure, if any, in check order.
pub open spec fn close_task_check(
    task: Task,
    vault: TokenVault,
    vault_token: TokenAccount,
    owner_token: TokenAccount,
    caller: Identity,
) -> Option<ErrorCode> {
    if caller != task.owner {
        Some(ErrorCode::UnauthorizedNode)
    } else if owner_token.owner != caller {
        Some(ErrorCode::InvalidTokenAccount)
    } else if vault_token.owner != vault.token_account {
        Some(ErrorCode::InvalidTokenAccount)
    } else if !(task.status is Completed) && vault_token.amount < task.reward {
        Some(ErrorCode::InsufficientFunds)
    } else if !(task.status is Completed) && owner_token.amount + task.reward > u64::MAX {
        Some(ErrorCode::ArithmeticOverflow)
    } else {
        None
    }
}

/// Authorize destruction of a task, refunding any escrow not yet disbursed.
///
/// Owner-only and possible in any state. A task that never completed still
/// has its reward in the vault, so exactly that amount returns to the
/// owner's funding account; a completed task's reward was already paid out
/// and nothing moves. On success the runtime destroys the record.
pub fn close_task(
    task: &Task,
    vault: &TokenVault,
    vault_token: &mut TokenAccount,
    owner_token: &mut TokenAccount,
    caller: Identity,
) -> (r: Result<(), ErrorCode>)
    ensures
        close_task_check(*task, *vault, *old(vault_token), *old(owner_token), caller)
            matches Some(e) ==> {
                &&& r == Err::<(), ErrorCode>(e)
                &&& *final(vault_token) == *old(vault_token)
                &&& *final(owner_token) == *old(owner_token)
            },
        close_task_check(*task, *vault, *old(vault_token), *old(owner_token), caller)
            is None ==> {
                &&& r is Ok
                &&& (task.status is Completed ==> *final(vault_token) == *old(vault_token)
                    && *final(owner_token) == *old(owner_token))
                &&& (!(task.status is Completed) ==> {
                    &&& *final(vault_token) == (TokenAccount {
                        amount: (old(vault_token).amount - task.reward) as u64,
                        ..*old(vault_token)
                    })
                    &&& *final(owner_token) == (TokenAccount {
                        amount: (old(owner_token).amount + task.reward) as u64,
                        ..*old(owner_token)
                    })
                })
            },
        final(vault_token).amount + final(owner_token).amount
            == old(vault_token).amount + old(owner_token).amount,
{
    if caller != task.owner {
        return Err(ErrorCode::UnauthorizedNode);
    }
    if owner_token.owner != caller {
        return Err(ErrorCode::InvalidTokenAccount);
    }
    if vault_token.owner != vault.token_account {
        return Err(ErrorCode::InvalidTokenAccount);
    }
    if task.status == TaskStatus::Completed {
        return Ok(());
    }
    if vault_token.amount < task.reward {
        return Err(ErrorCode::InsufficientFunds);
    }
    if owner_token.amount > u64::MAX - task.reward {
        return Err(ErrorCode::ArithmeticOverflow);
    }
    match transfer(vault_token, owner_token, task.reward) {
        Ok(()) => {}
        Err(e) => {
            return Err(e);
        }
    }
    Ok(())
}

} // verus!
