//! Read access to a completed task's dataset, with its tiered cost.
//!
//! Downloading or previewing a dataset is read-only on the ledger: the core
//! authorizes the access and computes what it costs; settlement of that cost
//! is delegated to an off-ledger flow.

use vstd::prelude::*;

use crate::client::Client;
use crate::error::ErrorCode;
use crate::identity::Identity;
use crate::task::{Task, TaskStatus};

verus! {

/// Size units every dataset access includes free of charge.
pub const FREE_SIZE_UNITS: u64 = 500;

/// Cost of each size unit above the free allowance.
pub const RATE_PER_SIZE_UNIT: u64 = 5_000_000;

/// Tiered access cost: the first [`FREE_SIZE_UNITS`] units are free, every
/// unit above is billed at [`RATE_PER_SIZE_UNIT`].
pub open spec fn access_cost(dataset_size: u64) -> int {
    if dataset_size <= FREE_SIZE_UNITS {
        0
    } else {
        (dataset_size - FREE_SIZE_UNITS) * RATE_PER_SIZE_UNIT
    }
}

/// Which check rejects a dataset access, if any, in check order.
pub open spec fn dataset_access_check(
    task: Task,
    client: Client,
    caller: Identity,
) -> Option<ErrorCode> {
    if !(task.status is Completed) {
        Some(ErrorCode::TaskNotAssigned)
    } else if task.owner != caller {
        Some(ErrorCode::UnauthorizedNode)
    } else if task.owner != client.owner {
        Some(ErrorCode::UnauthorizedNode)
    } else if task.ipfs_hash is None {
        Some(ErrorCode::TaskNotAssigned)
    } else if access_cost(task.dataset_size) > u64::MAX {
        Some(ErrorCode::ArithmeticOverflow)
    } else {
        None
    }
}

/// Shared body of the two read operations.
fn dataset_access(task: &Task, client: &Client, caller: Identity) -> (r: Result<
    u64,
    ErrorCode,
>)
    ensures
        dataset_access_check(*task, *client, caller) matches Some(e)
            ==> r == Err::<u64, ErrorCode>(e),
        dataset_access_check(*task, *client, caller) is None ==> {
            &&& r matches Ok(cost)
            &&& cost == access_cost(task.dataset_size)
        },
{
    if !(task.status == TaskStatus::Completed) {
        return Err(ErrorCode::TaskNotAssigned);
    }
    if task.owner != caller {
        return Err(ErrorCode::UnauthorizedNode);
    }
    if task.owner != client.owner {
        return Err(ErrorCode::UnauthorizedNode);
    }
    if task.ipfs_hash.is_none() {
        return Err(ErrorCode::TaskNotAssigned);
    }
    if task.dataset_size <= FREE_SIZE_UNITS {
        return Ok(0);
    }
    let billable = task.dataset_size - FREE_SIZE_UNITS;
    if billable > u64::MAX / RATE_PER_SIZE_UNIT {
        proof {
            assert(billable * RATE_PER_SIZE_UNIT > u64::MAX) by (nonlinear_arith)
                requires
                    billable > u64::MAX / RATE_PER_SIZE_UNIT,
                    RATE_PER_SIZE_UNIT == 5_000_000,
            ;
        }
        return Err(ErrorCode::ArithmeticOverflow);
    }
    proof {
        assert(billable * RATE_PER_SIZE_UNIT <= u64::MAX) by (nonlinear_arith)
            requires
                billable <= u64::MAX / RATE_PER_SIZE_UNIT,
                RATE_PER_SIZE_UNIT == 5_000_000,
        ;
    }
    Ok(billable * RATE_PER_SIZE_UNIT)
}

/// Authorize a download of a completed task's dataset and report its cost.
///
/// Only the task's owner, presenting their own client record, may download,
/// and only once the result reference is available. The reported cost is
/// the tiered [`access_cost`]; a cost beyond the counter range is refused
/// rather than wrapped.
pub fn download_dataset(task: &Task, client: &Client, caller: Identity) -> (r: Result<
    u64,
    ErrorCode,
>)
    ensures
        dataset_access_check(*task, *client, caller) matches Some(e)
            ==> r == Err::<u64, ErrorCode>(e),
        dataset_access_check(*task, *client, caller) is None ==> {
            &&& r matches Ok(cost)
            &&& cost == access_cost(task.dataset_size)
        },
{
    dataset_access(task, client, caller)
}

/// Authorize a preview of a completed task's dataset and report its cost.
///
/// Same authorization and cost tiering as a download; the preview itself
/// happens off-ledger.
pub fn preview_dataset(task: &Task, client: &Client, caller: Identity) -> (r: Result<
    u64,
    ErrorCode,
>)
    ensures
        dataset_access_check(*task, *client, caller) matches Some(e)
            ==> r == Err::<u64, ErrorCode>(e),
        dataset_access_check(*task, *client, caller) is None ==> {
            &&& r matches Ok(cost)
            &&& cost == access_cost(task.dataset_size)
        },
{
    dataset_access(task, client, caller)
}

} // verus!
