//! The command pools of the renderer, one per queue family in use.

use crate::device::{Destroy, COMMAND_POOL_RESET_COMMAND_BUFFER};
use crate::queue::{QueueError, QueueFamilies};
use vstd::prelude::*;

verus! {

/// A command pool to create.
#[derive(Clone, Copy, Debug, PartialEq, Eq, Structural)]
pub struct PoolRequest {
    pub queue_family_index: u32,
    /// Raw `VkCommandPoolCreateFlags`.
    pub flags: u32,
}

/// The pools to create: first the graphics pool, then the transfer pool.
#[derive(Clone, Copy, Debug, PartialEq, Eq, Structural)]
pub struct PoolRequests {
    pub graphics: PoolRequest,
    pub transfer: PoolRequest,
}

/// Handles of the two command pools.
#[derive(Clone, Copy, Debug, PartialEq, Eq, Structural)]
pub struct Pools {
    pub graphics_command_pool: u64,
    pub transfer_command_pool: u64,
}

impl Pools {
    /// Describes the two pools: one on the graphics family, one on the
    /// transfer family, both with command buffers that can be reset one
    /// by one. It fails when a family is missing, the graphics family
    /// first.
    pub fn init(queue_families: &QueueFamilies) -> (r: Result<PoolRequests, QueueError>)
        ensures
            match (queue_families.graphics, queue_families.transfer) {
                (Some(g), Some(t)) => r == Ok::<PoolRequests, QueueError>(
                    PoolRequests {
                        graphics: PoolRequest { queue_family_index: g, flags: COMMAND_POOL_RESET_COMMAND_BUFFER },
                        transfer: PoolRequest { queue_family_index: t, flags: COMMAND_POOL_RESET_COMMAND_BUFFER },
                    },
                ),
                (None, _) => r == Err::<PoolRequests, QueueError>(QueueError::NoGraphicsQueue),
                (Some(_), None) => r == Err::<PoolRequests, QueueError>(QueueError::NoTransferQueue),
            },
    {
        match queue_families.graphics {
            None => Err(QueueError::NoGraphicsQueue),
            Some(g) => match queue_families.transfer {
                None => Err(QueueError::NoTransferQueue),
                Some(t) => Ok(
                    PoolRequests {
                        graphics: PoolRequest { queue_family_index: g, flags: COMMAND_POOL_RESET_COMMAND_BUFFER },
                        transfer: PoolRequest { queue_family_index: t, flags: COMMAND_POOL_RESET_COMMAND_BUFFER },
                    },
                ),
            },
        }
    }

    /// What to destroy to release the pools: the graphics pool, then the
    /// transfer pool.
    pub fn cleanup(&self) -> (r: Vec<Destroy>)
        ensures
            r@ == seq![
                Destroy::CommandPool(self.graphics_command_pool),
                Destroy::CommandPool(self.transfer_command_pool),
            ],
    {
        let mut steps: Vec<Destroy> = Vec::new();
        steps.push(Destroy::CommandPool(self.graphics_command_pool));
        steps.push(Destroy::CommandPool(self.transfer_command_pool));
        steps
    }
}

} // verus!
