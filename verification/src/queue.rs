//! Command queues: where recorded command lists are submitted.  Submission
//! and fence signalling are foreign methods reached through the handle;
//! here live the handle type and the queue's typed creation description.

use vstd::prelude::*;

verus! {

use crate::com::{Guid, Interface, WeakPtr};
use crate::command_list::CmdListType;

/// The foreign command-queue interface.
#[derive(Clone, Copy, Hash, Debug)]
pub struct ID3D12CommandQueue;

impl Interface for ID3D12CommandQueue {
    open spec fn iid_spec() -> Guid {
        Guid { data1: 0x0ec870a6, data2: 0x5d7e, data3: 0x4c22, data4: 0x8cfc_5baa_e076_16ed }
    }

    fn iid() -> (g: Guid) {
        Guid { data1: 0x0ec870a6, data2: 0x5d7e, data3: 0x4c22, data4: 0x8cfc_5baa_e076_16ed }
    }
}

/// A handle to a foreign command queue.
pub type CommandQueue = WeakPtr<ID3D12CommandQueue>;

/// Scheduling priority of a queue relative to other queues.
#[derive(Clone, Copy, PartialEq, Eq, Structural, Hash, Debug)]
pub enum Priority {
    Normal,
    High,
    GlobalRealtime,
}

impl Priority {
    /// The foreign runtime's numeric encoding of this priority.
    pub open spec fn raw_spec(self) -> i32 {
        match self {
            Priority::Normal => 0,
            Priority::High => 100,
            Priority::GlobalRealtime => 10000,
        }
    }

    /// Marshal to the foreign encoding.
    pub fn to_raw(self) -> (r: i32)
        ensures
            r == self.raw_spec(),
    {
        match self {
            Priority::Normal => 0,
            Priority::High => 100,
            Priority::GlobalRealtime => 10000,
        }
    }
}

/// Queue behavior flags, combined bitwise.
pub type CommandQueueFlags = u32;

pub const COMMAND_QUEUE_FLAG_NONE: u32 = 0;

pub const COMMAND_QUEUE_FLAG_DISABLE_GPU_TIMEOUT: u32 = 0x1;

/// The marshaled description a command queue is created from.
#[derive(Clone, Copy, PartialEq, Eq, Structural, Hash, Debug)]
pub struct CommandQueueDesc {
    pub list_type: u32,
    pub priority: i32,
    pub flags: CommandQueueFlags,
    pub node_mask: u32,
}

impl CommandQueueDesc {
    /// Marshal a typed queue description into the foreign encoding.
    pub fn new(
        list_type: CmdListType,
        priority: Priority,
        flags: CommandQueueFlags,
        node_mask: u32,
    ) -> (r: Self)
        ensures
            r.list_type == list_type.raw_spec(),
            r.priority == priority.raw_spec(),
            r.flags == flags,
            r.node_mask == node_mask,
    {
        CommandQueueDesc {
            list_type: list_type.to_raw(),
            priority: priority.to_raw(),
            flags,
            node_mask,
        }
    }
}

} // verus!
