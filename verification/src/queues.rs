//! The queues of the device and the families they come from.

use ash::vk;
use vstd::prelude::*;

verus! {

/// The queue that serves each role.
#[derive(Clone, Copy, Debug)]
pub struct Queues {
    pub present: vk::Queue,
    pub graphics: vk::Queue,
    pub transfer: vk::Queue,
    pub compute: vk::Queue,
}

/// The index of the queue family that serves each role, and the families to
/// create queues from: each index once, in rising order.
#[derive(Debug)]
pub struct QueueFamilies {
    pub present: u32,
    pub graphics: u32,
    pub transfer: u32,
    pub compute: u32,
    pub families: Vec<u32>,
}

} // verus!
