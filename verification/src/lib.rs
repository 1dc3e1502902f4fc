//! Resource-lifetime and frame-synchronisation core of a real-time GPU renderer.
//!
//! The crate decides *what* must happen to GPU objects and *in which order*;
//! it never talks to a device itself. Every operation that needs the device is
//! a state machine that hands out requests and takes the replies.

pub mod handles;
pub mod consts;
pub mod delete_queue;
pub mod device;
pub mod buffer;
pub mod image;
pub mod queues;
pub mod surface;
pub mod frame;
pub mod swapchain;
pub mod immediate;
pub mod descriptor;
pub mod shader;
pub mod pipeline;
pub mod counter;
pub mod octant;
pub mod voxels;
pub mod graphics;
pub mod boot;
pub mod gpu;
pub mod input;
