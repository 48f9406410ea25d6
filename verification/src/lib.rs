//! A conformance runtime for an extended-reality device API, simulating a
//! head-mounted display without real hardware.
//!
//! The library is the runtime object and state-machine layer: the object
//! registry every long-lived resource lives in, the per-instance event
//! queue, the session lifecycle state machine, the frame-pacing protocol
//! and the swapchain image rotation protocol, all stated and verified over
//! plain values. Pointer marshaling and the native graphics work sit
//! outside the library and hand it plain values.

pub mod error;
pub mod event;
pub mod frame;
pub mod input;
pub mod instance;
pub mod loader;
pub mod path;
pub mod registry;
pub mod runtime;
pub mod session;
pub mod spaces;
pub mod swapchain;
pub mod system;
pub mod utils;
pub mod view;
pub mod vulkan;

use vstd::prelude::*;

verus! {

/// System id of the one simulated head-mounted display.
pub const HMD_SYSTEM_ID: u64 = 1;

} // verus!
