//! The device that is asked for.

use vstd::prelude::*;

verus! {

/// Which adapter is taken with regard to the power that it uses.
#[derive(Clone, Copy, Debug, PartialEq, Eq, Structural)]
pub enum PowerPreference {
    LowPower,
    HighPerformance,
}

/// What the device is to favour: speed, or a small use of memory.
#[derive(Clone, Copy, Debug, PartialEq, Eq, Structural)]
pub enum MemoryHints {
    Performance,
    MemoryUsage,
}

/// The flag of the DirectX 12 backend.
pub const DX12: u32 = 0x8;

/// What an instance, an adapter and a device are asked for. The adapter has to go with the
/// surface of the window.
#[derive(Clone, Copy, Debug, PartialEq, Eq)]
pub struct DeviceRequest {
    pub backends: u32,
    pub instance_flags: u32,
    pub power_preference: Option<PowerPreference>,
    pub force_fallback_adapter: bool,
    pub label: Option<&'static str>,
    pub required_features: [u64; 2],
    pub memory_hints: MemoryHints,
}

/// The request for a DirectX 12 device, with nothing special about it.
pub open spec fn plain_request() -> DeviceRequest {
    DeviceRequest {
        backends: DX12,
        instance_flags: 0,
        power_preference: None,
        force_fallback_adapter: false,
        label: None,
        required_features: [0, 0],
        memory_hints: MemoryHints::Performance,
    }
}

impl DeviceRequest {
    /// What is asked for: DirectX 12 and nothing else, without debugging, any adapter but not a
    /// fallback by force, and no features beyond what every device has.
    pub fn new() -> (request: DeviceRequest)
        ensures
            request == plain_request(),
    {
        DeviceRequest {
            backends: DX12,
            instance_flags: 0,
            power_preference: None,
            force_fallback_adapter: false,
            label: None,
            required_features: [0, 0],
            memory_hints: MemoryHints::Performance,
        }
    }
}

} // verus!
