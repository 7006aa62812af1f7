use vstd::prelude::*;

verus! {

/// The power profile requested when selecting an adapter.
#[derive(Clone, Copy, PartialEq, Eq, Structural, Debug)]
pub enum PowerPreference {
    LowPower,
    HighPerformance,
}

/// The adapter-selection policy handed to the backend: which power profile
/// to prefer, whether a software fallback adapter is acceptable, and
/// whether the adapter must be able to present to the target surface.
#[derive(Clone, Copy, PartialEq, Eq, Structural, Debug)]
pub struct AdapterRequest {
    pub power_preference: PowerPreference,
    pub force_fallback_adapter: bool,
    pub require_surface_compatible: bool,
}

/// The device request: a set of capability flags (a bit set, empty here for
/// portability) and whether the backend's default resource limits are kept.
#[derive(Clone, Copy, PartialEq, Eq, Structural, Debug)]
pub struct DeviceRequest {
    pub features: u64,
    pub default_limits: bool,
}

/// The startup adapter policy: prefer a high-performance adapter, require
/// that it can present to the target surface, and never accept a software
/// fallback.
pub open spec fn spec_adapter_request() -> AdapterRequest {
    AdapterRequest {
        power_preference: PowerPreference::HighPerformance,
        force_fallback_adapter: false,
        require_surface_compatible: true,
    }
}

/// Returns the startup adapter policy.
pub fn adapter_request() -> (r: AdapterRequest)
    ensures
        r == spec_adapter_request(),
{
    AdapterRequest {
        power_preference: PowerPreference::HighPerformance,
        force_fallback_adapter: false,
        require_surface_compatible: true,
    }
}

/// The startup device request: no capability flags and the backend's
/// default limits, favoring portability over capability.
pub open spec fn spec_device_request() -> DeviceRequest {
    DeviceRequest { features: 0, default_limits: true }
}

/// Returns the startup device request.
pub fn device_request() -> (r: DeviceRequest)
    ensures
        r == spec_device_request(),
{
    DeviceRequest { features: 0, default_limits: true }
}

} // verus!
