//! The answers of the mock (virtual) platform backend that need no clock
//! and no floating point: its identity, its core count, its kind, and the
//! check on a frame-interval request.

use vstd::prelude::*;

use crate::platform::{PlatformError, PlatformKind, PlatformResult};

verus! {

/// The mock platform's fixed, integer-valued configuration.
pub struct MockPlatform {
    virtual_cpu_cores: u32,
}

impl MockPlatform {
    /// The number of cores the mock platform reports.
    pub closed spec fn cores(&self) -> u32 {
        self.virtual_cpu_cores
    }

    /// A mock platform with four virtual cores.
    pub fn new() -> (r: Self)
        ensures
            r.cores() == 4,
    {
        Self { virtual_cpu_cores: 4 }
    }

    /// Always `Ok("Mock Virtual Platform")`.
    pub fn platform_name(&self) -> (r: PlatformResult<String>)
        ensures
            r matches Ok(s) && s@ == "Mock Virtual Platform"@,
    {
        Ok(String::from_str("Mock Virtual Platform"))
    }

    /// Always `Ok("v0.1.0-simulated")`.
    pub fn system_version(&self) -> (r: PlatformResult<String>)
        ensures
            r matches Ok(s) && s@ == "v0.1.0-simulated"@,
    {
        Ok(String::from_str("v0.1.0-simulated"))
    }

    /// Always `Ok` of the configured core count.
    pub fn cpu_core_count(&self) -> (r: PlatformResult<u32>)
        ensures
            r matches Ok(n) && n == self.cores(),
    {
        Ok(self.virtual_cpu_cores)
    }

    /// The mock is a virtual platform.
    pub fn platform_kind(&self) -> (r: PlatformKind)
        ensures
            r == PlatformKind::Virtual,
    {
        PlatformKind::Virtual
    }

    /// The check that a frame-interval sample makes before it measures: a
    /// request over zero frames is refused with `frame count must be > 0`,
    /// any other passes.
    pub fn check_frame_count(&self, frames: u32) -> (r: PlatformResult<()>)
        ensures
            frames == 0 <==> r is Err,
            r matches Err(e) ==> e.0@ == "frame count must be > 0"@,
    {
        if frames == 0 {
            return Err(PlatformError(String::from_str("frame count must be > 0")));
        }
        Ok(())
    }
}

impl Default for MockPlatform {
    fn default() -> (r: Self)
        ensures
            r.cores() == 4,
    {
        Self::new()
    }
}

} // verus!
