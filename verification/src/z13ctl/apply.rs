//! Applying a profile through the z13ctl daemon.

use vstd::prelude::*;

use crate::z13ctl::error::DaemonError;
use crate::z13ctl::profile::{Base, Profile};

verus! {

/// The daemon operations that a profile needs.
pub trait Daemon {
    fn profile_set(&self, base: Base) -> Result<(), DaemonError>;

    fn tdp_set(&self, pl1: u32, pl2: u32, pl3: u32, force: bool) -> Result<(), DaemonError>;

    fn fan_curve_set(&self, curve: &[[i32; 2]; 8]) -> Result<(), DaemonError>;

    fn undervolt_set(&self, cpu_co: i32) -> Result<(), DaemonError>;
}

/// Accepts every profile and leaves the daemon as it is.
pub fn apply_profile<D: Daemon>(_daemon: &D, _profile: &Profile, _uv_ok: bool) -> (result: Result<
    (),
    DaemonError,
>)
    ensures
        result is Ok,
{
    Ok(())
}

} // verus!
