//! Whether the running OS build offers EcoQoS.
use vstd::prelude::*;

verus! {

/// The first OS build with power throttling (EcoQoS).
pub const MIN_ECOQOS_BUILD: u32 = 21359;

/// The first OS build on which throttling works at its best.
pub const FULL_ECOQOS_BUILD: u32 = 22621;

#[derive(Clone, Copy, Debug, PartialEq, Eq, Structural)]
pub enum Support {
    /// No EcoQoS: the monitor cannot run.
    Unsupported,
    /// EcoQoS works, with weaker results.
    Partial,
    /// EcoQoS works fully.
    Full,
}

/// What the OS build `build` offers.
pub fn ecoqos_support(build: u32) -> (r: Support)
    ensures
        r == (if build < MIN_ECOQOS_BUILD {
            Support::Unsupported
        } else if build < FULL_ECOQOS_BUILD {
            Support::Partial
        } else {
            Support::Full
        }),
{
    if build < MIN_ECOQOS_BUILD {
        Support::Unsupported
    } else if build < FULL_ECOQOS_BUILD {
        Support::Partial
    } else {
        Support::Full
    }
}

} // verus!
