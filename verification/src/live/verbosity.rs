//! The live runner's verbose-logging switch.

use vstd::prelude::*;

verus! {

/// Whether debug lines of the live runner are printed.
pub struct Verbosity {
    pub on: bool,
}

impl Verbosity {
    /// Quiet: debug lines off.
    pub fn new() -> (r: Verbosity)
        ensures
            !r.on,
    {
        Verbosity { on: false }
    }
}

/// Turn debug lines on or off.
pub fn set_verbose(flag: &mut Verbosity, v: bool)
    ensures
        final(flag).on == v,
{
    flag.on = v;
}

/// Whether debug lines are on.
pub fn is_verbose(flag: &Verbosity) -> (r: bool)
    ensures
        r == flag.on,
{
    flag.on
}

} // verus!
