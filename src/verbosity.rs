use vstd::prelude::*;

verus! {

/// The log filter for a count of `-v` flags.
pub open spec fn log_level_of(verbose: u8) -> Seq<char> {
    if verbose == 0 {
        "warn"@
    } else if verbose == 1 {
        "info"@
    } else if verbose == 2 {
        "debug"@
    } else {
        "trace"@
    }
}

/// The log filter for a count of `-v` flags: `warn`, `info`, `debug`, then
/// `trace` for three or more.
pub fn log_level(verbose: u8) -> (r: &'static str)
    ensures
        r@ == log_level_of(verbose),
{
    if verbose == 0 {
        "warn"
    } else if verbose == 1 {
        "info"
    } else if verbose == 2 {
        "debug"
    } else {
        "trace"
    }
}

/// Whether the banner is printed: neither quiet nor verbose.
pub fn shows_banner(quiet: bool, verbose: u8) -> (r: bool)
    ensures
        r == (!quiet && verbose == 0),
{
    !quiet && verbose == 0
}

} // verus!
