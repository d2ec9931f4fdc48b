//! The run configuration: immutable once built, valid only when the silent
//! and verbose flags do not contradict each other.

use vstd::prelude::*;

verus! {

/// Byte-size threshold above which a file is never considered for conversion,
/// used when the caller gives none.
pub const DEFAULT_LEN: u64 = 512;

/// Options of one run. `len` is the maximum byte size a file may have to be
/// eligible for conversion; `silent` suppresses success messages; `verbose`
/// adds skip diagnostics and excludes `silent`.
#[derive(Clone, Copy, Debug, PartialEq, Eq, Structural)]
pub struct Config {
    pub recursive: bool,
    pub silent: bool,
    pub interactive: bool,
    pub len: u64,
    pub verbose: bool,
}

impl Config {
    /// Builds a configuration; refuses the contradictory pair of flags.
    pub fn new(recursive: bool, silent: bool, interactive: bool, len: u64, verbose: bool) -> (r:
        Option<Config>)
        ensures
            r is Some <==> !(silent && verbose),
            r matches Some(c) ==> c == (Config { recursive, silent, interactive, len, verbose }),
    {
        if silent && verbose {
            None
        } else {
            Some(Config { recursive, silent, interactive, len, verbose })
        }
    }
}

} // verus!
