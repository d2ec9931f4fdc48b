//! The outcome of looking at one entry, and which outcomes are reported
//! under a given configuration.

use crate::config::Config;
use vstd::prelude::*;

verus! {

/// What happened to one entry of the walk. Not persisted; it only drives
/// reporting.
#[derive(Clone, Copy, Debug, PartialEq, Eq, Structural)]
pub enum ConversionOutcome {
    /// The file was replaced by a symlink to its own content.
    Converted,
    /// The file's size exceeds the configured threshold.
    SkippedTooLarge { size: u64 },
    /// The file's content does not resolve to an existing path.
    SkippedTargetMissing,
    /// The file could not be read as text.
    SkippedUnreadable,
    /// The entry already is a symlink.
    SkippedSymlink,
    /// The entry is neither a directory, a file nor a symlink.
    SkippedNotSymlinkable,
    /// The interactive prompt was answered with no.
    Declined,
    /// The original file was removed but the symlink could not be created.
    SymlinkFailed,
    /// A directory entry could not be read at all.
    ListingError,
}

/// Whether an outcome produces a message: successes unless silent, ordinary
/// skips only when verbose, hard errors always, and never the silent skips
/// (unreadable content, a declined prompt).
pub open spec fn reported_spec(o: ConversionOutcome, cfg: Config) -> bool {
    match o {
        ConversionOutcome::Converted => !cfg.silent,
        ConversionOutcome::SkippedTooLarge { .. } => cfg.verbose,
        ConversionOutcome::SkippedTargetMissing => cfg.verbose,
        ConversionOutcome::SkippedUnreadable => false,
        ConversionOutcome::SkippedSymlink => cfg.verbose,
        ConversionOutcome::SkippedNotSymlinkable => true,
        ConversionOutcome::Declined => false,
        ConversionOutcome::SymlinkFailed => true,
        ConversionOutcome::ListingError => true,
    }
}

/// Whether `o` is to be reported under `cfg`, exactly as `reported_spec`
/// says.
pub fn reported(o: &ConversionOutcome, cfg: &Config) -> (r: bool)
    ensures
        r == reported_spec(*o, *cfg),
{
    match o {
        ConversionOutcome::Converted => !cfg.silent,
        ConversionOutcome::SkippedTooLarge { .. } => cfg.verbose,
        ConversionOutcome::SkippedTargetMissing => cfg.verbose,
        ConversionOutcome::SkippedUnreadable => false,
        ConversionOutcome::SkippedSymlink => cfg.verbose,
        ConversionOutcome::SkippedNotSymlinkable => true,
        ConversionOutcome::Declined => false,
        ConversionOutcome::SymlinkFailed => true,
        ConversionOutcome::ListingError => true,
    }
}

} // verus!
