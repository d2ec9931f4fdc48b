//! Per-entry decisions of the walk, written as small step functions: the
//! caller performs one filesystem action, hands the result back, and is told
//! the next action. All choices the tool makes stand here; the caller only
//! executes them.

use crate::config::Config;
use crate::outcome::ConversionOutcome;
use crate::paths::candidate_path;
use crate::paths::lookup_path;
use crate::paths::parent_view;
use vstd::prelude::*;

verus! {

/// The next action while examining one candidate file.
#[derive(Debug, PartialEq, Eq)]
pub enum FileStep {
    /// Stop with this outcome.
    Finish(ConversionOutcome),
    /// Read the file's content as text.
    ReadContent,
    /// Ask whether this path exists.
    CheckTarget(Vec<u8>),
    /// Ask the user for confirmation.
    Prompt,
    /// Remove the file and create the symlink.
    DoConvert,
}

/// Decision on the file's size: a file over the threshold is finished with
/// the too-large outcome, any other is read.
pub fn step_size(size: u64, cfg: &Config) -> (s: FileStep)
    ensures
        size > cfg.len ==> s == FileStep::Finish(ConversionOutcome::SkippedTooLarge { size }),
        size <= cfg.len ==> s == FileStep::ReadContent,
{
    if size > cfg.len {
        FileStep::Finish(ConversionOutcome::SkippedTooLarge { size })
    } else {
        FileStep::ReadContent
    }
}

/// Decision on the file's content: unreadable content finishes silently; a
/// readable link is turned into the one path whose existence decides, taken
/// verbatim, trailing newline included.
pub fn step_content(parent: Option<&Vec<u8>>, content: &Option<Vec<u8>>) -> (s: FileStep)
    ensures
        content is None ==> s == FileStep::Finish(ConversionOutcome::SkippedUnreadable),
        content matches Some(link) ==> (s matches FileStep::CheckTarget(p) && p@ == lookup_path(
            parent_view(parent),
            link@,
        )),
{
    match content {
        None => FileStep::Finish(ConversionOutcome::SkippedUnreadable),
        Some(link) => FileStep::CheckTarget(candidate_path(parent, link)),
    }
}

/// Decision on the existence answer: a missing target finishes the file; an
/// existing one leads to the prompt in interactive mode and straight to the
/// conversion otherwise.
pub fn step_target(found: bool, cfg: &Config) -> (s: FileStep)
    ensures
        !found ==> s == FileStep::Finish(ConversionOutcome::SkippedTargetMissing),
        found && cfg.interactive ==> s == FileStep::Prompt,
        found && !cfg.interactive ==> s == FileStep::DoConvert,
{
    if !found {
        FileStep::Finish(ConversionOutcome::SkippedTargetMissing)
    } else if cfg.interactive {
        FileStep::Prompt
    } else {
        FileStep::DoConvert
    }
}

/// One byte of the confirmation prompt's answer.
#[derive(Clone, Copy, Debug, PartialEq, Eq, Structural)]
pub enum Reply {
    Yes,
    No,
    Invalid,
}

/// Classifies one input byte: `y` and `Y` accept, `n` and `N` refuse,
/// anything else asks again.
pub fn confirmation_reply(input: u8) -> (r: Reply)
    ensures
        r is Yes <==> (input == 121 || input == 89),
        r is No <==> (input == 110 || input == 78),
{
    if input == 121 || input == 89 {
        Reply::Yes
    } else if input == 110 || input == 78 {
        Reply::No
    } else {
        Reply::Invalid
    }
}

/// Decision on a classified answer: yes converts, no finishes the file
/// untouched, an invalid byte repeats the prompt.
pub fn step_reply(r: Reply) -> (s: Option<FileStep>)
    ensures
        r is Yes ==> s == Some(FileStep::DoConvert),
        r is No ==> s == Some(FileStep::Finish(ConversionOutcome::Declined)),
        r is Invalid ==> s is None,
{
    match r {
        Reply::Yes => Some(FileStep::DoConvert),
        Reply::No => Some(FileStep::Finish(ConversionOutcome::Declined)),
        Reply::Invalid => None,
    }
}

/// The outcome once the symlink call has been attempted.
pub fn conversion_result(created: bool) -> (o: ConversionOutcome)
    ensures
        created ==> o == ConversionOutcome::Converted,
        !created ==> o == ConversionOutcome::SymlinkFailed,
{
    if created {
        ConversionOutcome::Converted
    } else {
        ConversionOutcome::SymlinkFailed
    }
}

/// What a directory entry is, as its metadata describes it without following
/// symlinks.
#[derive(Clone, Copy, Debug, PartialEq, Eq, Structural)]
pub enum EntryKind {
    Directory,
    File,
    Symlink,
    Other,
}

/// The next action for one directory entry.
#[derive(Clone, Copy, Debug, PartialEq, Eq, Structural)]
pub enum EntryStep {
    /// Descend into the directory.
    Recurse,
    /// Treat the entry as a candidate file.
    ProcessFile,
    /// Leave the entry alone with this outcome.
    Finish(ConversionOutcome),
}

/// Dispatch on an entry's kind: directories are recursed into, files become
/// candidates, symlinks are skipped on sight, anything else is refused.
pub fn entry_step(kind: EntryKind) -> (s: EntryStep)
    ensures
        kind is Directory ==> s == EntryStep::Recurse,
        kind is File ==> s == EntryStep::ProcessFile,
        kind is Symlink ==> s == EntryStep::Finish(ConversionOutcome::SkippedSymlink),
        kind is Other ==> s == EntryStep::Finish(ConversionOutcome::SkippedNotSymlinkable),
{
    match kind {
        EntryKind::Directory => EntryStep::Recurse,
        EntryKind::File => EntryStep::ProcessFile,
        EntryKind::Symlink => EntryStep::Finish(ConversionOutcome::SkippedSymlink),
        EntryKind::Other => EntryStep::Finish(ConversionOutcome::SkippedNotSymlinkable),
    }
}

/// The plan for the root path itself.
#[derive(Clone, Copy, Debug, PartialEq, Eq, Structural)]
pub enum RootPlan {
    /// Walk the directory tree.
    WalkDirectory,
    /// Treat the root as a single candidate file.
    ProcessFile,
    /// Refuse: a directory needs the recursive flag.
    RefuseDirectory,
    /// Refuse: the root is neither a directory nor a file.
    RefuseKind,
}

/// Dispatch on the root's kind, as a metadata query that follows symlinks
/// reports it: a directory is walked only under the recursive flag, a file
/// is processed directly, anything else is refused.
pub fn plan_root(kind: EntryKind, recursive: bool) -> (p: RootPlan)
    ensures
        kind is Directory && recursive ==> p == RootPlan::WalkDirectory,
        kind is Directory && !recursive ==> p == RootPlan::RefuseDirectory,
        kind is File ==> p == RootPlan::ProcessFile,
        kind is Symlink || kind is Other ==> p == RootPlan::RefuseKind,
{
    match kind {
        EntryKind::Directory => if recursive {
            RootPlan::WalkDirectory
        } else {
            RootPlan::RefuseDirectory
        },
        EntryKind::File => RootPlan::ProcessFile,
        EntryKind::Symlink => RootPlan::RefuseKind,
        EntryKind::Other => RootPlan::RefuseKind,
    }
}

} // verus!
