//! The model of one pass of the tool: the entries the walk visits, the set
//! of paths that exist, and the conversion of each entry, stated and proved
//! over mathematical views.

use crate::config::Config;
use crate::outcome::ConversionOutcome;
use crate::paths::bytes_eq;
use crate::paths::candidate_path;
use crate::paths::copy_bytes;
use crate::paths::lookup_path;
use crate::paths::parent_view;
use crate::steps::step_size;
use crate::steps::step_target;
use crate::steps::FileStep;
use vstd::prelude::*;

verus! {

/// The paths that exist on the filesystem, as far as one run consults them.
/// Its view is the set of byte paths it holds.
pub struct PathSet {
    paths: Vec<Vec<u8>>,
}

impl View for PathSet {
    type V = Set<Seq<u8>>;

    closed spec fn view(&self) -> Set<Seq<u8>> {
        Set::new(
            |s: Seq<u8>|
                exists|i: int|
                    0 <= i < self.paths@.len() && (#[trigger] self.paths@[i])@ == s,
        )
    }
}

impl PathSet {
    /// The set with no paths.
    pub fn empty() -> (r: PathSet)
        ensures
            r@ == Set::<Seq<u8>>::empty(),
    {
        let r = PathSet { paths: Vec::new() };
        proof {
            assert(r@ =~= Set::<Seq<u8>>::empty());
        }
        r
    }

    /// Adds one path.
    pub fn add(&mut self, p: Vec<u8>)
        ensures
            final (self)@ == old(self)@.insert(p@),
    {
        let ghost oldset = self@;
        let ghost pv = p@;
        let ghost oldlen = self.paths@.len();
        self.paths.push(p);
        proof {
            assert forall|s: Seq<u8>| self@.contains(s) implies oldset.insert(pv).contains(s) by {
                let i = choose|i: int|
                    0 <= i < self.paths@.len() && (#[trigger] self.paths@[i])@ == s;
                if i < oldlen {
                    assert((old(self).paths@[i])@ == s);
                } else {
                    assert(s == pv);
                }
            }
            assert forall|s: Seq<u8>| oldset.insert(pv).contains(s) implies self@.contains(s) by {
                if s == pv {
                    assert((self.paths@[oldlen as int])@ == s);
                } else {
                    let i = choose|i: int|
                        0 <= i < old(self).paths@.len() && (#[trigger] old(self).paths@[i])@ == s;
                    assert((self.paths@[i])@ == s);
                }
            }
            assert(self@ =~= oldset.insert(pv));
        }
    }

    /// Whether the set holds `p`.
    pub fn contains_path(&self, p: &Vec<u8>) -> (r: bool)
        ensures
            r == self@.contains(p@),
    {
        let mut i: usize = 0;
        while i < self.paths.len()
            invariant
                i <= self.paths@.len(),
                forall|j: int| 0 <= j < i ==> (#[trigger] self.paths@[j])@ != p@,
            decreases self.paths@.len() - i,
        {
            if bytes_eq(&self.paths[i], p) {
                proof {
                    assert((self.paths@[i as int])@ == p@);
                }
                return true;
            }
            i = i + 1;
        }
        false
    }
}

/// The byte sequences behind an optional byte string.
pub open spec fn opt_bytes(o: Option<Vec<u8>>) -> Option<Seq<u8>> {
    match o {
        Some(v) => Some(v@),
        None => None,
    }
}

/// One entry of the walk, as the tool reads it off the filesystem.
#[derive(Debug, PartialEq, Eq)]
pub enum ModelEntry {
    /// A regular file: its size in bytes, the byte path of its containing
    /// directory (none when its path has no parent component), and its
    /// content when it is readable text.
    File { size: u64, parent: Option<Vec<u8>>, content: Option<Vec<u8>> },
    /// An existing symlink and its current target.
    Symlink { target: Vec<u8> },
    /// Neither a directory, a file nor a symlink.
    Other,
    /// An entry whose reading failed.
    Unreadable,
}

/// The mathematical image of an entry.
pub enum EntryV {
    File { size: u64, parent: Option<Seq<u8>>, content: Option<Seq<u8>> },
    Symlink { target: Seq<u8> },
    Other,
    Unreadable,
}

impl View for ModelEntry {
    type V = EntryV;

    open spec fn view(&self) -> EntryV {
        match self {
            ModelEntry::File { size, parent, content } => EntryV::File {
                size: *size,
                parent: opt_bytes(*parent),
                content: opt_bytes(*content),
            },
            ModelEntry::Symlink { target } => EntryV::Symlink { target: target@ },
            ModelEntry::Other => EntryV::Other,
            ModelEntry::Unreadable => EntryV::Unreadable,
        }
    }
}

/// Whether one entry is converted: it is a regular file, its size is within
/// the threshold, its content is readable, the content resolves to an
/// existing path, and — under the interactive flag — the prompt is answered
/// yes.
pub open spec fn entry_converts(e: EntryV, existing: Set<Seq<u8>>, cfg: Config, answer: bool) -> bool {
    &&& e matches EntryV::File { size, parent, content }
    &&& size <= cfg.len
    &&& content matches Some(link)
    &&& existing.contains(lookup_path(parent, link))
    &&& !cfg.interactive || answer
}

/// The entry after the pass: a converted file becomes a symlink whose target
/// is the file content, byte for byte; every other entry is left untouched.
pub open spec fn entry_after(e: EntryV, existing: Set<Seq<u8>>, cfg: Config, answer: bool) -> EntryV {
    match e {
        EntryV::File { size, parent, content } => if entry_converts(e, existing, cfg, answer) {
            EntryV::Symlink { target: content->0 }
        } else {
            e
        },
        _ => e,
    }
}

/// The outcome the pass reports for one entry.
pub open spec fn outcome_spec(
    e: EntryV,
    existing: Set<Seq<u8>>,
    cfg: Config,
    answer: bool,
) -> ConversionOutcome {
    match e {
        EntryV::File { size, parent, content } => if size > cfg.len {
            ConversionOutcome::SkippedTooLarge { size }
        } else {
            match content {
                None => ConversionOutcome::SkippedUnreadable,
                Some(link) => if !existing.contains(lookup_path(parent, link)) {
                    ConversionOutcome::SkippedTargetMissing
                } else if cfg.interactive && !answer {
                    ConversionOutcome::Declined
                } else {
                    ConversionOutcome::Converted
                },
            }
        },
        EntryV::Symlink { .. } => ConversionOutcome::SkippedSymlink,
        EntryV::Other => ConversionOutcome::SkippedNotSymlinkable,
        EntryV::Unreadable => ConversionOutcome::ListingError,
    }
}

/// Whether the content `link` of a file whose containing directory is
/// `parent` resolves to an existing path: the joined path is consulted when
/// a parent is known, the link alone when none is.
pub fn link_target_exists(parent: Option<&Vec<u8>>, link: &Vec<u8>, existing: &PathSet) -> (r: bool)
    ensures
        r == existing@.contains(lookup_path(parent_view(parent), link@)),
{
    let cand = candidate_path(parent, link);
    existing.contains_path(&cand)
}

fn copy_opt(o: &Option<Vec<u8>>) -> (r: Option<Vec<u8>>)
    ensures
        opt_bytes(r) == opt_bytes(*o),
{
    match o {
        Some(v) => Some(copy_bytes(v)),
        None => None,
    }
}

fn copy_entry(e: &ModelEntry) -> (r: ModelEntry)
    ensures
        r@ == e@,
{
    match e {
        ModelEntry::File { size, parent, content } => ModelEntry::File {
            size: *size,
            parent: copy_opt(parent),
            content: copy_opt(content),
        },
        ModelEntry::Symlink { target } => ModelEntry::Symlink { target: copy_bytes(target) },
        ModelEntry::Other => ModelEntry::Other,
        ModelEntry::Unreadable => ModelEntry::Unreadable,
    }
}

/// One entry of the pass: returns what the entry becomes and the outcome to
/// report. `answer` stands for the reply every prompt of this entry would
/// get.
pub fn convert_entry_model(e: &ModelEntry, existing: &PathSet, cfg: &Config, answer: bool) -> (r: (
    ModelEntry,
    ConversionOutcome,
))
    ensures
        r.0@ == entry_after(e@, existing@, *cfg, answer),
        r.1 == outcome_spec(e@, existing@, *cfg, answer),
{
    match e {
        ModelEntry::File { size, parent, content } => {
            match step_size(*size, cfg) {
                FileStep::Finish(o) => (copy_entry(e), o),
                _ => {
                    match content {
                        None => (copy_entry(e), ConversionOutcome::SkippedUnreadable),
                        Some(link) => {
                            let found = link_target_exists(parent.as_ref(), link, existing);
                            match step_target(found, cfg) {
                                FileStep::Finish(o) => (copy_entry(e), o),
                                FileStep::Prompt => {
                                    if answer {
                                        (
                                            ModelEntry::Symlink { target: copy_bytes(link) },
                                            ConversionOutcome::Converted,
                                        )
                                    } else {
                                        (copy_entry(e), ConversionOutcome::Declined)
                                    }
                                },
                                _ => (
                                    ModelEntry::Symlink { target: copy_bytes(link) },
                                    ConversionOutcome::Converted,
                                ),
                            }
                        },
                    }
                },
            }
        },
        ModelEntry::Symlink { target } => (
            ModelEntry::Symlink { target: copy_bytes(target) },
            ConversionOutcome::SkippedSymlink,
        ),
        ModelEntry::Other => (ModelEntry::Other, ConversionOutcome::SkippedNotSymlinkable),
        ModelEntry::Unreadable => (ModelEntry::Unreadable, ConversionOutcome::ListingError),
    }
}

/// The views of a sequence of entries.
pub open spec fn views_of(s: Seq<ModelEntry>) -> Seq<EntryV> {
    s.map_values(|m: ModelEntry| m@)
}

/// A whole pass over a listing, entry by entry.
pub open spec fn entries_after(
    s: Seq<EntryV>,
    existing: Set<Seq<u8>>,
    cfg: Config,
    answer: bool,
) -> Seq<EntryV> {
    s.map_values(|e: EntryV| entry_after(e, existing, cfg, answer))
}

/// How many entries of a listing a pass converts.
pub open spec fn count_converts(
    s: Seq<EntryV>,
    existing: Set<Seq<u8>>,
    cfg: Config,
    answer: bool,
) -> nat
    decreases s.len(),
{
    if s.len() == 0 {
        0
    } else {
        count_converts(s.drop_last(), existing, cfg, answer) + (if entry_converts(
            s.last(),
            existing,
            cfg,
            answer,
        ) {
            1nat
        } else {
            0nat
        })
    }
}

/// What one pass over a listing produced: the entries afterwards, the
/// outcome of each in order, and how many were converted.
pub struct RunReport {
    pub entries: Vec<ModelEntry>,
    pub outcomes: Vec<ConversionOutcome>,
    pub conversions: usize,
}

/// Runs one pass over a listing. `answer` stands for the reply every prompt
/// of the pass would get.
pub fn run_entries(entries: &Vec<ModelEntry>, existing: &PathSet, cfg: &Config, answer: bool) -> (r:
    RunReport)
    ensures
        views_of(r.entries@) == entries_after(views_of(entries@), existing@, *cfg, answer),
        r.outcomes@.len() == entries@.len(),
        forall|i: int|
            0 <= i < entries@.len() ==> r.outcomes@[i] == outcome_spec(
                entries@[i]@,
                existing@,
                *cfg,
                answer,
            ),
        r.conversions == count_converts(views_of(entries@), existing@, *cfg, answer),
{
    let mut out: Vec<ModelEntry> = Vec::new();
    let mut outcomes: Vec<ConversionOutcome> = Vec::new();
    let mut conversions: usize = 0;
    let mut i: usize = 0;
    while i < entries.len()
        invariant
            i <= entries@.len(),
            out@.len() == i,
            outcomes@.len() == i,
            conversions <= i,
            views_of(out@) == entries_after(
                views_of(entries@.subrange(0, i as int)),
                existing@,
                *cfg,
                answer,
            ),
            forall|j: int|
                0 <= j < i ==> outcomes@[j] == outcome_spec(entries@[j]@, existing@, *cfg, answer),
            conversions == count_converts(
                views_of(entries@.subrange(0, i as int)),
                existing@,
                *cfg,
                answer,
            ),
        decreases entries@.len() - i,
    {
        let ghost prev_out = out@;
        let (ne, o) = convert_entry_model(&entries[i], existing, cfg, answer);
        let is_conversion: bool = match o {
            ConversionOutcome::Converted => true,
            _ => false,
        };
        proof {
            assert(is_conversion == entry_converts(entries@[i as int]@, existing@, *cfg, answer));
            assert(views_of(entries@.subrange(0, i + 1)).drop_last() =~= views_of(
                entries@.subrange(0, i as int),
            ));
            assert(views_of(entries@.subrange(0, i + 1)).last() == entries@[i as int]@);
        }
        if is_conversion {
            conversions = conversions + 1;
        }
        out.push(ne);
        outcomes.push(o);
        proof {
            let pre = views_of(entries@.subrange(0, i + 1));
            let post = entries_after(pre, existing@, *cfg, answer);
            assert(out@ == prev_out.push(ne));
            assert forall|k: int| 0 <= k < out@.len() implies views_of(out@)[k] == post[k] by {
                assert(pre[k] == entries@[k]@);
                if k < i {
                    assert(out@[k] == prev_out[k]);
                    assert(views_of(prev_out)[k] == entries_after(
                        views_of(entries@.subrange(0, i as int)),
                        existing@,
                        *cfg,
                        answer,
                    )[k]);
                    assert(views_of(entries@.subrange(0, i as int))[k] == entries@[k]@);
                } else {
                    assert(out@[k] == ne);
                }
            }
            assert(views_of(out@) =~= post);
        }
        i = i + 1;
    }
    proof {
        assert(entries@.subrange(0, entries@.len() as int) =~= entries@);
    }
    RunReport { entries: out, outcomes, conversions }
}

} // verus!
