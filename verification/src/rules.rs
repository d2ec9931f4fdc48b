//! The rules the pass obeys, stated once over the model and proved.

use crate::config::Config;
use crate::model::count_converts;
use crate::model::entries_after;
use crate::model::entry_after;
use crate::model::entry_converts;
use crate::model::EntryV;
use crate::paths::lookup_path;
use vstd::prelude::*;

verus! {

/// A file whose size is within the threshold, whose content is readable and
/// resolves to an existing path, and whose conversion is not declined, is
/// replaced by a symlink whose target is the file content, byte for byte —
/// a trailing newline included, since the content is used verbatim.
pub proof fn lemma_valid_file_becomes_symlink(
    size: u64,
    parent: Option<Seq<u8>>,
    content: Seq<u8>,
    existing: Set<Seq<u8>>,
    cfg: Config,
    answer: bool,
)
    requires
        size <= cfg.len,
        existing.contains(lookup_path(parent, content)),
        !cfg.interactive || answer,
    ensures
        entry_after(EntryV::File { size, parent, content: Some(content) }, existing, cfg, answer)
            == (EntryV::Symlink { target: content }),
{
}

/// A file exceeding the threshold is left untouched, whatever its content.
pub proof fn lemma_large_file_untouched(
    e: EntryV,
    existing: Set<Seq<u8>>,
    cfg: Config,
    answer: bool,
)
    requires
        e matches EntryV::File { size, .. } && size > cfg.len,
    ensures
        entry_after(e, existing, cfg, answer) == e,
        !entry_converts(e, existing, cfg, answer),
{
}

/// A file whose content does not resolve to an existing path is left
/// untouched.
pub proof fn lemma_unresolved_file_untouched(
    e: EntryV,
    existing: Set<Seq<u8>>,
    cfg: Config,
    answer: bool,
)
    requires
        e matches EntryV::File { parent, content, .. } && (content matches Some(link)
            ==> !existing.contains(lookup_path(parent, link))),
    ensures
        entry_after(e, existing, cfg, answer) == e,
        !entry_converts(e, existing, cfg, answer),
{
}

/// No entry converts twice: what a pass leaves behind is either untouched or
/// a symlink, and a symlink is skipped on sight.
pub proof fn lemma_entry_settles(e: EntryV, existing: Set<Seq<u8>>, cfg: Config, answer: bool)
    ensures
        !entry_converts(entry_after(e, existing, cfg, answer), existing, cfg, answer),
        entry_after(entry_after(e, existing, cfg, answer), existing, cfg, answer) == entry_after(
            e,
            existing,
            cfg,
            answer,
        ),
{
}

proof fn lemma_count_of_settled_is_zero(
    s: Seq<EntryV>,
    existing: Set<Seq<u8>>,
    cfg: Config,
    answer: bool,
)
    requires
        forall|i: int| 0 <= i < s.len() ==> !entry_converts(#[trigger] s[i], existing, cfg, answer),
    ensures
        count_converts(s, existing, cfg, answer) == 0,
    decreases s.len(),
{
    if s.len() > 0 {
        lemma_count_of_settled_is_zero(s.drop_last(), existing, cfg, answer);
    }
}

/// A second pass over the same listing, with the paths that exist unchanged,
/// is a no-op: it converts nothing and leaves every entry as the first pass
/// left it. The first pass keeps the set of existing paths as it is — a
/// conversion replaces a file by a symlink at the same path whose target
/// exists — so consulting the same set twice is faithful whenever every
/// symlink creation succeeded.
pub proof fn lemma_second_pass_is_noop(
    s: Seq<EntryV>,
    existing: Set<Seq<u8>>,
    cfg: Config,
    answer: bool,
)
    ensures
        count_converts(entries_after(s, existing, cfg, answer), existing, cfg, answer) == 0,
        entries_after(entries_after(s, existing, cfg, answer), existing, cfg, answer)
            == entries_after(s, existing, cfg, answer),
{
    let once = entries_after(s, existing, cfg, answer);
    assert forall|i: int| 0 <= i < once.len() implies !entry_converts(
        #[trigger] once[i],
        existing,
        cfg,
        answer,
    ) by {
        lemma_entry_settles(s[i], existing, cfg, answer);
    }
    lemma_count_of_settled_is_zero(once, existing, cfg, answer);
    assert forall|i: int| 0 <= i < once.len() implies entries_after(once, existing, cfg, answer)[i]
        == once[i] by {
        lemma_entry_settles(s[i], existing, cfg, answer);
    }
    assert(entries_after(once, existing, cfg, answer) =~= once);
}

/// Answering yes at the prompt converts exactly as a run without the
/// interactive flag does; answering no leaves the entry unmodified. The two
/// configurations may differ in the interactive flag alone.
pub proof fn lemma_interactive_answers(
    e: EntryV,
    existing: Set<Seq<u8>>,
    asking: Config,
    batch: Config,
    answer: bool,
)
    requires
        asking.interactive,
        !batch.interactive,
        asking.len == batch.len,
    ensures
        entry_after(e, existing, asking, true) == entry_after(e, existing, batch, answer),
        entry_after(e, existing, asking, false) == e,
{
}

} // verus!
