use symlinkify::config::Config;
use symlinkify::config::DEFAULT_LEN;
use symlinkify::model::convert_entry_model;
use symlinkify::model::link_target_exists;
use symlinkify::model::run_entries;
use symlinkify::model::ModelEntry;
use symlinkify::model::PathSet;
use symlinkify::outcome::reported;
use symlinkify::outcome::ConversionOutcome;

fn batch_config(len: u64, verbose: bool) -> Config {
    Config::new(true, false, false, len, verbose).unwrap()
}

fn set_of(paths: &[&[u8]]) -> PathSet {
    let mut s = PathSet::empty();
    for p in paths {
        s.add(p.to_vec());
    }
    s
}

fn file(size: u64, parent: Option<&[u8]>, content: Option<&[u8]>) -> ModelEntry {
    ModelEntry::File {
        size,
        parent: parent.map(|p| p.to_vec()),
        content: content.map(|c| c.to_vec()),
    }
}

#[test]
fn file_naming_a_sibling_becomes_a_symlink() {
    let existing = set_of(&[b"dir/target.txt"]);
    let cfg = batch_config(DEFAULT_LEN, false);
    let entry = file(10, Some(b"dir"), Some(b"target.txt"));
    let (after, outcome) = convert_entry_model(&entry, &existing, &cfg, true);
    assert_eq!(after, ModelEntry::Symlink { target: b"target.txt".to_vec() });
    assert_eq!(outcome, ConversionOutcome::Converted);
    assert!(reported(&outcome, &cfg));
}

#[test]
fn file_over_the_threshold_is_untouched() {
    let existing = set_of(&[b"dir/target.txt"]);
    let cfg = batch_config(DEFAULT_LEN, true);
    let entry = file(600, Some(b"dir"), Some(b"target.txt"));
    let (after, outcome) = convert_entry_model(&entry, &existing, &cfg, true);
    assert_eq!(after, entry);
    assert_eq!(outcome, ConversionOutcome::SkippedTooLarge { size: 600 });
    assert!(reported(&outcome, &cfg));
    let quiet = batch_config(DEFAULT_LEN, false);
    assert!(!reported(&outcome, &quiet));
}

#[test]
fn file_naming_a_missing_target_is_untouched() {
    let existing = set_of(&[b"dir/target.txt"]);
    let cfg = batch_config(DEFAULT_LEN, true);
    let entry = file(11, Some(b"dir"), Some(b"missing.txt"));
    let (after, outcome) = convert_entry_model(&entry, &existing, &cfg, true);
    assert_eq!(after, entry);
    assert_eq!(outcome, ConversionOutcome::SkippedTargetMissing);
    assert!(reported(&outcome, &cfg));
    let quiet = batch_config(DEFAULT_LEN, false);
    assert!(!reported(&outcome, &quiet));
}

#[test]
fn content_is_used_verbatim_with_trailing_newline() {
    let existing = set_of(&[b"dir/target.txt"]);
    let cfg = batch_config(DEFAULT_LEN, false);
    let entry = file(11, Some(b"dir"), Some(b"target.txt\n"));
    let (after, outcome) = convert_entry_model(&entry, &existing, &cfg, true);
    assert_eq!(after, entry);
    assert_eq!(outcome, ConversionOutcome::SkippedTargetMissing);

    let with_newline = set_of(&[b"dir/target.txt\n"]);
    let (after2, outcome2) = convert_entry_model(&entry, &with_newline, &cfg, true);
    assert_eq!(after2, ModelEntry::Symlink { target: b"target.txt\n".to_vec() });
    assert_eq!(outcome2, ConversionOutcome::Converted);
}

#[test]
fn unreadable_content_is_skipped_silently() {
    let existing = set_of(&[b"dir/target.txt"]);
    let cfg = batch_config(DEFAULT_LEN, true);
    let entry = file(4, Some(b"dir"), None);
    let (after, outcome) = convert_entry_model(&entry, &existing, &cfg, true);
    assert_eq!(after, entry);
    assert_eq!(outcome, ConversionOutcome::SkippedUnreadable);
    assert!(!reported(&outcome, &cfg));
}

#[test]
fn absolute_content_ignores_the_parent() {
    let existing = set_of(&[b"/etc/hosts"]);
    let cfg = batch_config(DEFAULT_LEN, false);
    let entry = file(10, Some(b"dir"), Some(b"/etc/hosts"));
    let (after, outcome) = convert_entry_model(&entry, &existing, &cfg, true);
    assert_eq!(after, ModelEntry::Symlink { target: b"/etc/hosts".to_vec() });
    assert_eq!(outcome, ConversionOutcome::Converted);
}

#[test]
fn file_without_parent_uses_the_content_alone() {
    let existing = set_of(&[b"target.txt"]);
    let cfg = batch_config(DEFAULT_LEN, false);
    let entry = file(10, None, Some(b"target.txt"));
    let (after, outcome) = convert_entry_model(&entry, &existing, &cfg, true);
    assert_eq!(after, ModelEntry::Symlink { target: b"target.txt".to_vec() });
    assert_eq!(outcome, ConversionOutcome::Converted);
}

#[test]
fn existing_symlinks_are_skipped_on_sight() {
    let existing = set_of(&[b"dir/target.txt"]);
    let cfg = batch_config(DEFAULT_LEN, true);
    let entry = ModelEntry::Symlink { target: b"target.txt".to_vec() };
    let (after, outcome) = convert_entry_model(&entry, &existing, &cfg, true);
    assert_eq!(after, entry);
    assert_eq!(outcome, ConversionOutcome::SkippedSymlink);
    assert!(reported(&outcome, &cfg));
    let quiet = batch_config(DEFAULT_LEN, false);
    assert!(!reported(&outcome, &quiet));
}

#[test]
fn other_entries_are_always_reported() {
    let existing = PathSet::empty();
    let cfg = batch_config(DEFAULT_LEN, false);
    let (after, outcome) = convert_entry_model(&ModelEntry::Other, &existing, &cfg, true);
    assert_eq!(after, ModelEntry::Other);
    assert_eq!(outcome, ConversionOutcome::SkippedNotSymlinkable);
    assert!(reported(&outcome, &cfg));
    let (after2, outcome2) = convert_entry_model(&ModelEntry::Unreadable, &existing, &cfg, true);
    assert_eq!(after2, ModelEntry::Unreadable);
    assert_eq!(outcome2, ConversionOutcome::ListingError);
    assert!(reported(&outcome2, &cfg));
}

#[test]
fn interactive_no_leaves_the_file_and_yes_converts() {
    let existing = set_of(&[b"dir/target.txt"]);
    let asking = Config::new(true, false, true, DEFAULT_LEN, false).unwrap();
    let entry = file(10, Some(b"dir"), Some(b"target.txt"));

    let (kept, declined) = convert_entry_model(&entry, &existing, &asking, false);
    assert_eq!(kept, entry);
    assert_eq!(declined, ConversionOutcome::Declined);
    assert!(!reported(&declined, &asking));

    let (after, outcome) = convert_entry_model(&entry, &existing, &asking, true);
    let batch = batch_config(DEFAULT_LEN, false);
    let (after_batch, outcome_batch) = convert_entry_model(&entry, &existing, &batch, false);
    assert_eq!(after, after_batch);
    assert_eq!(outcome, outcome_batch);
    assert_eq!(outcome, ConversionOutcome::Converted);
}

#[test]
fn second_pass_converts_nothing() {
    let existing = set_of(&[b"dir/target.txt", b"dir/other.txt"]);
    let cfg = batch_config(DEFAULT_LEN, false);
    let entries = vec![
        file(10, Some(b"dir"), Some(b"target.txt")),
        file(600, Some(b"dir"), Some(b"target.txt")),
        file(9, Some(b"dir"), Some(b"other.txt")),
        file(11, Some(b"dir"), Some(b"missing.txt")),
        ModelEntry::Symlink { target: b"target.txt".to_vec() },
        ModelEntry::Other,
    ];
    let first = run_entries(&entries, &existing, &cfg, true);
    assert_eq!(first.conversions, 2);
    let second = run_entries(&first.entries, &existing, &cfg, true);
    assert_eq!(second.conversions, 0);
    assert_eq!(second.entries, first.entries);
}

#[test]
fn run_reports_outcomes_in_listing_order() {
    let existing = set_of(&[b"dir/target.txt"]);
    let cfg = batch_config(DEFAULT_LEN, false);
    let entries = vec![
        ModelEntry::Unreadable,
        file(10, Some(b"dir"), Some(b"target.txt")),
        file(600, Some(b"dir"), Some(b"target.txt")),
    ];
    let report = run_entries(&entries, &existing, &cfg, true);
    assert_eq!(report.outcomes, vec![
        ConversionOutcome::ListingError,
        ConversionOutcome::Converted,
        ConversionOutcome::SkippedTooLarge { size: 600 },
    ]);
    assert_eq!(report.conversions, 1);
    assert_eq!(report.entries[1], ModelEntry::Symlink { target: b"target.txt".to_vec() });
}

#[test]
fn link_target_exists_checks_the_joined_path() {
    let existing = set_of(&[b"dir/target.txt", b"plain.txt"]);
    let link = b"target.txt".to_vec();
    let dir = b"dir".to_vec();
    assert!(link_target_exists(Some(&dir), &link, &existing));
    assert!(!link_target_exists(None, &link, &existing));
    let plain = b"plain.txt".to_vec();
    assert!(link_target_exists(None, &plain, &existing));
    assert!(!link_target_exists(Some(&dir), &plain, &existing));
}

#[test]
fn path_set_membership_follows_added_paths() {
    let mut s = PathSet::empty();
    assert!(!s.contains_path(&b"a".to_vec()));
    s.add(b"a".to_vec());
    s.add(b"b/c".to_vec());
    assert!(s.contains_path(&b"a".to_vec()));
    assert!(s.contains_path(&b"b/c".to_vec()));
    assert!(!s.contains_path(&b"b".to_vec()));
}
