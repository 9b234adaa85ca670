use lister::clock::local_clock;
use lister::listing::{
    check_target, is_hidden, partition, plan_listing, print_order, visible_entries, Entry,
    ListError, RawEntry,
};
use lister::render::{entry_label, render_entry};

fn raw(name: &str, is_dir: bool) -> RawEntry {
    RawEntry { name: Some(name.to_string()), is_dir }
}

fn entry(name: &str, is_dir: bool) -> Entry {
    Entry { name: name.to_string(), is_dir }
}

fn sample_directory() -> Vec<RawEntry> {
    vec![raw(".hidden", false), raw("a.txt", false), raw("sub", true)]
}

fn compact_output(entries: &[Entry]) -> String {
    let mut out = String::new();
    for e in entries {
        let label = entry_label(&e.name, e.is_dir, false);
        out.push_str(&render_entry(&label, false, 0, ""));
    }
    out
}

#[test]
fn default_listing_hides_dotfiles() {
    let planned = plan_listing(&sample_directory(), false).unwrap();
    assert_eq!(compact_output(&planned), "a.txt  sub/  ");
}

#[test]
fn listing_all_includes_dotfiles() {
    let planned = plan_listing(&sample_directory(), true).unwrap();
    assert_eq!(compact_output(&planned), ".hidden  a.txt  sub/  ");
}

#[test]
fn detailed_line_for_a_file() {
    let clock = local_clock(1_609_842_600, 0).unwrap();
    let label = entry_label("a.txt", false, true);
    assert_eq!(render_entry(&label, true, 0o644, &clock), "rw-r--r-- Jan  5 10:30 a.txt\n");
}

#[test]
fn missing_target_fails() {
    assert_eq!(check_target(false), Err(ListError::Io));
    assert_eq!(check_target(true), Ok(()));
}

#[test]
fn undecodable_name_aborts_listing() {
    let mut dir = sample_directory();
    dir.push(RawEntry { name: None, is_dir: false });
    assert_eq!(plan_listing(&dir, false), Err(ListError::NameDecoding));
    assert_eq!(plan_listing(&dir, true), Err(ListError::NameDecoding));
    assert!(visible_entries(&dir, true).is_err());
}

#[test]
fn listed_set_matches_visibility() {
    let dir = vec![raw("b", true), raw(".x", true), raw("c", false), raw(".y", false)];
    let hidden_off = plan_listing(&dir, false).unwrap();
    assert_eq!(hidden_off, vec![entry("c", false), entry("b", true)]);
    let all = plan_listing(&dir, true).unwrap();
    assert_eq!(
        all,
        vec![entry("c", false), entry(".y", false), entry("b", true), entry(".x", true)]
    );
}

#[test]
fn files_precede_directories() {
    let dir = vec![raw("d1", true), raw("f1", false), raw("d2", true), raw("f2", false)];
    let planned = plan_listing(&dir, false).unwrap();
    let kinds: Vec<bool> = planned.iter().map(|e| e.is_dir).collect();
    assert_eq!(kinds, vec![false, false, true, true]);
    assert_eq!(planned[0].name, "f1");
    assert_eq!(planned[1].name, "f2");
    assert_eq!(planned[2].name, "d1");
    assert_eq!(planned[3].name, "d2");
}

#[test]
fn listing_twice_gives_same_output() {
    let first = compact_output(&plan_listing(&sample_directory(), true).unwrap());
    let second = compact_output(&plan_listing(&sample_directory(), true).unwrap());
    assert_eq!(first, second);
}

#[test]
fn empty_directory_lists_nothing() {
    assert_eq!(plan_listing(&Vec::new(), false), Ok(Vec::new()));
    assert_eq!(plan_listing(&Vec::new(), true), Ok(Vec::new()));
}

#[test]
fn hidden_names_start_with_a_dot() {
    assert!(is_hidden(".hidden"));
    assert!(is_hidden("."));
    assert!(is_hidden(".."));
    assert!(!is_hidden("a.txt"));
    assert!(!is_hidden(""));
}

#[test]
fn partition_keeps_order_in_each_group() {
    let entries = vec![entry("x", true), entry("y", false), entry("z", true), entry("w", false)];
    let (dirs, files) = partition(&entries);
    assert_eq!(dirs, vec![entry("x", true), entry("z", true)]);
    assert_eq!(files, vec![entry("y", false), entry("w", false)]);
    assert_eq!(
        print_order(&entries),
        vec![entry("y", false), entry("w", false), entry("x", true), entry("z", true)]
    );
}

#[test]
fn directory_label_is_plain_or_blue() {
    assert_eq!(entry_label("sub", true, false), "sub/");
    assert_eq!(entry_label("a.txt", false, true), "a.txt");
    let colored = entry_label("sub", true, true);
    assert!(colored == "sub/" || colored == "\u{1b}[34msub\u{1b}[0m/");
    assert!(entry_label("odd\u{1b}name", true, true).ends_with('/'));
}
