use terminal_sessions::listing::{
    modified_time_ms, order_entries, order_names, FilesystemEntry, Precedence,
};
use terminal_sessions::sorting::{ordering_of, sort_listing};

fn entry(name: &str, is_directory: bool) -> FilesystemEntry {
    FilesystemEntry {
        name: String::from(name),
        path: format!("/root/{name}"),
        is_directory,
        size: name.len() as u64,
        mtime_ms: 0,
    }
}

fn names(entries: &[FilesystemEntry]) -> Vec<&str> {
    entries.iter().map(|entry| entry.name.as_str()).collect()
}

fn reference_sort(mut entries: Vec<FilesystemEntry>) -> Vec<FilesystemEntry> {
    entries.sort_by(|left, right| {
        if left.is_directory != right.is_directory {
            return right.is_directory.cmp(&left.is_directory);
        }
        left.name.to_ascii_lowercase().cmp(&right.name.to_ascii_lowercase())
    });
    entries
}

#[test]
fn an_unknown_or_oversized_time_is_shown_as_zero() {
    assert_eq!(modified_time_ms(None), 0);
    assert_eq!(modified_time_ms(Some(0)), 0);
    assert_eq!(modified_time_ms(Some(1_700_000_000_123)), 1_700_000_000_123);
    assert_eq!(modified_time_ms(Some(u64::MAX as u128)), u64::MAX);
    assert_eq!(modified_time_ms(Some(u64::MAX as u128 + 1)), 0);
    assert_eq!(modified_time_ms(Some(u128::MAX)), 0);
}

#[test]
fn names_are_ordered_without_regard_to_ascii_case() {
    assert_eq!(order_names("a", "b"), Precedence::Before);
    assert_eq!(order_names("b", "a"), Precedence::After);
    assert_eq!(order_names("a", "a"), Precedence::Same);
    assert_eq!(order_names("README", "readme"), Precedence::Same);
    assert_eq!(order_names("Zeta", "alpha"), Precedence::After);
    assert_eq!(order_names("alpha", "Zeta"), Precedence::Before);
    assert_eq!(order_names("", ""), Precedence::Same);
    assert_eq!(order_names("", "a"), Precedence::Before);
    assert_eq!(order_names("ab", "abc"), Precedence::Before);
    assert_eq!(order_names("abc", "ab"), Precedence::After);
    assert_eq!(order_names("_x", "A"), Precedence::Before);
    assert_eq!(order_names("[", "a"), Precedence::Before);
    assert_eq!(order_names("\u{c9}cole", "\u{e9}cole"), Precedence::Before);
    assert_eq!(order_names("z", "\u{e9}"), Precedence::Before);
}

#[test]
fn directories_come_before_files() {
    assert_eq!(order_entries(&entry("z", true), &entry("a", false)), Precedence::Before);
    assert_eq!(order_entries(&entry("a", false), &entry("z", true)), Precedence::After);
    assert_eq!(order_entries(&entry("a", true), &entry("b", true)), Precedence::Before);
    assert_eq!(order_entries(&entry("a", false), &entry("A", false)), Precedence::Same);
}

#[test]
fn ordering_of_names_the_precedence() {
    assert_eq!(ordering_of(&entry("a", true), &entry("b", true)), std::cmp::Ordering::Less);
    assert_eq!(ordering_of(&entry("b", true), &entry("B", true)), std::cmp::Ordering::Equal);
    assert_eq!(ordering_of(&entry("b", false), &entry("a", true)), std::cmp::Ordering::Greater);
}

#[test]
fn a_listing_is_sorted_directories_first_then_by_name() {
    let listing = vec![
        entry("main.rs", false),
        entry("src", true),
        entry("Cargo.toml", false),
        entry(".git", true),
        entry("README.md", false),
        entry("Assets", true),
        entry("build.rs", false),
    ];
    let sorted = sort_listing(listing);
    assert_eq!(
        names(&sorted),
        vec![".git", "Assets", "src", "build.rs", "Cargo.toml", "main.rs", "README.md"]
    );
}

#[test]
fn entries_that_compare_the_same_keep_their_order() {
    let listing = vec![entry("b", false), entry("A", false), entry("a", false), entry("B", false)];
    assert_eq!(names(&sort_listing(listing)), vec!["A", "a", "b", "B"]);
    let listing = vec![entry("B", false), entry("a", false), entry("A", false), entry("b", false)];
    assert_eq!(names(&sort_listing(listing)), vec!["a", "A", "B", "b"]);
}

#[test]
fn sorting_agrees_with_the_standard_comparisons() {
    let pool = [
        "", "a", "A", "b", "Z", "z", "_", "[", "~", "10", "9", "file.txt", "File.TXT", "file",
        "\u{e9}t\u{e9}", "\u{c9}t\u{e9}", "\u{4e16}\u{754c}", "a b", "a\tb", "AB", "aB", "Ab",
    ];
    let mut listing = Vec::new();
    for (i, name) in pool.iter().enumerate() {
        listing.push(entry(name, i % 3 == 0));
        listing.push(entry(name, i % 3 != 0));
    }
    listing.reverse();
    let expected = reference_sort(listing.clone());
    assert_eq!(sort_listing(listing), expected);
    assert_eq!(sort_listing(Vec::new()), Vec::new());
}
