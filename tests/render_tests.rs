use chrono::DateTime;
use entry_cli::error::CliError;
use entry_cli::models::{Author, Category, Entry, FrontMatter, Tag, TagAndCount, Timestamp};
use entry_cli::render::{
    category_path, contains_entry, editor_template, entry_details, entry_row, format_entries_table,
    format_tags_table, password_display, sort_tags_by_count, total_usage, username_display,
};

fn at(text: &str) -> Timestamp {
    let secs = DateTime::parse_from_rfc3339(text).unwrap().timestamp();
    Timestamp::from_unix(secs, 0).unwrap()
}

fn create_test_entry(id: u64, title: &str) -> Entry {
    Entry {
        entry_id: id,
        tenant_id: "_".to_string(),
        front_matter: FrontMatter {
            title: title.to_string(),
            summary: "Test summary".to_string(),
            categories: vec![
                Category { name: "tech".to_string() },
                Category { name: "programming".to_string() },
            ],
            tags: vec![
                Tag { name: "rust".to_string(), version: None },
                Tag { name: "cli".to_string(), version: None },
            ],
        },
        content: Some("# Test Content".to_string()),
        created: Author { name: "author".to_string(), date: Some(at("2023-01-01T10:00:00Z")) },
        updated: Author { name: "author".to_string(), date: Some(at("2023-01-02T15:30:00Z")) },
    }
}

fn create_test_tag(name: &str, count: u32) -> TagAndCount {
    TagAndCount { name: name.to_string(), version: Some("1.0".to_string()), count }
}

#[test]
fn test_category_path_separator() {
    let category_path_levels = vec![
        Category { name: "tech".to_string() },
        Category { name: "programming".to_string() },
        Category { name: "rust".to_string() },
    ];
    let path = category_path(&category_path_levels);
    assert_eq!(path, "tech > programming > rust");
    assert!(!path.contains("::"));
}

#[test]
fn test_single_category() {
    let levels = vec![Category { name: "blog".to_string() }];
    assert_eq!(category_path(&levels), "blog");
}

#[test]
fn test_empty_category_path() {
    let levels: Vec<Category> = vec![];
    assert_eq!(category_path(&levels), "");
}

#[test]
fn test_format_entries_table() {
    let entries = vec![create_test_entry(1, "First Entry"), create_test_entry(2, "Second Entry")];
    let table = format_entries_table(&entries);
    assert!(table.contains("First Entry"));
    assert!(table.contains("Second Entry"));
    assert!(table.contains("tech::programming"));
    assert!(table.contains("rust, cli"));
    assert!(table.contains("2023-01-02 15:30"));
    assert!(table.contains("ID"));
    assert!(table.contains("Title"));
    assert!(table.contains("Categories"));
    assert!(table.contains("Tags"));
    assert!(table.contains("Updated"));
}

#[test]
fn test_format_entries_table_empty() {
    let entries: Vec<Entry> = vec![];
    let table = format_entries_table(&entries);
    assert!(table.contains("ID"));
    assert!(table.contains("Title"));
}

#[test]
fn test_format_tags_table() {
    let tags = vec![create_test_tag("rust", 10), create_test_tag("cli", 5), create_test_tag("testing", 3)];
    let table = format_tags_table(&tags);
    assert!(table.contains("rust"));
    assert!(table.contains("cli"));
    assert!(table.contains("testing"));
    assert!(table.contains("10"));
    assert!(table.contains("5"));
    assert!(table.contains("3"));
    assert!(table.contains("Tag"));
    assert!(table.contains("Count"));
    assert!(!table.contains("Version"));
}

#[test]
fn test_format_tags_table_empty() {
    let tags: Vec<TagAndCount> = vec![];
    let table = format_tags_table(&tags);
    assert!(table.contains("Tag"));
    assert!(table.contains("Count"));
    assert!(!table.contains("Version"));
}

#[test]
fn test_entry_with_empty_categories_and_tags() {
    let mut entry = create_test_entry(1, "Test Entry");
    entry.front_matter.categories = vec![];
    entry.front_matter.tags = vec![];
    let table = format_entries_table(&vec![entry]);
    assert!(table.contains("Test Entry"));
    assert!(table.contains("Categories"));
    assert!(table.contains("Tags"));
}

#[test]
fn test_entry_with_no_updated_date() {
    let mut entry = create_test_entry(1, "Test Entry");
    entry.updated.date = None;
    let table = format_entries_table(&vec![entry]);
    assert!(table.contains("Test Entry"));
    assert!(table.contains("Updated"));
}

#[test]
fn test_category_separator() {
    let entry = create_test_entry(1, "Test Entry");
    let table = format_entries_table(&vec![entry]);
    assert!(table.contains("tech::programming"));
    assert!(!table.contains("tech > programming"));
    assert!(!table.contains("tech :: programming"));
}

#[test]
fn test_tag_separator() {
    let entry = create_test_entry(1, "Test Entry");
    let table = format_entries_table(&vec![entry]);
    assert!(table.contains("rust, cli"));
    assert!(!table.contains("rust::cli"));
}

#[test]
fn test_table_structure() {
    let entries = vec![create_test_entry(123, "Long Title for Testing Table Layout")];
    let table = format_entries_table(&entries);
    assert!(table.contains("123"));
    assert!(table.contains("Long Title for Testing Table Layout"));
    assert!(table.len() > 100);
}

#[test]
fn entry_row_holds_each_cell() {
    let row = entry_row(&create_test_entry(7, "T"));
    assert_eq!(row, vec!["7", "T", "tech::programming", "rust, cli", "2023-01-02 15:30"]);
    let mut e = create_test_entry(8, "U");
    e.updated.date = None;
    assert_eq!(entry_row(&e)[4], "");
}

#[test]
fn markdown_has_front_matter_then_content() {
    let entry = create_test_entry(1, "Hello");
    assert_eq!(
        entry.to_markdown(),
        "---\ntitle: Hello\nsummary: Test summary\ntags: [\"rust\", \"cli\"]\ncategories: [\"tech\", \"programming\"]\ndate: 2023-01-01T10:00:00+00:00\nupdated: 2023-01-02T15:30:00+00:00\n---\n\n# Test Content"
    );
    let mut bare = create_test_entry(2, "Bare");
    bare.front_matter.categories = vec![];
    bare.front_matter.tags = vec![];
    bare.created.date = None;
    bare.updated.date = None;
    bare.content = None;
    assert_eq!(bare.to_markdown(), "---\ntitle: Bare\nsummary: Test summary\ntags: []\ncategories: []\n---\n\n");
}

#[test]
fn details_describe_the_entry() {
    let mut entry = create_test_entry(42, "Details");
    entry.created.date = None;
    let lines = entry_details(&entry);
    assert_eq!(lines[0], "ID:         42");
    assert_eq!(lines[1], "Tenant:     _");
    assert_eq!(lines[4], "Categories: tech::programming");
    assert_eq!(lines[5], "Tags:       rust, cli");
    assert_eq!(lines[6], "Created:    N/A by author");
    assert_eq!(lines[7], "Updated:    2023-01-02 15:30:00 by author");
}

#[test]
fn contains_entry_finds_ids() {
    let entries = vec![create_test_entry(1, "a"), create_test_entry(5, "b")];
    assert!(contains_entry(&entries, 5));
    assert!(!contains_entry(&entries, 2));
    assert!(!contains_entry(&[], 1));
}

#[test]
fn tags_sort_by_descending_count_stably() {
    let mut tags = vec![
        create_test_tag("a", 3),
        create_test_tag("b", 10),
        create_test_tag("c", 3),
        create_test_tag("d", 0),
        create_test_tag("e", 10),
    ];
    sort_tags_by_count(&mut tags);
    let names: Vec<&str> = tags.iter().map(|t| t.name.as_str()).collect();
    assert_eq!(names, vec!["b", "e", "a", "c", "d"]);
    let mut none: Vec<TagAndCount> = vec![];
    sort_tags_by_count(&mut none);
    assert!(none.is_empty());
}

#[test]
fn total_usage_sums_counts() {
    let tags = vec![create_test_tag("a", u32::MAX), create_test_tag("b", u32::MAX), create_test_tag("c", 2)];
    assert_eq!(total_usage(&tags), 2 * (u32::MAX as u128) + 2);
    assert_eq!(total_usage(&[]), 0);
}

#[test]
fn secrets_are_masked() {
    assert_eq!(username_display(&Some("alice".to_string()), false), "ali (hidden)");
    assert_eq!(username_display(&Some("al".to_string()), false), "al (hidden)");
    assert_eq!(username_display(&Some("alice".to_string()), true), "alice");
    assert_eq!(username_display(&None, true), "(not set)");
    assert_eq!(password_display(&Some("pw".to_string()), false), "(hidden)");
    assert_eq!(password_display(&Some("pw".to_string()), true), "(set)");
    assert_eq!(password_display(&None, false), "(not set)");
}

#[test]
fn timestamps_out_of_range_are_refused() {
    assert!(Timestamp::from_unix(0, 1_000_000_000).is_none());
    assert!(Timestamp::from_unix(59, 2_000_000_000).is_none());
    assert!(Timestamp::from_unix(9_000_000_000_000, 0).is_none());
    let t = Timestamp::from_unix(-5, 7).unwrap();
    assert_eq!((t.secs(), t.nanos()), (-5, 7));
}

#[test]
fn editor_starts_from_template_or_blank_front_matter() {
    assert_eq!(editor_template(Ok("---\ntitle: T\n---\n".to_string())), "---\ntitle: T\n---\n");
    assert_eq!(
        editor_template(Err(CliError::Request("refused".to_string()))),
        "---\ntitle: New Entry\nsummary: \ntags: []\ncategories: []\n---\n\n"
    );
}

#[test]
fn leap_seconds_are_kept() {
    let t = Timestamp::from_unix(59, 1_500_000_000).unwrap();
    assert_eq!((t.secs(), t.nanos()), (59, 1_500_000_000));
    assert!(Timestamp::from_unix(-1, 1_000_000_000).is_some());
    assert!(Timestamp::from_unix(-61, 1_000_000_000).is_some());
    assert!(Timestamp::from_unix(-2, 1_000_000_000).is_none());
    assert!(Timestamp::from_unix(58, 1_000_000_000).is_none());
    let mut entry = create_test_entry(1, "Leap");
    entry.created.date = Some(Timestamp::from_unix(1_483_228_799, 1_000_000_000).unwrap());
    assert!(entry.to_markdown().contains("date: 2016-12-31T23:59:60+00:00"));
}
