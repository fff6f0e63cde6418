use jrnl::date::{for_date, for_today};
use jrnl::error::JournalError;
use jrnl::namespace::{get_header, header_of, resolve};
use jrnl::note::{after_create, ensure, initial_content, CreateOutcome};

fn ns(parts: &[&str]) -> Vec<String> {
    parts.iter().map(|p| p.to_string()).collect()
}

#[test]
fn resolve_nests_directories_and_names_file() {
    let path = resolve("root", &ns(&["2024", "3", "7"])).unwrap();
    assert_eq!(path.directory, "root/2024/3");
    assert_eq!(path.file, "root/2024/3/7.md");
}

#[test]
fn resolve_with_two_segments() {
    let path = resolve("/home/me/journal", &ns(&["ideas", "verus"])).unwrap();
    assert_eq!(path.directory, "/home/me/journal/ideas");
    assert_eq!(path.file, "/home/me/journal/ideas/verus.md");
}

#[test]
fn resolve_follows_the_platform_on_absolute_segments() {
    let path = resolve("root", &ns(&["a", "/b", "c"])).unwrap();
    let expected = std::path::Path::new("root").join("a").join("/b");
    assert_eq!(path.directory, expected.to_string_lossy());
    assert_eq!(path.file, expected.join("c.md").to_string_lossy());
}

#[test]
fn resolve_refuses_short_namespaces() {
    assert_eq!(resolve("root", &ns(&[])).err(), Some(JournalError::NamespaceTooShort));
    assert_eq!(resolve("root", &ns(&["only"])).err(), Some(JournalError::NamespaceTooShort));
}

#[test]
fn default_header_joins_segments_with_dots() {
    assert_eq!(get_header(ns(&["2024", "3", "7"])), "# 2024.3.7");
    assert_eq!(header_of(&ns(&["a", "b"])), "# a.b");
    assert_eq!(get_header(ns(&["solo"])), "# solo");
    assert_eq!(get_header(ns(&[])), "# ");
}

#[test]
fn initial_content_prefers_given_header() {
    let n = ns(&["2024", "3", "7"]);
    assert_eq!(initial_content(&n, None), "# 2024.3.7");
    assert_eq!(initial_content(&n, Some(String::from("# mine"))), "# mine");
}

#[test]
fn new_note_gets_default_header() {
    let n = ns(&["2024", "3", "7"]);
    assert_eq!(resolve("root", &n).unwrap().file, "root/2024/3/7.md");
    assert_eq!(ensure(None, &n, None), "# 2024.3.7");
}

#[test]
fn existing_note_is_left_unchanged() {
    let n = ns(&["2024", "3", "7"]);
    assert_eq!(ensure(Some(String::from("custom content")), &n, None), "custom content");
    assert_eq!(
        ensure(Some(String::from("custom content")), &n, Some(String::from("# other"))),
        "custom content"
    );
    assert_eq!(ensure(Some(String::new()), &n, None), "");
}

#[test]
fn initializing_twice_changes_nothing() {
    let n = ns(&["2024", "3", "7"]);
    let first = ensure(None, &n, None);
    let second = ensure(Some(first.clone()), &n, Some(String::from("# later")));
    assert_eq!(second, first);
    let third = ensure(Some(second.clone()), &n, None);
    assert_eq!(third, first);
}

#[test]
fn after_create_decides_what_to_write() {
    assert_eq!(
        after_create(CreateOutcome::Created, String::from("# h")),
        Ok(Some(String::from("# h")))
    );
    assert_eq!(after_create(CreateOutcome::AlreadyExists, String::from("# h")), Ok(None));
    assert_eq!(
        after_create(CreateOutcome::Failed, String::from("# h")),
        Err(JournalError::CreateFailed)
    );
}

#[test]
fn date_gives_namespace_and_weekday_header() {
    let note = for_date(2024, 3, 7).unwrap();
    assert_eq!(note.namespace, ns(&["2024", "3", "7"]));
    assert_eq!(note.header, "# Thursday  7 March 2024");
}

#[test]
fn date_header_with_two_digit_day() {
    let note = for_date(2023, 12, 25).unwrap();
    assert_eq!(note.namespace, ns(&["2023", "12", "25"]));
    assert_eq!(note.header, "# Monday 25 December 2023");
}

#[test]
fn date_before_year_zero() {
    let note = for_date(-4, 2, 29).unwrap();
    assert_eq!(note.namespace, ns(&["-4", "2", "29"]));
}

#[test]
fn invalid_dates_are_refused() {
    assert_eq!(for_date(2023, 2, 30).err(), Some(JournalError::InvalidDate));
    assert_eq!(for_date(2023, 2, 29).err(), Some(JournalError::InvalidDate));
    assert_eq!(for_date(1900, 2, 29).err(), Some(JournalError::InvalidDate));
    assert_eq!(for_date(2023, 4, 31).err(), Some(JournalError::InvalidDate));
    assert_eq!(for_date(2023, 0, 1).err(), Some(JournalError::InvalidDate));
    assert_eq!(for_date(2023, 13, 1).err(), Some(JournalError::InvalidDate));
    assert_eq!(for_date(2023, 1, 0).err(), Some(JournalError::InvalidDate));
    assert_eq!(for_date(2023, 1, 32).err(), Some(JournalError::InvalidDate));
    assert_eq!(for_date(262143, 1, 1).err(), Some(JournalError::InvalidDate));
    assert_eq!(for_date(-262144, 12, 31).err(), Some(JournalError::InvalidDate));
}

#[test]
fn dates_at_the_edges_are_accepted() {
    assert!(for_date(2024, 2, 29).is_ok());
    assert!(for_date(2000, 2, 29).is_ok());
    assert!(for_date(2023, 12, 31).is_ok());
    assert!(for_date(262142, 12, 31).is_ok());
    assert!(for_date(-262143, 1, 1).is_ok());
}

#[test]
fn today_has_a_note() {
    let note = for_today();
    assert_eq!(note.namespace.len(), 3);
    assert!(note.header.starts_with("# "));
    let year: i32 = note.namespace[0].parse().unwrap();
    let month: u32 = note.namespace[1].parse().unwrap();
    let day: u32 = note.namespace[2].parse().unwrap();
    assert_eq!(for_date(year, month, day).unwrap().header, note.header);
}
