use asimov_cli::locator::{locator_from, normalize_locator};

const CWD: &str = "/work-dir-for-locators";

fn normalize(s: &str) -> String {
    normalize_locator(s, Some("/home-dir-for-locators"), CWD).0
}

#[test]
fn urls_keep_scheme_and_host() {
    assert_eq!(normalize("https://example.org"), "https://example.org/");
    assert_eq!(normalize("http://localhost:3000"), "http://localhost:3000/");
    assert_eq!(normalize("near://testnet/123456789"), "near://testnet/123456789");
    assert_eq!(normalize("mailto:user@example.com"), "mailto:user@example.com");
    assert_eq!(
        normalize("https://example.org/path with spaces"),
        "https://example.org/path%20with%20spaces"
    );
}

#[test]
fn normalizing_twice_changes_nothing_more() {
    for s in ["https://example.org", "near://testnet/1", "/no-such-dir-for-locators/a b.txt", "%zz", "x.txt", "~/y"] {
        let once = normalize(s);
        assert_eq!(normalize(&once), once, "{s}");
    }
}

#[test]
fn paths_become_absolute_file_locators() {
    let r = normalize("no-such-file-for-locators.txt");
    assert!(r.starts_with("file:///"), "{r}");
    assert!(r.ends_with("/no-such-file-for-locators.txt"), "{r}");
    assert_eq!(
        normalize("/no-such-dir-for-locators/file with spaces.txt"),
        "file:///no-such-dir-for-locators/file%20with%20spaces.txt"
    );
}

#[test]
fn schemes_are_lowercased() {
    assert_eq!(normalize("HTTPS://example.org"), "https://example.org/");
}

#[test]
fn existing_parent_segments_are_resolved() {
    assert_eq!(normalize("/.."), "file:///");
}

#[test]
fn home_relative_paths_use_the_given_home() {
    assert_eq!(normalize("~/doc.txt"), "file:///home-dir-for-locators/doc.txt");
    assert_eq!(normalize("file:~/doc.txt"), "file:///home-dir-for-locators/doc.txt");
    assert_eq!(
        normalize_locator("~/doc.txt", Some("/home-dir-for-locators/"), CWD).0,
        "file:///home-dir-for-locators/doc.txt"
    );
}

#[test]
fn home_relative_paths_without_a_home_fall_back() {
    let (locator, error) = normalize_locator("~/doc.txt", None, CWD);
    assert_eq!(locator, "file:///work-dir-for-locators/~/doc.txt");
    assert!(error.is_none());
    let (locator, _) = normalize_locator("file:~/doc.txt", None, CWD);
    assert_eq!(locator, "file:///work-dir-for-locators/~/doc.txt");
}

#[test]
fn unparsable_locators_become_plain_file_locators() {
    let (locator, error) = normalize_locator("%zz", None, CWD);
    assert!(error.is_some());
    assert_eq!(locator, "file:///work-dir-for-locators/%zz");
    let (locator, error) = normalize_locator("/a dir/%zz", None, CWD);
    assert!(error.is_some());
    assert_eq!(locator, "file:///a dir/%zz");
}

#[test]
fn fallback_locators_are_built_from_the_path() {
    assert_eq!(locator_from("a/b", "/w", None), "file:///w/a/b");
    assert_eq!(locator_from("a/b", "/w/", None), "file:///w/a/b");
    assert_eq!(locator_from("/abs", "/w", None), "file:///abs");
    assert_eq!(locator_from("file:///w/%zz", "/w", None), "file:///w/%zz");
    assert_eq!(locator_from("a", "/w", Some("file:/x/a".to_string())), "file:///x/a");
    assert_eq!(locator_from("a", "/w", Some("file://h/x".to_string())), "file://h/x");
    assert_eq!(locator_from("a", "/w", Some("file:rel".to_string())), "file:///w/a");
    assert_eq!(locator_from("a", "/w", Some("https://x/".to_string())), "https://x/");
}
