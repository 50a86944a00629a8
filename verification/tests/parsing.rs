use clipfixd::fetch::classify_fetch;
use clipfixd::fetch::FetchEvent;
use clipfixd::fetch::FetchResult;
use clipfixd::fetch::ReadEnd;
use clipfixd::guard::is_self_originated;
use clipfixd::nautilus::parse_nautilus_clipboard;
use clipfixd::nautilus::split_lines;
use clipfixd::reps::Reps;
use clipfixd::rules::rule_fetch_mime;
use clipfixd::rules::rule_output_mime;
use clipfixd::rules::translate;
use clipfixd::rules::Rule;
use clipfixd::urls::file_url_for_path;
use clipfixd::urls::try_file_url;

#[test]
fn files_fix_parses_all_valid_entries_in_order() {
    let r = parse_nautilus_clipboard("copy\nfile:///tmp/a.txt\nfile:///tmp/b.txt\n");
    assert_eq!(r, vec!["file:///tmp/a.txt".to_string(), "file:///tmp/b.txt".to_string()]);
    // The synthesized representation uses only the first entry.
    assert_eq!(r.first(), Some(&"file:///tmp/a.txt".to_string()));
}

#[test]
fn files_fix_accepts_cut_token() {
    let r = parse_nautilus_clipboard("cut\nfile:///tmp/a.txt\n");
    assert_eq!(r, vec!["file:///tmp/a.txt".to_string()]);
}

#[test]
fn files_fix_rejects_wrong_action_token() {
    assert_eq!(parse_nautilus_clipboard("move\nfile:///tmp/a.txt\n"), Vec::<String>::new());
}

#[test]
fn files_fix_rejects_non_file_entries() {
    assert_eq!(parse_nautilus_clipboard("copy\nhttp://example.com/x\n"), Vec::<String>::new());
}

#[test]
fn files_fix_rejects_empty_payload() {
    assert_eq!(parse_nautilus_clipboard(""), Vec::<String>::new());
    assert_eq!(parse_nautilus_clipboard("copy\n"), Vec::<String>::new());
    assert_eq!(parse_nautilus_clipboard("copy"), Vec::<String>::new());
}

#[test]
fn files_fix_is_case_sensitive_on_token() {
    assert_eq!(parse_nautilus_clipboard("Copy\nfile:///tmp/a.txt\n"), Vec::<String>::new());
    assert_eq!(parse_nautilus_clipboard("copy \nfile:///tmp/a.txt\n"), Vec::<String>::new());
}

#[test]
fn files_fix_skips_invalid_lines() {
    let r = parse_nautilus_clipboard("copy\nnot a url\nhttp://e.com/x\nfile:///tmp/z.txt");
    assert_eq!(r, vec!["file:///tmp/z.txt".to_string()]);
}

#[test]
fn files_fix_normalizes_scheme_case() {
    let r = parse_nautilus_clipboard("copy\nFILE:///tmp/x.txt\n");
    assert_eq!(r, vec!["file:///tmp/x.txt".to_string()]);
}

#[test]
fn files_fix_tolerates_crlf_endings() {
    let r = parse_nautilus_clipboard("copy\r\nfile:///tmp/a.txt\r\n");
    assert_eq!(r, vec!["file:///tmp/a.txt".to_string()]);
}

#[test]
fn split_lines_matches_line_semantics() {
    let ls = split_lines("a\nb\r\nc\n");
    assert_eq!(ls, vec!["a".to_string(), "b".to_string(), "c".to_string()]);
    assert_eq!(split_lines(""), Vec::<String>::new());
    assert_eq!(split_lines("a\n\nb"), vec!["a".to_string(), "".to_string(), "b".to_string()]);
}

#[test]
fn try_file_url_accepts_only_local_file_urls() {
    assert_eq!(try_file_url("file:///tmp/a.txt"), Some("file:///tmp/a.txt".to_string()));
    assert_eq!(try_file_url("http://example.com/a"), None);
    assert_eq!(try_file_url("not a url"), None);
}

#[test]
fn file_url_for_path_percent_encodes() {
    let r = file_url_for_path("/tmp/some dir/f.png");
    assert_eq!(r, Some("file:///tmp/some%20dir/f.png".to_string()));
}

#[test]
fn file_url_for_path_rejects_relative_paths() {
    assert_eq!(file_url_for_path("relative/f.png"), None);
}

#[test]
fn timed_out_fetch_keeps_partial_bytes() {
    let r = classify_fetch(FetchEvent::Read { bytes: vec![1, 2, 3], end: ReadEnd::TimedOut });
    assert!(matches!(r, FetchResult::Content(b) if b == vec![1, 2, 3]));
    let r = classify_fetch(FetchEvent::Read { bytes: Vec::new(), end: ReadEnd::TimedOut });
    assert!(matches!(r, FetchResult::Content(b) if b.is_empty()));
}

#[test]
fn fetch_outcomes_are_distinguished() {
    let r = classify_fetch(FetchEvent::Read { bytes: vec![9], end: ReadEnd::Complete });
    assert!(matches!(r, FetchResult::Content(b) if b == vec![9]));
    assert!(matches!(classify_fetch(FetchEvent::Vanished), FetchResult::Vanished));
    assert!(matches!(classify_fetch(FetchEvent::OpenFailed), FetchResult::Error));
    let r = classify_fetch(FetchEvent::Read { bytes: vec![9], end: ReadEnd::Failed });
    assert!(matches!(r, FetchResult::Error));
}

#[test]
fn guard_detects_marker() {
    let with = vec![
        "text/plain".to_string(),
        "application/x-clipfixd-block-recursive".to_string(),
    ];
    let without = vec!["text/plain".to_string(), "text/uri-list".to_string()];
    assert!(is_self_originated(&with));
    assert!(!is_self_originated(&without));
    assert!(!is_self_originated(&Vec::new()));
}

#[test]
fn rule_table_fires_per_advertised_mime() {
    let both = vec![
        "x-special/gnome-copied-files".to_string(),
        "application/x-qt-image".to_string(),
    ];
    assert_eq!(translate(&both), vec![Rule::ImageFix, Rule::FilesFix]);
    let image = vec!["application/x-qt-image".to_string()];
    assert_eq!(translate(&image), vec![Rule::ImageFix]);
    let files = vec!["x-special/gnome-copied-files".to_string()];
    assert_eq!(translate(&files), vec![Rule::FilesFix]);
    let none = vec!["text/plain".to_string()];
    assert_eq!(translate(&none), Vec::<Rule>::new());
}

#[test]
fn rule_mime_types() {
    assert_eq!(rule_fetch_mime(&Rule::ImageFix), "application/x-qt-image");
    assert_eq!(rule_fetch_mime(&Rule::FilesFix), "x-special/gnome-copied-files");
    assert_eq!(rule_output_mime(&Rule::ImageFix), "text/uri-list");
    assert_eq!(rule_output_mime(&Rule::FilesFix), "text/uri-list");
}

#[test]
fn reps_insert_is_last_write_wins() {
    let mut r = Reps::new();
    assert!(r.is_empty());
    r.insert("text/plain".to_string(), b"one".to_vec());
    r.insert("text/plain".to_string(), b"two".to_vec());
    assert!(!r.is_empty());
    assert_eq!(r.get("text/plain"), Some(&b"two".to_vec()));
    assert!(r.contains_mime("text/plain"));
    assert!(!r.contains_mime("text/html"));
    assert_eq!(r.get("text/html"), None);
}

#[test]
fn reps_extend_prefers_fetched_originals() {
    let mut r = Reps::new();
    r.insert("text/uri-list".to_string(), b"synthesized".to_vec());
    r.extend_with(vec![
        ("text/uri-list".to_string(), Some(b"original".to_vec())),
        ("image/png".to_string(), Some(b"img".to_vec())),
        ("text/html".to_string(), None),
    ]);
    assert_eq!(r.get("text/uri-list"), Some(&b"original".to_vec()));
    assert_eq!(r.get("image/png"), Some(&b"img".to_vec()));
    assert_eq!(r.get("text/html"), None);
}
