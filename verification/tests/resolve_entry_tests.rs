use cabinet::entry::FileEntry;
use cabinet::errors::SortError;
use cabinet::resolve::{template_kind, TemplateKind};
use cabinet::text::{contains_sub, eq_ignore_case, pattern_matches};
use cabinet::tokens::{next_arg, Token, TokenType};

fn entry(name: &str) -> FileEntry {
    FileEntry { name: name.to_string(), size_bytes: 0, modified_secs: 0, is_file: true }
}

#[test]
fn every_template_name_resolves() {
    assert_eq!(template_kind("documents"), Ok(TemplateKind::Documents));
    assert_eq!(template_kind("downloads"), Ok(TemplateKind::Downloads));
    assert_eq!(template_kind("desktop"), Ok(TemplateKind::Desktop));
    assert_eq!(template_kind("home"), Ok(TemplateKind::Home));
    assert_eq!(template_kind("music"), Ok(TemplateKind::Music));
    assert_eq!(template_kind("audio"), Ok(TemplateKind::Music));
    assert_eq!(template_kind("pictures"), Ok(TemplateKind::Pictures));
    assert_eq!(template_kind("videos"), Ok(TemplateKind::Videos));
    assert_eq!(template_kind("movies"), Ok(TemplateKind::Videos));
}

#[test]
fn template_names_ignore_case() {
    assert_eq!(template_kind("Downloads"), Ok(TemplateKind::Downloads));
    assert_eq!(template_kind("DESKTOP"), Ok(TemplateKind::Desktop));
}

#[test]
fn an_unknown_template_is_an_error() {
    assert_eq!(template_kind("attic"), Err(SortError::UnknownTemplate));
    assert_eq!(template_kind(""), Err(SortError::UnknownTemplate));
}

#[test]
fn error_messages_are_readable() {
    assert_eq!(SortError::InvalidPath.message(), "ERROR: The path is invalid");
    assert_eq!(
        SortError::NoFilterSpecified.message(),
        "ERROR: At least one option must be provided"
    );
    assert_eq!(SortError::DateParseError.message(), "ERROR: Invalid date conversion");
    assert_eq!(
        SortError::InvalidSize.message(),
        "ERROR: Negative values cannot be used as file sizes"
    );
    assert_eq!(SortError::UserAborted.message(), "Aborted.");
}

#[test]
fn extensions_follow_the_last_dot() {
    assert_eq!(entry("a.txt").extension().as_deref(), Some("txt"));
    assert_eq!(entry("archive.tar.gz").extension().as_deref(), Some("gz"));
    assert_eq!(entry("README").extension(), None);
    assert_eq!(entry("ends.").extension().as_deref(), Some(""));
    assert_eq!(entry(".hidden").extension().as_deref(), Some("hidden"));
}

#[test]
fn kilobytes_are_truncated_by_thousands() {
    let mut e = entry("x");
    e.size_bytes = 999;
    assert_eq!(e.size_kb(), 0);
    e.size_bytes = 1000;
    assert_eq!(e.size_kb(), 1);
    e.size_bytes = 123_456;
    assert_eq!(e.size_kb(), 123);
}

#[test]
fn substring_search_finds_inner_matches() {
    assert!(contains_sub("file_report_v2.txt", "report"));
    assert!(contains_sub("abc", ""));
    assert!(contains_sub("abc", "abc"));
    assert!(!contains_sub("abc", "abcd"));
    assert!(!contains_sub("abc", "x"));
}

#[test]
fn case_insensitive_comparison_is_ascii_only() {
    assert!(eq_ignore_case("DownLoads", "downloads"));
    assert!(!eq_ignore_case("downloads", "download"));
    assert!(eq_ignore_case("", ""));
}

#[test]
fn patterns_fall_back_to_substrings_without_the_flag() {
    assert!(pattern_matches(false, "port", "report.txt"));
    assert!(!pattern_matches(false, r"^report", "report.txt"));
    assert!(pattern_matches(true, r"^report", "report.txt"));
}

#[test]
fn next_arg_reads_from_the_front_counting_down() {
    let argv = vec![
        Token { of_type: TokenType::SubCommand, value: "name".to_string(), position: 0 },
        Token { of_type: TokenType::Argument, value: "--includes".to_string(), position: 1 },
        Token { of_type: TokenType::ArgumentValue, value: "report".to_string(), position: 2 },
    ];
    let argc: usize = 2;
    let t = next_arg(&argc, &argv);
    assert_eq!(t.of_type, TokenType::Argument);
    assert_eq!(t.value, "--includes");
    assert_eq!(t.position, 1);
    let argc: usize = 1;
    let t = next_arg(&argc, &argv);
    assert_eq!(t.value, "report");
}
