use cabinet::criteria::{matches_entry, FilterCriteria};
use cabinet::entry::FileEntry;
use cabinet::filter::filter_entries;
use cabinet::naming::{name_for, SortMode};
use cabinet::report::summarize;

fn entry(name: &str, size_bytes: u64, modified_secs: i64, is_file: bool) -> FileEntry {
    FileEntry { name: name.to_string(), size_bytes, modified_secs, is_file }
}

fn no_criteria() -> FilterCriteria {
    FilterCriteria {
        date_before: None,
        date_after: None,
        name_include: None,
        name_exclude: None,
        use_regex: false,
        size_min_kb: None,
        size_max_kb: None,
        extension: None,
    }
}

#[test]
fn only_files_pass_and_every_predicate_holds() {
    let entries = vec![
        entry("notes.txt", 2500, 1672531200, true),
        entry("folder", 2500, 1672531200, false),
        entry("keep.txt", 1500, 1672531200, true),
        entry("keep.log", 1500, 1672531200, true),
        entry("old.txt", 1500, 1000, true),
    ];
    let c = FilterCriteria {
        date_after: Some(1672531200),
        name_include: Some("keep".to_string()),
        size_min_kb: Some(1),
        extension: Some("txt".to_string()),
        ..no_criteria()
    };
    let kept = filter_entries(entries, &c);
    assert_eq!(kept.len(), 1);
    assert_eq!(kept[0].name, "keep.txt");
    for e in &kept {
        assert!(e.is_file);
        assert!(matches_entry(&c, e));
    }
}

#[test]
fn filter_keeps_listing_order() {
    let entries = vec![
        entry("c.txt", 1000, 0, true),
        entry("a.txt", 1000, 0, true),
        entry("b.txt", 1000, 0, true),
    ];
    let c = FilterCriteria { extension: Some("txt".to_string()), ..no_criteria() };
    let kept = filter_entries(entries, &c);
    let names: Vec<&str> = kept.iter().map(|e| e.name.as_str()).collect();
    assert_eq!(names, vec!["c.txt", "a.txt", "b.txt"]);
}

#[test]
fn size_boundary_keeps_exact_kilobytes() {
    let entries = vec![
        entry("under.bin", 999, 0, true),
        entry("low.bin", 3000, 0, true),
        entry("high.bin", 3999, 0, true),
        entry("over.bin", 4000, 0, true),
    ];
    let c = FilterCriteria { size_min_kb: Some(3), size_max_kb: Some(3), ..no_criteria() };
    let kept = filter_entries(entries, &c);
    let names: Vec<&str> = kept.iter().map(|e| e.name.as_str()).collect();
    assert_eq!(names, vec!["low.bin", "high.bin"]);
}

#[test]
fn small_file_truncates_to_zero_kilobytes() {
    let e = entry("tiny.bin", 999, 0, true);
    assert_eq!(e.size_kb(), 0);
    let c = FilterCriteria { size_min_kb: Some(0), size_max_kb: Some(0), ..no_criteria() };
    assert!(matches_entry(&c, &e));
}

#[test]
fn size_run_scenario() {
    let entries =
        vec![entry("a.txt", 500, 1672531200, true), entry("b.txt", 5000, 1685577600, true)];
    let c = FilterCriteria { size_min_kb: Some(1), ..no_criteria() };
    let matched = filter_entries(entries, &c);
    assert_eq!(matched.len(), 1);
    assert_eq!(matched[0].name, "b.txt");
    assert_eq!(name_for(SortMode::Size, None), "Sorted_by_Size");
    let outcomes = vec![true];
    let report = summarize(&outcomes);
    assert_eq!(report.moved_count, 1);
    assert_eq!(report.total_count, 1);
    assert_eq!(report.summary_line(), "Sorted 1/1 files into folders");
}

#[test]
fn nonmatching_file_is_never_among_the_matches() {
    let entries = vec![
        entry("stays.log", 800, 50, true),
        entry("goes.log", 8000, 50, true),
    ];
    let c = FilterCriteria { size_min_kb: Some(1), ..no_criteria() };
    assert!(!matches_entry(&c, &entries[0]));
    let kept = filter_entries(entries, &c);
    assert!(kept.iter().all(|e| e.name != "stays.log"));
    assert_eq!(kept.len(), 1);
}

#[test]
fn contradictory_size_window_yields_zero_matches() {
    let entries = vec![
        entry("a.bin", 7000, 0, true),
        entry("b.bin", 12000, 0, true),
        entry("c.bin", 0, 0, true),
    ];
    let c = FilterCriteria { size_min_kb: Some(10), size_max_kb: Some(5), ..no_criteria() };
    let kept = filter_entries(entries, &c);
    assert!(kept.is_empty());
}

#[test]
fn date_window_is_inclusive_on_both_sides() {
    let entries = vec![
        entry("before.txt", 0, 99, true),
        entry("at_start.txt", 0, 100, true),
        entry("inside.txt", 0, 150, true),
        entry("at_end.txt", 0, 200, true),
        entry("after.txt", 0, 201, true),
    ];
    let c = FilterCriteria { date_after: Some(100), date_before: Some(200), ..no_criteria() };
    let kept = filter_entries(entries, &c);
    let names: Vec<&str> = kept.iter().map(|e| e.name.as_str()).collect();
    assert_eq!(names, vec!["at_start.txt", "inside.txt", "at_end.txt"]);
}

#[test]
fn include_and_exclude_must_both_hold() {
    let entries = vec![
        entry("report_final.txt", 0, 0, true),
        entry("report_draft.txt", 0, 0, true),
        entry("notes.txt", 0, 0, true),
    ];
    let c = FilterCriteria {
        name_include: Some("report".to_string()),
        name_exclude: Some("draft".to_string()),
        ..no_criteria()
    };
    let kept = filter_entries(entries, &c);
    let names: Vec<&str> = kept.iter().map(|e| e.name.as_str()).collect();
    assert_eq!(names, vec!["report_final.txt"]);
}

#[test]
fn exclude_alone_keeps_the_rest() {
    let entries = vec![entry("keep.txt", 0, 0, true), entry("skip_tmp.txt", 0, 0, true)];
    let c = FilterCriteria { name_exclude: Some("tmp".to_string()), ..no_criteria() };
    let kept = filter_entries(entries, &c);
    let names: Vec<&str> = kept.iter().map(|e| e.name.as_str()).collect();
    assert_eq!(names, vec!["keep.txt"]);
}

#[test]
fn regex_mode_matches_as_a_regex() {
    let entries = vec![
        entry("img_001.png", 0, 0, true),
        entry("img_12.png", 0, 0, true),
        entry("img_abc.png", 0, 0, true),
    ];
    let c = FilterCriteria {
        name_include: Some(r"^img_\d+\.png$".to_string()),
        use_regex: true,
        ..no_criteria()
    };
    let kept = filter_entries(entries, &c);
    let names: Vec<&str> = kept.iter().map(|e| e.name.as_str()).collect();
    assert_eq!(names, vec!["img_001.png", "img_12.png"]);
}

#[test]
fn invalid_regex_pattern_matches_nothing() {
    let entries = vec![entry("anything.txt", 0, 0, true)];
    let c = FilterCriteria {
        name_include: Some("(".to_string()),
        use_regex: true,
        ..no_criteria()
    };
    let kept = filter_entries(entries, &c);
    assert!(kept.is_empty());
}

#[test]
fn extensionless_files_fail_the_extension_filter() {
    let entries = vec![entry("README", 0, 0, true), entry("data.txt", 0, 0, true)];
    let c = FilterCriteria { extension: Some("txt".to_string()), ..no_criteria() };
    let kept = filter_entries(entries, &c);
    let names: Vec<&str> = kept.iter().map(|e| e.name.as_str()).collect();
    assert_eq!(names, vec!["data.txt"]);
}

#[test]
fn extension_comparison_is_case_sensitive() {
    let entries = vec![entry("photo.JPG", 0, 0, true), entry("photo.jpg", 0, 0, true)];
    let c = FilterCriteria { extension: Some("jpg".to_string()), ..no_criteria() };
    let kept = filter_entries(entries, &c);
    let names: Vec<&str> = kept.iter().map(|e| e.name.as_str()).collect();
    assert_eq!(names, vec!["photo.jpg"]);
}
