use cabinet::errors::SortError;
use cabinet::provision::{provision_outcome, reuse_allowed, trim_line_end, FolderPlan};
use cabinet::report::{progress_percent, summarize, usize_to_string};

#[test]
fn a_missing_folder_is_created() {
    assert_eq!(provision_outcome(false, false), Ok(FolderPlan::Create));
    assert_eq!(provision_outcome(false, true), Ok(FolderPlan::Create));
}

#[test]
fn an_existing_folder_needs_the_affirmative() {
    assert_eq!(provision_outcome(true, true), Ok(FolderPlan::UseExisting));
}

#[test]
fn declining_the_reuse_prompt_aborts_with_nothing_moved() {
    assert_eq!(provision_outcome(true, false), Err(SortError::UserAborted));
    assert!(!reuse_allowed("n"));
}

#[test]
fn only_the_literal_y_confirms() {
    assert!(reuse_allowed("y"));
    assert!(!reuse_allowed("Y"));
    assert!(!reuse_allowed("yes"));
    assert!(!reuse_allowed(""));
    assert!(!reuse_allowed(" y"));
}

#[test]
fn console_line_ends_are_trimmed() {
    assert_eq!(trim_line_end("y\n"), "y");
    assert_eq!(trim_line_end("y\r\n"), "y");
    assert_eq!(trim_line_end("y"), "y");
    assert_eq!(trim_line_end("\n"), "");
    assert_eq!(trim_line_end(""), "");
    assert_eq!(trim_line_end("y\n\r"), "y\n");
}

#[test]
fn summarize_counts_the_successful_moves() {
    let outcomes = vec![true, false, true, true, false];
    let report = summarize(&outcomes);
    assert_eq!(report.moved_count, 3);
    assert_eq!(report.total_count, 5);
    assert_eq!(report.summary_line(), "Sorted 3/5 files into folders");
}

#[test]
fn summarize_an_empty_batch() {
    let outcomes: Vec<bool> = Vec::new();
    let report = summarize(&outcomes);
    assert_eq!(report.moved_count, 0);
    assert_eq!(report.total_count, 0);
    assert_eq!(report.summary_line(), "Sorted 0/0 files into folders");
}

#[test]
fn progress_stays_under_one_hundred() {
    assert_eq!(progress_percent(0, 4), 0);
    assert_eq!(progress_percent(1, 4), 25);
    assert_eq!(progress_percent(3, 4), 75);
    assert_eq!(progress_percent(99, 100), 99);
    assert_eq!(progress_percent(1, 3), 33);
}

#[test]
fn counts_are_written_in_decimal() {
    assert_eq!(usize_to_string(0), "0");
    assert_eq!(usize_to_string(7), "7");
    assert_eq!(usize_to_string(10), "10");
    assert_eq!(usize_to_string(12045), "12045");
}
