use fokus::layout::{
    build_history_table, centered_padding, header_label, history_min_rows, page_title,
    show_focus_line, table_rows_available,
};

#[test]
fn table_matches_fixed_width_columns() {
    let rows = vec![
        ("2024-03-01".to_string(), 10u64),
        ("2024-02-01".to_string(), 3u64),
    ];
    let expected = format!(
        "{:<11} | {:>6}\n{}\n{:<11} | {:>6}\n{:<11} | {:>6}\n",
        "Date",
        "Minutes",
        "-".repeat(21),
        "2024-03-01",
        10,
        "2024-02-01",
        3
    );
    assert_eq!(build_history_table(&rows, 0, 10), expected);
}

#[test]
fn table_windows_rows_by_offset_and_budget() {
    let rows = vec![
        ("2024-03-01".to_string(), 10u64),
        ("2024-02-01".to_string(), 3u64),
        ("2024-01-01".to_string(), 5u64),
    ];
    let expected = format!(
        "{:<11} | {:>6}\n{}\n{:<11} | {:>6}\n",
        "Date",
        "Minutes",
        "-".repeat(21),
        "2024-02-01",
        3
    );
    assert_eq!(build_history_table(&rows, 1, 1), expected);
}

#[test]
fn table_with_no_visible_rows_is_just_the_header() {
    let rows = vec![("2024-03-01".to_string(), 10u64)];
    let expected = format!("{:<11} | {:>6}\n{}\n", "Date", "Minutes", "-".repeat(21));
    assert_eq!(build_history_table(&rows, 5, 3), expected);
    assert_eq!(build_history_table(&rows, 0, 0), expected);
}

#[test]
fn table_key_wider_than_column_is_not_truncated() {
    let rows = vec![("a-rather-long-key".to_string(), 2u64)];
    let expected = format!(
        "{:<11} | {:>6}\n{}\n{:<11} | {:>6}\n",
        "Date",
        "Minutes",
        "-".repeat(21),
        "a-rather-long-key",
        2
    );
    assert_eq!(build_history_table(&rows, 0, 4), expected);
}

#[test]
fn centered_padding_splits_leftover_rows() {
    assert_eq!(centered_padding(20), (8, 8));
    assert_eq!(centered_padding(21), (8, 9));
    assert_eq!(centered_padding(4), (0, 0));
    assert_eq!(centered_padding(3), (0, 0));
}

#[test]
fn row_budgets() {
    assert_eq!(history_min_rows(30), 13);
    assert_eq!(history_min_rows(3), 0);
    assert_eq!(table_rows_available(10), 8);
    assert_eq!(table_rows_available(1), 0);
}

#[test]
fn focus_line_hidden_on_history_page_and_while_running() {
    assert!(show_focus_line(0, false, false));
    assert!(show_focus_line(1, false, false));
    assert!(!show_focus_line(2, false, false));
    assert!(!show_focus_line(0, true, false));
    assert!(show_focus_line(0, false, true));
    assert!(!show_focus_line(1, false, true));
    assert!(show_focus_line(1, true, false));
}

#[test]
fn labels_and_titles() {
    assert_eq!(header_label(0), "< Page 1 of 3 >");
    assert_eq!(header_label(1), "< Page 2 of 3 >");
    assert_eq!(header_label(2), "< Page 3 of 3 >");
    assert_eq!(page_title(0), " Stopwatch ");
    assert_eq!(page_title(1), " Timer ");
    assert_eq!(page_title(2), " History ");
}
