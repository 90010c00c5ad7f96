use fokus::history::History;

#[test]
fn get_of_missing_key_is_none() {
    let h = History::new();
    assert_eq!(h.get(&"2024-01-01".to_string()), None);
    assert_eq!(h.len(), 0);
}

#[test]
fn add_minutes_accumulates_under_one_key() {
    let mut h = History::new();
    let day = "2024-05-06".to_string();
    h.add_minutes(&day, 5);
    h.add_minutes(&day, 7);
    assert_eq!(h.get(&day), Some(12));
    assert_eq!(h.len(), 1);
}

#[test]
fn add_minutes_keeps_other_keys() {
    let mut h = History::new();
    h.add_minutes(&"2024-05-06".to_string(), 5);
    h.add_minutes(&"2024-05-07".to_string(), 9);
    assert_eq!(h.get(&"2024-05-06".to_string()), Some(5));
    assert_eq!(h.get(&"2024-05-07".to_string()), Some(9));
    assert_eq!(h.len(), 2);
}

#[test]
fn add_minutes_saturates_instead_of_wrapping() {
    let mut h = History::new();
    let day = "2024-05-06".to_string();
    h.add_minutes(&day, u64::MAX - 1);
    h.add_minutes(&day, 10);
    assert_eq!(h.get(&day), Some(u64::MAX));
}

#[test]
fn entries_reflect_insertion_order() {
    let mut h = History::new();
    h.add_minutes(&"b".to_string(), 2);
    h.add_minutes(&"a".to_string(), 1);
    let es = h.entries();
    assert_eq!(es.len(), 2);
    assert_eq!(es[0], ("b".to_string(), 2));
    assert_eq!(es[1], ("a".to_string(), 1));
}

#[test]
fn sorted_view_orders_dates_descending() {
    let mut h = History::new();
    h.add_minutes(&"2024-01-01".to_string(), 5);
    h.add_minutes(&"2024-03-01".to_string(), 10);
    h.add_minutes(&"2024-02-01".to_string(), 3);
    let v = h.sorted_view();
    assert_eq!(
        v,
        vec![
            ("2024-03-01".to_string(), 10),
            ("2024-02-01".to_string(), 3),
            ("2024-01-01".to_string(), 5),
        ]
    );
}

#[test]
fn sorted_view_puts_unparsable_keys_after_valid_dates() {
    let mut h = History::new();
    h.add_minutes(&"not-a-date".to_string(), 4);
    h.add_minutes(&"2024-01-01".to_string(), 5);
    h.add_minutes(&"2024-03-01".to_string(), 10);
    h.add_minutes(&"2024-02-01".to_string(), 3);
    let v = h.sorted_view();
    assert_eq!(
        v,
        vec![
            ("2024-03-01".to_string(), 10),
            ("2024-02-01".to_string(), 3),
            ("2024-01-01".to_string(), 5),
            ("not-a-date".to_string(), 4),
        ]
    );
}

#[test]
fn sorted_view_keeps_unparsable_keys_in_stored_order() {
    let mut h = History::new();
    h.add_minutes(&"zebra".to_string(), 1);
    h.add_minutes(&"2024-06-01".to_string(), 2);
    h.add_minutes(&"apple".to_string(), 3);
    let v = h.sorted_view();
    assert_eq!(
        v,
        vec![
            ("2024-06-01".to_string(), 2),
            ("zebra".to_string(), 1),
            ("apple".to_string(), 3),
        ]
    );
}
