use feed_proxy::filter::{decide, Decision, Entry, SECONDS_PER_DAY};

const NOW: i64 = 1_704_240_000;

#[test]
fn all_entries_older_than_one_day_blocks() {
    let entries = vec![
        Entry { published: Some(NOW - 2 * SECONDS_PER_DAY) },
        Entry { published: Some(NOW - 3 * SECONDS_PER_DAY) },
    ];
    assert_eq!(decide(&entries, NOW), Decision::Block);
}

#[test]
fn empty_feed_blocks() {
    let entries: Vec<Entry> = Vec::new();
    assert_eq!(decide(&entries, NOW), Decision::Block);
}

#[test]
fn one_fresh_entry_passes() {
    let entries = vec![
        Entry { published: Some(NOW - 2 * SECONDS_PER_DAY) },
        Entry { published: Some(NOW - 3600) },
    ];
    assert_eq!(decide(&entries, NOW), Decision::PassThrough);
}

#[test]
fn undated_entry_passes() {
    let entries = vec![
        Entry { published: Some(NOW - 2 * SECONDS_PER_DAY) },
        Entry { published: None },
    ];
    assert_eq!(decide(&entries, NOW), Decision::PassThrough);
}

#[test]
fn entry_exactly_at_threshold_passes() {
    let entries = vec![Entry { published: Some(NOW - SECONDS_PER_DAY) }];
    assert_eq!(decide(&entries, NOW), Decision::PassThrough);
}

#[test]
fn entry_one_second_past_threshold_blocks() {
    let entries = vec![Entry { published: Some(NOW - SECONDS_PER_DAY - 1) }];
    assert_eq!(decide(&entries, NOW), Decision::Block);
}

#[test]
fn threshold_clamped_at_minimum_time() {
    let entries = vec![Entry { published: Some(i64::MIN) }];
    assert_eq!(decide(&entries, i64::MIN + 10), Decision::PassThrough);
}
