use kopuz::pages::download_manager::{
    download_extension, next_range, on_range_response, ranged_total, should_publish,
    should_publish_plain, trailing_bytes, RangeDownload, RangeFailure, CHUNK,
};

#[test]
fn a_ranged_download_needs_a_user_agent_and_a_length() {
    assert_eq!(ranged_total(Some("ua"), Some(10)), Some(10));
    assert_eq!(ranged_total(None, Some(10)), None);
    assert_eq!(ranged_total(Some("ua"), None), None);
}

#[test]
fn ranges_walk_the_file_in_chunks() {
    let total = 2 * CHUNK + 10;
    let mut d = RangeDownload::new(total);
    assert_eq!(next_range(&d), Some((0, CHUNK - 1)));
    assert_eq!(on_range_response(&mut d, false, 206, CHUNK), Ok(()));
    assert_eq!(next_range(&d), Some((CHUNK, 2 * CHUNK - 1)));
    assert_eq!(on_range_response(&mut d, false, 206, CHUNK), Ok(()));
    assert_eq!(next_range(&d), Some((2 * CHUNK, total - 1)));
    assert_eq!(on_range_response(&mut d, false, 206, 10), Ok(()));
    assert_eq!(next_range(&d), None);
    assert_eq!((d.start(), d.done(), d.total()), (total, total, total));
}

#[test]
fn a_bad_range_response_leaves_the_download_where_it_was() {
    let mut d = RangeDownload::new(100);
    assert_eq!(on_range_response(&mut d, true, 206, 100), Err(RangeFailure::Cancelled));
    assert_eq!(
        on_range_response(&mut d, false, 503, 0),
        Err(RangeFailure::NotSuccess { status: 503, start: 0, end: 99 })
    );
    assert_eq!(
        on_range_response(&mut d, false, 200, 100),
        Err(RangeFailure::NotPartial { status: 200, start: 0, end: 99 })
    );
    assert_eq!(
        on_range_response(&mut d, false, 206, 60),
        Err(RangeFailure::Short { got: 60, expected: 100, start: 0, end: 99 })
    );
    assert_eq!((d.start(), d.done()), (0, 0));
}

#[test]
fn progress_is_published_first_then_every_fifty_ms_and_at_the_end() {
    assert!(should_publish(false, 0, 10, 100));
    assert!(!should_publish(true, 49, 10, 100));
    assert!(should_publish(true, 50, 10, 100));
    assert!(should_publish(true, 0, 100, 100));
    assert!(should_publish_plain(true, 0, 100, 100));
    assert!(!should_publish_plain(true, 0, 100, 0));
    assert_eq!(trailing_bytes(100, 40), 60);
    assert_eq!(trailing_bytes(10, 40), 0);
}

#[test]
fn the_content_type_names_the_extension() {
    assert_eq!(download_extension(Some("opus"), "m4a"), "opus");
    assert_eq!(download_extension(None, "m4a"), "m4a");
}
