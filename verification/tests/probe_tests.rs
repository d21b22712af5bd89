use ps2_redump_downloader::probe::{
    find_from, probe_outcome, probe_range, total_from_content_length, total_from_content_range,
    total_size, ProbeAnswer,
};
use ps2_redump_downloader::text::chars_of;
use ps2_redump_downloader::transfer::{probe_timeouts, ByteRange, Timeouts};

#[test]
fn content_range_tells_the_total() {
    assert_eq!(total_from_content_range("bytes 0-1/12345"), Some(12345));
    assert_eq!(total_from_content_range("bytes 0-1/4700000000"), Some(4_700_000_000));
    assert_eq!(total_from_content_range("bytes 0-1/0"), Some(0));
    assert_eq!(total_from_content_range("/7"), Some(7));
}

#[test]
fn content_range_without_a_readable_total_tells_none() {
    assert_eq!(total_from_content_range("bytes 0-1/*"), None);
    assert_eq!(total_from_content_range("bytes 0-1"), None);
    assert_eq!(total_from_content_range(""), None);
    assert_eq!(total_from_content_range("bytes 0-1/"), None);
    assert_eq!(total_from_content_range("bytes 0-1/ 12"), None);
    assert_eq!(total_from_content_range("bytes 0-1/12 "), None);
    assert_eq!(total_from_content_range("bytes 0-1/18446744073709551616"), None);
}

#[test]
fn content_range_reads_the_field_between_the_first_two_slashes() {
    assert_eq!(total_from_content_range("a/5/7"), Some(5));
    assert_eq!(total_from_content_range("a//7"), None);
    assert_eq!(total_from_content_range("a/5/"), Some(5));
}

#[test]
fn content_range_agrees_with_splitting_by_hand() {
    let headers = ["bytes 0-1/10", "x", "", "/", "//", "1/2/3", "bytes */+9", "q/-1", "é/42/é"];
    for header in headers {
        let expected = header.split('/').nth(1).and_then(|field| field.parse::<u64>().ok());
        assert_eq!(total_from_content_range(header), expected, "for {:?}", header);
    }
}

#[test]
fn content_length_is_a_plain_number() {
    assert_eq!(total_from_content_length("2"), Some(2));
    assert_eq!(total_from_content_length("734003200"), Some(734_003_200));
    assert_eq!(total_from_content_length(""), None);
    assert_eq!(total_from_content_length("12 bytes"), None);
}

#[test]
fn total_size_prefers_the_content_range() {
    assert_eq!(total_size(Some("bytes 0-1/500"), Some("2")), Some(500));
    assert_eq!(total_size(Some("bytes 0-1/500"), None), Some(500));
}

#[test]
fn total_size_falls_back_to_the_content_length() {
    assert_eq!(total_size(None, Some("777")), Some(777));
    assert_eq!(total_size(Some("bytes 0-1/*"), Some("2")), Some(2));
    assert_eq!(total_size(Some("garbage"), Some("31")), Some(31));
}

#[test]
fn total_size_is_unknown_without_usable_headers() {
    assert_eq!(total_size(None, None), None);
    assert_eq!(total_size(Some("bytes 0-1/*"), None), None);
    assert_eq!(total_size(Some("bytes 0-1/*"), Some("chunked")), None);
}

#[test]
fn a_failed_probe_leaves_the_size_unknown() {
    assert_eq!(probe_outcome(&None), None);
}

#[test]
fn an_answered_probe_is_read_from_its_headers() {
    let answer = ProbeAnswer {
        content_range: Some("bytes 0-1/1024".to_string()),
        content_length: Some("2".to_string()),
    };
    assert_eq!(probe_outcome(&Some(answer)), Some(1024));
    let bare = ProbeAnswer { content_range: None, content_length: Some("88".to_string()) };
    assert_eq!(probe_outcome(&Some(bare)), Some(88));
    let empty = ProbeAnswer { content_range: None, content_length: None };
    assert_eq!(probe_outcome(&Some(empty)), None);
}

#[test]
fn a_probe_asks_for_two_bytes() {
    assert_eq!(probe_range(), ByteRange { start: 0, end: Some(1) });
    assert_eq!(probe_range().header_value(), "bytes=0-1");
}

#[test]
fn a_probe_reaches_the_server_faster_than_it_gives_up() {
    let times = probe_timeouts();
    assert_eq!(times, Timeouts { request: 30, connect: 10 });
    assert!(times.connect < times.request);
}

#[test]
fn find_from_gives_the_first_position() {
    let text = chars_of("a/b/c");
    assert_eq!(find_from(&text, '/', 0), 1);
    assert_eq!(find_from(&text, '/', 1), 1);
    assert_eq!(find_from(&text, '/', 2), 3);
    assert_eq!(find_from(&text, '/', 4), 5);
    assert_eq!(find_from(&text, '/', 5), 5);
    assert_eq!(find_from(&text, 'z', 0), 5);
}
