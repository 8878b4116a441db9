use ytsearch::extract;
use ytsearch::watch_url_base;

fn sample_page() -> String {
    let json = "{\"contents\":{\"twoColumnSearchResultsRenderer\":{\"primaryContents\":{\"sectionListRenderer\":{\"contents\":[{\"itemSectionRenderer\":{\"contents\":[{\"videoRenderer\":{\"videoId\":\"abc123\",\"title\":{\"runs\":[{\"text\":\"Test Video\"}]},\"ownerText\":{\"runs\":[{\"text\":\"Test Channel\"}]},\"lengthText\":{\"simpleText\":\"3:21\"},\"viewCountText\":{\"simpleText\":\"42 views\"}}}]}}]}}}}}";
    format!("<html><script>var ytInitialData = {};</script></html>", json)
}

#[test]
fn no_marker_yields_nothing() {
    let records = extract("<html><body>plain page, no data blob</body></html>");
    assert_eq!(records.len(), 0);
}

#[test]
fn marker_without_terminator_yields_nothing() {
    let records = extract("var ytInitialData = {\"contents\":{}}");
    assert_eq!(records.len(), 0);
}

#[test]
fn invalid_json_after_marker_yields_nothing() {
    let records = extract("var ytInitialData = {broken;");
    assert_eq!(records.len(), 0);
}

#[test]
fn terminator_inside_string_truncates_to_nothing() {
    // The first-semicolon scan is the accepted trade-off: a terminator inside
    // a string literal truncates the candidate text, which then fails to
    // parse, and extraction yields nothing rather than failing.
    let records = extract("var ytInitialData = {\"a\":\";\"};");
    assert_eq!(records.len(), 0);
}

#[test]
fn valid_json_wrong_shape_yields_nothing() {
    let records = extract("var ytInitialData = {\"contents\":{\"other\":1}};");
    assert_eq!(records.len(), 0);
}

#[test]
fn sample_page_yields_one_full_record() {
    let records = extract(&sample_page());
    assert_eq!(records.len(), 1);
    let r = &records[0];
    assert_eq!(r.id, "abc123");
    assert_eq!(r.title, "Test Video");
    assert_eq!(r.channel, "Test Channel");
    assert_eq!(r.duration, "3:21");
    assert_eq!(r.viewers, "42 views");
    assert_eq!(r.avatar, "");
    assert_eq!(r.thumbnail, "");
    assert_eq!(r.url, "https://www.youtube.com/watch?v=abc123");
}

#[test]
fn entries_without_video_marker_are_skipped() {
    let json = "{\"contents\":{\"twoColumnSearchResultsRenderer\":{\"primaryContents\":{\"sectionListRenderer\":{\"contents\":[{\"itemSectionRenderer\":{\"contents\":[{\"playlistRenderer\":{\"playlistId\":\"p1\"}},{\"videoRenderer\":{\"videoId\":\"keepme\"}},{\"channelRenderer\":{\"channelId\":\"c1\"}}]}}]}}}}}";
    let page = format!("var ytInitialData = {};", json);
    let records = extract(&page);
    assert_eq!(records.len(), 1);
    assert_eq!(records[0].id, "keepme");
}

#[test]
fn missing_fields_default_to_empty_but_record_is_kept() {
    let json = "{\"contents\":{\"twoColumnSearchResultsRenderer\":{\"primaryContents\":{\"sectionListRenderer\":{\"contents\":[{\"itemSectionRenderer\":{\"contents\":[{\"videoRenderer\":{\"title\":{\"runs\":[{\"text\":\"Only Title\"}]}}}]}}]}}}}}";
    let page = format!("var ytInitialData = {};", json);
    let records = extract(&page);
    assert_eq!(records.len(), 1);
    let r = &records[0];
    assert_eq!(r.title, "Only Title");
    assert_eq!(r.id, "");
    assert_eq!(r.channel, "");
    assert_eq!(r.duration, "");
    assert_eq!(r.viewers, "");
    // With an empty id the derived URL is just the fixed base.
    assert_eq!(r.url, watch_url_base());
}

#[test]
fn wrongly_typed_fields_default_to_empty() {
    let json = "{\"contents\":{\"twoColumnSearchResultsRenderer\":{\"primaryContents\":{\"sectionListRenderer\":{\"contents\":[{\"itemSectionRenderer\":{\"contents\":[{\"videoRenderer\":{\"videoId\":7,\"lengthText\":{\"simpleText\":\"9:59\"}}}]}}]}}}}}";
    let page = format!("var ytInitialData = {};", json);
    let records = extract(&page);
    assert_eq!(records.len(), 1);
    assert_eq!(records[0].id, "");
    assert_eq!(records[0].duration, "9:59");
}

#[test]
fn output_keeps_entry_order() {
    let json = "{\"contents\":{\"twoColumnSearchResultsRenderer\":{\"primaryContents\":{\"sectionListRenderer\":{\"contents\":[{\"itemSectionRenderer\":{\"contents\":[{\"videoRenderer\":{\"videoId\":\"one\"}},{\"videoRenderer\":{\"videoId\":\"two\"}},{\"videoRenderer\":{\"videoId\":\"three\"}}]}}]}}}}}";
    let page = format!("var ytInitialData = {};", json);
    let records = extract(&page);
    assert_eq!(records.len(), 3);
    assert_eq!(records[0].id, "one");
    assert_eq!(records[1].id, "two");
    assert_eq!(records[2].id, "three");
    assert_eq!(records[1].url, "https://www.youtube.com/watch?v=two");
}
