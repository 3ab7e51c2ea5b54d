use rss_telegram_bot::notification::clip;
use rss_telegram_bot::{ExtractContent, RssNotification, RssState, UniqueBy};

fn record(extract_content: ExtractContent) -> RssState {
    RssState {
        url: "http://x/feed".to_string(),
        unique_by: UniqueBy::Guid,
        extract_content,
        last_post: None,
        send_to: 7,
    }
}

fn note(content: &str) -> RssNotification {
    RssNotification {
        title: "Title".to_string(),
        url: "http://x/1".to_string(),
        content: content.to_string(),
    }
}

#[test]
fn find_image_returns_address_between_marker_and_quote() {
    let content = "<p>hi</p><img src=\"http://x/y.png\" alt=\"y\"> tail";
    assert_eq!(ExtractContent::FindImage.extract(content), Some("http://x/y.png"));
}

#[test]
fn find_image_takes_first_marker() {
    let content = "<img src=\"a.png\"><img src=\"b.png\">";
    assert_eq!(ExtractContent::FindImage.extract(content), Some("a.png"));
}

#[test]
fn find_image_without_marker_fails() {
    assert_eq!(ExtractContent::FindImage.extract("no image here"), None);
    assert_eq!(ExtractContent::FindImage.extract(""), None);
}

#[test]
fn find_image_without_closing_quote_fails() {
    assert_eq!(ExtractContent::FindImage.extract("<img src=\"http://x/y.png"), None);
}

#[test]
fn find_image_with_empty_address() {
    assert_eq!(ExtractContent::FindImage.extract("img src=\"\""), Some(""));
}

#[test]
fn find_image_after_non_ascii_text() {
    let content = "héllo wörld <img src=\"http://x/ü.png\">";
    assert_eq!(ExtractContent::FindImage.extract(content), Some("http://x/ü.png"));
}

#[test]
fn raw_returns_content_unchanged() {
    let content = "<img src=\"http://x/y.png\">";
    assert_eq!(ExtractContent::Raw.extract(content), Some(content));
}

#[test]
fn describe_names_the_policy() {
    assert_eq!(ExtractContent::Raw.describe(), "not parsing content");
    assert_eq!(ExtractContent::FindImage.describe(), "showing first image");
}

#[test]
fn long_body_is_cut_to_cap_and_marked() {
    let body = "a".repeat(1100);
    let out = clip(&body);
    assert_eq!(out, format!("{} [..]", "a".repeat(1024)));
    assert_eq!(out.chars().count(), 1029);
}

#[test]
fn body_at_cap_is_left_alone() {
    let body = "b".repeat(1024);
    assert_eq!(clip(&body), body);
    let short = "short";
    assert_eq!(clip(short), short);
    assert_eq!(clip(""), "");
}

#[test]
fn body_one_over_cap_is_cut() {
    let body = "c".repeat(1025);
    assert_eq!(clip(&body), format!("{} [..]", "c".repeat(1024)));
}

#[test]
fn cap_counts_characters() {
    let body = "é".repeat(1024);
    assert_eq!(clip(&body), body);
    let longer = "é".repeat(1030);
    assert_eq!(clip(&longer), format!("{} [..]", "é".repeat(1024)));
}

#[test]
fn format_has_three_lines() {
    let text = note("body text").format(1234, &record(ExtractContent::Raw));
    assert_eq!(text, "[1234] Title\nbody text\nhttp://x/1");
}

#[test]
fn format_applies_extraction() {
    let text = note("<img src=\"http://x/y.png\" alt=\"\">").format(9999, &record(ExtractContent::FindImage));
    assert_eq!(text, "[9999] Title\nhttp://x/y.png\nhttp://x/1");
}

#[test]
fn format_falls_back_to_raw_content() {
    let text = note("plain words").format(1111, &record(ExtractContent::FindImage));
    assert_eq!(text, "[1111] Title\nplain words\nhttp://x/1");
}

#[test]
fn format_cuts_long_body() {
    let text = note(&"z".repeat(1100)).format(5, &record(ExtractContent::Raw));
    assert_eq!(text, format!("[5] Title\n{} [..]\nhttp://x/1", "z".repeat(1024)));
}
