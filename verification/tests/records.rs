use rss_telegram_bot::schedule::{Event, Scheduler};
use rss_telegram_bot::text::{chars_of, find_chars, same_text, slice_chars, starts_at};
use rss_telegram_bot::{ExtractContent, FeedItem, RssState, UniqueBy};

#[test]
fn record_clone_is_equal_field_by_field() {
    let state = RssState {
        url: "http://x/feed".to_string(),
        unique_by: UniqueBy::Guid,
        extract_content: ExtractContent::FindImage,
        last_post: Some("g1".to_string()),
        send_to: -7,
    };
    let copy = state.clone();
    assert_eq!(copy.url, state.url);
    assert_eq!(copy.unique_by, state.unique_by);
    assert_eq!(copy.extract_content, state.extract_content);
    assert_eq!(copy.last_post, state.last_post);
    assert_eq!(copy.send_to, state.send_to);
}

#[test]
fn item_clone_is_equal_field_by_field() {
    let item = FeedItem {
        title: Some("A".to_string()),
        link: None,
        guid: Some("g".to_string()),
        description: None,
    };
    let copy = item.clone();
    assert_eq!(copy.title, item.title);
    assert_eq!(copy.link, item.link);
    assert_eq!(copy.guid, item.guid);
    assert_eq!(copy.description, item.description);
}

#[test]
fn advance_takes_a_token_or_keeps_the_old_one() {
    let mut state = RssState::new("u", 1);
    state.advance(None);
    assert_eq!(state.last_post, None);
    state.advance(Some("g1".to_string()));
    assert_eq!(state.last_post, Some("g1".to_string()));
    state.advance(None);
    assert_eq!(state.last_post, Some("g1".to_string()));
    state.advance(Some("g2".to_string()));
    assert_eq!(state.last_post, Some("g2".to_string()));
}

#[test]
fn schedule_polls_only_within_a_pass() {
    let s = Scheduler::new();
    assert!(!s.is_polling());
    let (s, _) = s.step(Event::Woke(vec!["1-1111.json".to_string()]));
    assert!(s.is_polling());
    let (s, _) = s.step(Event::Loaded(RssState::new("u", 1)));
    assert!(s.is_polling());
    let (s, _) = s.step(Event::FetchFailed);
    assert!(!s.is_polling());
}

#[test]
fn search_finds_first_occurrence() {
    let hay = chars_of("abcabc");
    assert_eq!(find_chars(&hay, &chars_of("bc"), 0), Some(1));
    assert_eq!(find_chars(&hay, &chars_of("bc"), 1), Some(1));
    assert_eq!(find_chars(&hay, &chars_of("bc"), 2), Some(4));
    assert_eq!(find_chars(&hay, &chars_of("bc"), 5), None);
    assert_eq!(find_chars(&hay, &chars_of("x"), 0), None);
    assert_eq!(find_chars(&hay, &chars_of(""), 3), Some(3));
    assert_eq!(find_chars(&hay, &chars_of(""), 6), Some(6));
    assert_eq!(find_chars(&hay, &chars_of(""), 7), None);
    assert_eq!(find_chars(&hay, &chars_of("abcabcd"), 0), None);
}

#[test]
fn search_counts_characters_not_bytes() {
    let hay = chars_of("éé-x");
    assert_eq!(hay.len(), 4);
    assert_eq!(find_chars(&hay, &chars_of("-"), 0), Some(2));
    assert_eq!(slice_chars(&hay, 2, 4), vec!['-', 'x']);
    assert!(starts_at(&hay, &chars_of("é-"), 1));
    assert!(!starts_at(&hay, &chars_of("é-"), 0));
}

#[test]
fn same_text_compares_characters() {
    assert!(same_text("", ""));
    assert!(same_text("guid", "guid"));
    assert!(!same_text("guid", "Guid"));
    assert!(!same_text("guid", "guid "));
}
