use rss_telegram_bot::schedule::{
    decode_keys, time_until_next_update, Action, Event, Scheduler, Stage,
};
use rss_telegram_bot::{ExtractContent, FeedItem, RssState, UniqueBy};

fn item(title: &str, guid: &str) -> FeedItem {
    FeedItem {
        title: Some(title.to_string()),
        link: Some(format!("http://x/{}", guid)),
        guid: Some(guid.to_string()),
        description: Some(format!("about {}", title)),
    }
}

fn feed() -> Vec<FeedItem> {
    vec![item("A", "g3"), item("B", "g2"), item("C", "g1")]
}

fn record(last_post: Option<&str>) -> RssState {
    RssState {
        url: "http://x/feed".to_string(),
        unique_by: UniqueBy::Guid,
        extract_content: ExtractContent::Raw,
        last_post: last_post.map(|t| t.to_string()),
        send_to: 42,
    }
}

fn names(list: &[&str]) -> Vec<String> {
    list.iter().map(|n| n.to_string()).collect()
}

#[test]
fn names_decode_in_order_and_skip_strangers() {
    let keys = decode_keys(&names(&["1-1111.json", "README", "2-2222.json", "x-1.json"]));
    assert_eq!(keys, vec![(1, 1111), (2, 2222)]);
    assert_eq!(decode_keys(&Vec::new()), Vec::new());
}

#[test]
fn pass_without_records_goes_back_to_sleep() {
    let s = Scheduler::new();
    assert_eq!(s.stage(), Stage::Idle);
    let (s, action) = s.step(Event::Woke(names(&["notes.txt"])));
    assert!(matches!(action, Some(Action::Sleep(3600))));
    assert_eq!(s.stage(), Stage::Idle);
}

#[test]
fn full_pass_over_one_record() {
    let s = Scheduler::new();
    let (s, action) = s.step(Event::Woke(names(&["42-1234.json"])));
    assert!(matches!(action, Some(Action::Load { owner: 42, pin: 1234 })));
    assert_eq!(s.stage(), Stage::Loading);

    let (s, action) = s.step(Event::Loaded(record(Some("g1"))));
    match action {
        Some(Action::Fetch { url }) => assert_eq!(url, "http://x/feed"),
        other => panic!("unexpected {:?}", other),
    }
    assert_eq!(s.stage(), Stage::Fetching);

    let (s, action) = s.step(Event::Items(feed()));
    match action {
        Some(Action::Send { to, text }) => {
            assert_eq!(to, 42);
            assert_eq!(text, "[1234] A\nabout A\nhttp://x/g3");
        }
        other => panic!("unexpected {:?}", other),
    }
    assert_eq!(s.stage(), Stage::Sending);

    let (s, action) = s.step(Event::Done);
    match action {
        Some(Action::Send { to, text }) => {
            assert_eq!(to, 42);
            assert_eq!(text, "[1234] B\nabout B\nhttp://x/g2");
        }
        other => panic!("unexpected {:?}", other),
    }

    let (s, action) = s.step(Event::Done);
    match action {
        Some(Action::Save { owner, pin, state }) => {
            assert_eq!((owner, pin), (42, 1234));
            assert_eq!(state.last_post, Some("g3".to_string()));
            assert_eq!(state.url, "http://x/feed");
        }
        other => panic!("unexpected {:?}", other),
    }
    assert_eq!(s.stage(), Stage::Saving);

    let (s, action) = s.step(Event::Done);
    assert!(matches!(action, Some(Action::Sleep(3600))));
    assert_eq!(s.stage(), Stage::Idle);
}

#[test]
fn record_without_news_is_saved_at_once() {
    let (s, _) = Scheduler::new().step(Event::Woke(names(&["42-1234.json"])));
    let (s, _) = s.step(Event::Loaded(record(None)));
    let (s, action) = s.step(Event::Items(feed()));
    match action {
        Some(Action::Save { owner, pin, state }) => {
            assert_eq!((owner, pin), (42, 1234));
            assert_eq!(state.last_post, Some("g3".to_string()));
        }
        other => panic!("unexpected {:?}", other),
    }
    assert_eq!(s.stage(), Stage::Saving);
}

#[test]
fn failed_fetch_skips_the_record_without_saving() {
    let (s, _) = Scheduler::new().step(Event::Woke(names(&["42-1234.json", "43-2222.json"])));
    let (s, _) = s.step(Event::Loaded(record(Some("g2"))));
    let (s, action) = s.step(Event::FetchFailed);
    assert!(matches!(action, Some(Action::Load { owner: 43, pin: 2222 })));
    assert_eq!(s.stage(), Stage::Loading);
}

#[test]
fn unreadable_bytes_skip_the_record_without_saving() {
    let (s, _) = Scheduler::new().step(Event::Woke(names(&["42-1234.json"])));
    let (s, _) = s.step(Event::Loaded(record(Some("g2"))));
    let (s, action) = s.step(Event::Fetched(b"no feed at all".to_vec()));
    assert!(matches!(action, Some(Action::Sleep(3600))));
    assert_eq!(s.stage(), Stage::Idle);
}

#[test]
fn fetched_bytes_are_parsed_and_polled() {
    let bytes = "<rss version=\"2.0\"><channel><title>T</title><link>l</link><description>d</description>\
<item><title>A</title><link>http://x/g3</link><guid>g3</guid><description>about A</description></item>\
<item><title>B</title><link>http://x/g2</link><guid>g2</guid></item></channel></rss>";
    let (s, _) = Scheduler::new().step(Event::Woke(names(&["42-1234.json"])));
    let (s, _) = s.step(Event::Loaded(record(Some("g2"))));
    let (s, action) = s.step(Event::Fetched(bytes.as_bytes().to_vec()));
    match action {
        Some(Action::Send { to, text }) => {
            assert_eq!(to, 42);
            assert_eq!(text, "[1234] A\nabout A\nhttp://x/g3");
        }
        other => panic!("unexpected {:?}", other),
    }
    let (_, action) = s.step(Event::Done);
    match action {
        Some(Action::Save { state, .. }) => assert_eq!(state.last_post, Some("g3".to_string())),
        other => panic!("unexpected {:?}", other),
    }
}

#[test]
fn event_that_does_not_fit_is_ignored() {
    let (s, action) = Scheduler::new().step(Event::Done);
    assert!(action.is_none());
    assert_eq!(s.stage(), Stage::Idle);
    let (s, _) = s.step(Event::Woke(names(&["42-1234.json"])));
    let (s, action) = s.step(Event::FetchFailed);
    assert!(action.is_none());
    assert_eq!(s.stage(), Stage::Loading);
    let (s, action) = s.step(Event::Woke(names(&["1-1.json"])));
    assert!(action.is_none());
    assert_eq!(s.stage(), Stage::Loading);
}

#[test]
fn time_left_in_minutes_or_seconds() {
    assert_eq!(time_until_next_update(0), "60 minutes");
    assert_eq!(time_until_next_update(1), "59 minutes");
    assert_eq!(time_until_next_update(1_800_000_000_000), "30 minutes");
    assert_eq!(time_until_next_update(3_539_000_000_000), "1 minutes");
    assert_eq!(time_until_next_update(3_539_999_999_999), "1 minutes");
    assert_eq!(time_until_next_update(3_540_000_000_000), "60 seconds");
    assert_eq!(time_until_next_update(3_599_000_000_000), "1 seconds");
    assert_eq!(time_until_next_update(3_599_000_000_001), "0 seconds");
    assert_eq!(time_until_next_update(3_600_000_000_000), "0 seconds");
}
