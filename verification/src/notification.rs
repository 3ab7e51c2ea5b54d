//! A notification for one new item, and its rendering as a message.

use crate::item::{FeedItem, ItemView};
use crate::policy::{extracted, ExtractContent};
use crate::state::RssState;
use crate::text::{decimal, decimal_string};
use vstd::prelude::*;
use vstd::string::{StrSliceExecFns, StringExecFns};

verus! {

/// What is told about one new item: its title, its address and its body as
/// the feed gave it.
#[derive(Debug)]
pub struct RssNotification {
    pub title: String,
    pub url: String,
    pub content: String,
}

/// The mathematical value of an `RssNotification`.
pub struct NotificationView {
    pub title: Seq<char>,
    pub url: Seq<char>,
    pub content: Seq<char>,
}

impl View for RssNotification {
    type V = NotificationView;

    open spec fn view(&self) -> NotificationView {
        NotificationView { title: self.title@, url: self.url@, content: self.content@ }
    }
}

/// The values of a list of notifications, in order.
pub open spec fn notifications_view(list: Seq<RssNotification>) -> Seq<NotificationView> {
    Seq::new(list.len(), |i: int| list[i]@)
}

/// The text of an optional field; empty where the field is absent.
pub open spec fn text_or_empty(field: Option<Seq<char>>) -> Seq<char> {
    match field {
        Some(t) => t,
        None => Seq::empty(),
    }
}

/// The notification that stands for an item.
pub open spec fn notification_of(item: ItemView) -> NotificationView {
    NotificationView {
        title: text_or_empty(item.title),
        url: text_or_empty(item.link),
        content: text_or_empty(item.description),
    }
}

/// The longest body, in characters, that a message shows in full.
pub const BODY_CAP: usize = 1024;

/// What is appended to a body that was cut.
pub open spec fn cut_marker() -> Seq<char> {
    " [..]"@
}

/// The body as a message shows it: whole up to `BODY_CAP` characters, else
/// its first `BODY_CAP` characters and the cut marker.
pub open spec fn clipped(body: Seq<char>) -> Seq<char> {
    if body.len() > BODY_CAP {
        body.take(BODY_CAP as int) + cut_marker()
    } else {
        body
    }
}

/// The body of a message before clipping: the fragment that the policy
/// extracts, or the whole content where it extracts none.
pub open spec fn body_of(policy: ExtractContent, content: Seq<char>) -> Seq<char> {
    match extracted(policy, content) {
        Some(fragment) => fragment,
        None => content,
    }
}

/// The message for a notification: the handle in brackets and the title,
/// then the clipped body, then the address, each on a line of its own.
pub open spec fn rendered(n: NotificationView, pin: u16, policy: ExtractContent) -> Seq<char> {
    "["@ + decimal(pin as nat) + "] "@ + n.title + "\n"@ + clipped(body_of(policy, n.content))
        + "\n"@ + n.url
}

/// A body of at most `BODY_CAP` characters is shown as it is; a longer one
/// is shown as its first `BODY_CAP` characters and the five of the cut
/// marker.
pub proof fn lemma_clipped_is_bounded(body: Seq<char>)
    ensures
        body.len() <= BODY_CAP ==> clipped(body) == body,
        body.len() > BODY_CAP ==> clipped(body).len() == BODY_CAP + 5 && clipped(body).take(
            BODY_CAP as int,
        ) == body.take(BODY_CAP as int) && clipped(body).skip(BODY_CAP as int) == cut_marker(),
        clipped(body).len() <= BODY_CAP + 5,
{
    reveal_strlit(" [..]");
    if body.len() > BODY_CAP {
        assert(clipped(body).take(BODY_CAP as int) =~= body.take(BODY_CAP as int));
        assert(clipped(body).skip(BODY_CAP as int) =~= cut_marker());
    }
}

/// A copy of the field's text; the empty string where it is absent.
fn owned_or_empty(field: &Option<String>) -> (r: String)
    ensures
        r@ == text_or_empty(crate::item::text_of(*field)),
{
    match field {
        Some(t) => t.clone(),
        None => String::new(),
    }
}

/// Cuts a body down to what a message shows of it.
pub fn clip(body: &str) -> (r: String)
    ensures
        r@ == clipped(body@),
{
    if body.unicode_len() > BODY_CAP {
        let mut out: String = body.substring_char(0, BODY_CAP).to_owned();
        out.append(" [..]");
        proof {
            assert(body@.subrange(0, BODY_CAP as int) =~= body@.take(BODY_CAP as int));
        }
        out
    } else {
        body.to_owned()
    }
}

impl RssNotification {
    /// The notification for `item`; an absent field becomes the empty
    /// string.
    pub fn new(item: &FeedItem) -> (r: RssNotification)
        ensures
            r@ == notification_of(item@),
    {
        RssNotification {
            title: owned_or_empty(&item.title),
            url: owned_or_empty(&item.link),
            content: owned_or_empty(&item.description),
        }
    }

    /// Renders the message for this notification under the record's
    /// extraction policy.
    pub fn format(&self, pin: u16, state: &RssState) -> (r: String)
        ensures
            r@ == rendered(self@, pin, state.extract_content),
    {
        let fragment: &str = match state.extract_content.extract(self.content.as_str()) {
            Some(fragment) => fragment,
            None => self.content.as_str(),
        };
        let body: String = clip(fragment);
        let handle: String = decimal_string(pin as u64);
        let mut out: String = "[".to_owned();
        out.append(handle.as_str());
        out.append("] ");
        out.append(self.title.as_str());
        out.append("\n");
        out.append(body.as_str());
        out.append("\n");
        out.append(self.url.as_str());
        out
    }
}

} // verus!
