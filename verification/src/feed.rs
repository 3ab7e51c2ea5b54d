//! From the bytes of a fetched feed to notifications: the feed is parsed by
//! the `rss` crate, the rest is decided here.

use crate::diff::{advanced_cursor, diff, new_notifications};
use crate::item::{items_view, FeedItem, ItemView};
use crate::notification::{notification_of, notifications_view, RssNotification};
use crate::state::{RssState, StateView};
use vstd::prelude::*;

verus! {

/// The error type of the `rss` crate's parser, carried through unread.
#[verifier::external_type_specification]
#[verifier::external_body]
pub struct ExRssError(rss::Error);

/// The items that `rss::Channel::read_from` reads out of `bytes`, in the
/// order of the document; `None` where it rejects them.
pub uninterp spec fn channel_items(bytes: Seq<u8>) -> Option<Seq<ItemView>>;

/// Calls `rss::Channel::read_from` on `bytes` and hands out the channel's
/// items, each with its title, link, guid value and description.
///
/// Trusted: that the parser's result depends on the bytes alone, so that it
/// can be called `channel_items(bytes@)`. Nothing is claimed about which
/// documents it accepts or what it reads out of them.
#[verifier::external_body]
fn read_channel(bytes: &[u8]) -> (r: Result<Vec<FeedItem>, rss::Error>)
    ensures
        match r {
            Ok(items) => channel_items(bytes@) == Some(items_view(items@)),
            Err(_) => channel_items(bytes@).is_none(),
        },
{
    let channel = rss::Channel::read_from(bytes)?;
    Ok(
        channel.items.into_iter().map(
            |item| FeedItem {
                title: item.title,
                link: item.link,
                guid: item.guid.map(|g| g.value),
                description: item.description,
            },
        ).collect(),
    )
}

/// Why a fetched feed gave no result.
#[derive(Copy, Clone, PartialEq, Eq, Structural, Debug)]
pub enum FeedError {
    /// The bytes are not a feed that the parser accepts.
    Malformed,
    /// The feed holds no item.
    NoPosts,
}

impl FeedError {
    /// The error in words.
    pub fn message(&self) -> (r: &'static str)
        ensures
            r@ == match *self {
                FeedError::Malformed => "Malformed feed"@,
                FeedError::NoPosts => "No posts found"@,
            },
    {
        match self {
            FeedError::Malformed => "Malformed feed",
            FeedError::NoPosts => "No posts found",
        }
    }
}

/// Parses the bytes of a feed into its items, newest first as the feed
/// lists them.
pub fn parse_feed(bytes: &[u8]) -> (r: Result<Vec<FeedItem>, FeedError>)
    ensures
        match channel_items(bytes@) {
            Some(items) => r.is_ok() && items_view(r.unwrap()@) == items,
            None => r == Err::<Vec<FeedItem>, FeedError>(FeedError::Malformed),
        },
{
    match read_channel(bytes) {
        Ok(items) => Ok(items),
        Err(_) => Err(FeedError::Malformed),
    }
}

/// Runs one poll of a record against a fetched list, newest item first:
/// returns the notifications for the new items and moves the record's cursor
/// to the first fetched item. An empty list changes nothing.
pub fn apply_poll(state: &mut RssState, items: &Vec<FeedItem>) -> (r: Vec<RssNotification>)
    ensures
        notifications_view(r@) == new_notifications(
            old(state).unique_by,
            old(state)@.last_post,
            items_view(items@),
        ),
        final(state)@ == (StateView {
            last_post: advanced_cursor(
                old(state).unique_by,
                old(state)@.last_post,
                items_view(items@),
            ),
            ..old(state)@
        }),
        items@.len() == 0 ==> *final(state) == *old(state),
{
    let (fresh, token) = diff(state, items);
    state.advance(token);
    fresh
}

/// Runs one poll of a record against the bytes of its feed.
///
/// Bytes that the parser rejects leave the record as it was.
pub fn get_rss(state: &mut RssState, bytes: &[u8]) -> (r: Result<Vec<RssNotification>, FeedError>)
    ensures
        match channel_items(bytes@) {
            Some(items) => {
                &&& r.is_ok()
                &&& notifications_view(r.unwrap()@) == new_notifications(
                    old(state).unique_by,
                    old(state)@.last_post,
                    items,
                )
                &&& final(state)@ == (StateView {
                    last_post: advanced_cursor(old(state).unique_by, old(state)@.last_post, items),
                    ..old(state)@
                })
            },
            None => r == Err::<Vec<RssNotification>, FeedError>(FeedError::Malformed)
                && *final(state) == *old(state),
        },
{
    match parse_feed(bytes) {
        Ok(items) => Ok(apply_poll(state, &items)),
        Err(e) => Err(e),
    }
}

/// The notification for the newest of the fetched items.
pub fn newest_post(items: &Vec<FeedItem>) -> (r: Result<RssNotification, FeedError>)
    ensures
        match r {
            Ok(n) => items@.len() > 0 && n@ == notification_of(items@[0]@),
            Err(e) => items@.len() == 0 && e == FeedError::NoPosts,
        },
{
    if items.len() > 0 {
        Ok(RssNotification::new(&items[0]))
    } else {
        Err(FeedError::NoPosts)
    }
}

/// The notification for the newest item of the feed that `bytes` hold.
pub fn get_last_post(bytes: &[u8]) -> (r: Result<RssNotification, FeedError>)
    ensures
        match channel_items(bytes@) {
            Some(items) => if items.len() > 0 {
                r.is_ok() && r.unwrap()@ == notification_of(items[0])
            } else {
                r == Err::<RssNotification, FeedError>(FeedError::NoPosts)
            },
            None => r == Err::<RssNotification, FeedError>(FeedError::Malformed),
        },
{
    match parse_feed(bytes) {
        Ok(items) => newest_post(&items),
        Err(e) => Err(e),
    }
}

} // verus!
