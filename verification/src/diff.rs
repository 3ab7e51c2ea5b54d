//! Change detection: which of the freshly fetched items are new to a record,
//! and the token that the record keeps afterwards.

use crate::item::{items_view, text_of, FeedItem, ItemView};
use crate::notification::{
    notification_of, notifications_view, NotificationView, RssNotification,
};
use crate::policy::{token_of, UniqueBy};
use crate::state::RssState;
use vstd::prelude::*;

verus! {

/// How many items, counted from position `from`, come before the first one
/// whose token is `cursor`; all that are left where none has it.
pub open spec fn fresh_until(
    strategy: UniqueBy,
    cursor: Seq<char>,
    items: Seq<ItemView>,
    from: int,
) -> int
    decreases items.len() - from,
{
    if from < 0 || from >= items.len() || token_of(strategy, items[from]) == cursor {
        from
    } else {
        fresh_until(strategy, cursor, items, from + 1)
    }
}

/// How many of the fetched items are new: none without a cursor, else those
/// before the first item whose token is the cursor.
pub open spec fn fresh_count(
    strategy: UniqueBy,
    cursor: Option<Seq<char>>,
    items: Seq<ItemView>,
) -> int {
    match cursor {
        None => 0,
        Some(token) => fresh_until(strategy, token, items, 0),
    }
}

/// The notifications that a poll produces: one for each new item, in the
/// order of the feed.
pub open spec fn new_notifications(
    strategy: UniqueBy,
    cursor: Option<Seq<char>>,
    items: Seq<ItemView>,
) -> Seq<NotificationView> {
    Seq::new(
        fresh_count(strategy, cursor, items) as nat,
        |i: int| notification_of(items[i]),
    )
}

/// The token of the first fetched item, if there is one.
pub open spec fn updated_token(strategy: UniqueBy, items: Seq<ItemView>) -> Option<Seq<char>> {
    if items.len() > 0 {
        Some(token_of(strategy, items[0]))
    } else {
        None
    }
}

/// The cursor that a record keeps after a poll: the token of the first
/// fetched item, or the old cursor where nothing was fetched.
pub open spec fn advanced_cursor(
    strategy: UniqueBy,
    cursor: Option<Seq<char>>,
    items: Seq<ItemView>,
) -> Option<Seq<char>> {
    match updated_token(strategy, items) {
        Some(token) => Some(token),
        None => cursor,
    }
}

/// `fresh_until` stops at the first item that carries the cursor, and not
/// before.
pub proof fn lemma_fresh_until(
    strategy: UniqueBy,
    cursor: Seq<char>,
    items: Seq<ItemView>,
    from: int,
)
    requires
        0 <= from <= items.len(),
    ensures
        from <= fresh_until(strategy, cursor, items, from) <= items.len(),
        forall|j: int|
            from <= j < fresh_until(strategy, cursor, items, from) ==> token_of(
                strategy,
                #[trigger] items[j],
            ) != cursor,
        fresh_until(strategy, cursor, items, from) < items.len() ==> token_of(
            strategy,
            items[fresh_until(strategy, cursor, items, from)],
        ) == cursor,
    decreases items.len() - from,
{
    if from < items.len() && token_of(strategy, items[from]) != cursor {
        lemma_fresh_until(strategy, cursor, items, from + 1);
    }
}

/// The notifications for the first `count` items, in order.
pub open spec fn notifications_of_first(items: Seq<ItemView>, count: int) -> Seq<NotificationView> {
    Seq::new(count as nat, |i: int| notification_of(items[i]))
}

/// Without a cursor a poll produces no notification, whatever was fetched,
/// and the record's next cursor is the token of the first fetched item.
pub proof fn lemma_no_cursor_nothing_new(strategy: UniqueBy, items: Seq<ItemView>)
    ensures
        new_notifications(strategy, None, items).len() == 0,
        items.len() > 0 ==> advanced_cursor(strategy, None, items) == Some(
            token_of(strategy, items[0]),
        ),
{
}

/// Where item `k` is the first to carry the cursor, exactly the `k` items
/// before it are new, in the order of the feed.
pub proof fn lemma_new_up_to_first_match(
    strategy: UniqueBy,
    cursor: Seq<char>,
    items: Seq<ItemView>,
    k: int,
)
    requires
        0 <= k < items.len(),
        token_of(strategy, items[k]) == cursor,
        forall|j: int| 0 <= j < k ==> token_of(strategy, #[trigger] items[j]) != cursor,
    ensures
        fresh_count(strategy, Some(cursor), items) == k,
        new_notifications(strategy, Some(cursor), items) == notifications_of_first(items, k),
{
    lemma_fresh_until(strategy, cursor, items, 0);
}

/// Where no fetched item carries the cursor, every fetched item is new.
pub proof fn lemma_all_new_without_match(
    strategy: UniqueBy,
    cursor: Seq<char>,
    items: Seq<ItemView>,
)
    requires
        forall|j: int| 0 <= j < items.len() ==> token_of(strategy, #[trigger] items[j]) != cursor,
    ensures
        fresh_count(strategy, Some(cursor), items) == items.len(),
        new_notifications(strategy, Some(cursor), items) == notifications_of_first(
            items,
            items.len() as int,
        ),
{
    lemma_fresh_until(strategy, cursor, items, 0);
}

/// A second poll of the same list, with the cursor that the first poll
/// left, produces no notification.
pub proof fn lemma_second_poll_nothing_new(
    strategy: UniqueBy,
    cursor: Option<Seq<char>>,
    items: Seq<ItemView>,
)
    ensures
        new_notifications(
            strategy,
            advanced_cursor(strategy, cursor, items),
            items,
        ).len() == 0,
        advanced_cursor(strategy, advanced_cursor(strategy, cursor, items), items)
            == advanced_cursor(strategy, cursor, items),
{
}

/// A cursor, once set, stays set: a poll replaces it by the token of the
/// first fetched item and by nothing else, and keeps it where nothing was
/// fetched.
pub proof fn lemma_cursor_stays_set(
    strategy: UniqueBy,
    cursor: Option<Seq<char>>,
    items: Seq<ItemView>,
)
    ensures
        cursor.is_some() ==> advanced_cursor(strategy, cursor, items).is_some(),
        items.len() == 0 ==> advanced_cursor(strategy, cursor, items) == cursor,
        items.len() > 0 ==> advanced_cursor(strategy, cursor, items) == Some(
            token_of(strategy, items[0]),
        ),
{
}

/// Compares a record with a freshly fetched list, newest item first.
///
/// Returns the notifications for the new items and the token of the first
/// fetched item. The record is not changed.
pub fn diff(state: &RssState, items: &Vec<FeedItem>) -> (r: (Vec<RssNotification>, Option<String>))
    ensures
        notifications_view(r.0@) == new_notifications(
            state.unique_by,
            state@.last_post,
            items_view(items@),
        ),
        text_of(r.1) == updated_token(state.unique_by, items_view(items@)),
        state.last_post.is_none() ==> r.0@.len() == 0,
{
    let ghost ivs = items_view(items@);
    let mut fresh: Vec<RssNotification> = Vec::new();
    match &state.last_post {
        Some(previous) => {
            let n: usize = items.len();
            let mut i: usize = 0;
            let mut known: bool = false;
            while i < n && !known
                invariant
                    n == items@.len(),
                    ivs == items_view(items@),
                    i <= n,
                    fresh@.len() == i,
                    forall|j: int| 0 <= j < i ==> (#[trigger] fresh@[j])@ == notification_of(ivs[j]),
                    fresh_until(state.unique_by, previous@, ivs, 0) == fresh_until(
                        state.unique_by,
                        previous@,
                        ivs,
                        i as int,
                    ),
                    known ==> i < n && token_of(state.unique_by, ivs[i as int]) == previous@,
                decreases n - i + (if known { 0int } else { 1int }),
            {
                let token: String = state.unique_by.get_value(&items[i]).to_owned();
                if *previous == token {
                    known = true;
                } else {
                    fresh.push(RssNotification::new(&items[i]));
                    i += 1;
                }
            }
            proof {
                assert(fresh_until(state.unique_by, previous@, ivs, i as int) == i);
                assert(notifications_view(fresh@) =~= new_notifications(
                    state.unique_by,
                    state@.last_post,
                    ivs,
                ));
            }
        },
        None => {
            proof {
                assert(notifications_view(fresh@) =~= new_notifications(
                    state.unique_by,
                    state@.last_post,
                    ivs,
                ));
            }
        },
    }
    let token: Option<String> = if items.len() > 0 {
        Some(state.unique_by.get_value(&items[0]).to_owned())
    } else {
        None
    };
    (fresh, token)
}

impl RssState {
    /// Takes over the token that a poll returned; keeps the old one where
    /// the poll returned none.
    pub fn advance(&mut self, token: Option<String>)
        ensures
            final(self)@ == (crate::state::StateView {
                last_post: match token {
                    Some(t) => Some(t@),
                    None => old(self)@.last_post,
                },
                ..old(self)@
            }),
            token.is_none() ==> *final(self) == *old(self),
    {
        if let Some(t) = token {
            self.last_post = Some(t);
        }
    }
}

} // verus!
