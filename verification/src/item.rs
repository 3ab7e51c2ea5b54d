//! One entry of a fetched feed, as plain values.

use vstd::prelude::*;

verus! {

/// One entry of a feed as the parser hands it over. Any field may be absent.
#[derive(Debug)]
pub struct FeedItem {
    pub title: Option<String>,
    pub link: Option<String>,
    pub guid: Option<String>,
    pub description: Option<String>,
}

/// The mathematical value of a `FeedItem`.
pub struct ItemView {
    pub title: Option<Seq<char>>,
    pub link: Option<Seq<char>>,
    pub guid: Option<Seq<char>>,
    pub description: Option<Seq<char>>,
}

/// The characters of an optional string.
pub open spec fn text_of(field: Option<String>) -> Option<Seq<char>> {
    match field {
        Some(s) => Some(s@),
        None => None,
    }
}

impl View for FeedItem {
    type V = ItemView;

    open spec fn view(&self) -> ItemView {
        ItemView {
            title: text_of(self.title),
            link: text_of(self.link),
            guid: text_of(self.guid),
            description: text_of(self.description),
        }
    }
}

/// A copy of an optional field.
fn clone_field(field: &Option<String>) -> (r: Option<String>)
    ensures
        text_of(r) == text_of(*field),
{
    match field {
        Some(t) => Some(t.clone()),
        None => None,
    }
}

impl Clone for FeedItem {
    fn clone(&self) -> (r: FeedItem)
        ensures
            r@ == self@,
    {
        FeedItem {
            title: clone_field(&self.title),
            link: clone_field(&self.link),
            guid: clone_field(&self.guid),
            description: clone_field(&self.description),
        }
    }
}

/// The values of a list of items, in order.
pub open spec fn items_view(items: Seq<FeedItem>) -> Seq<ItemView> {
    Seq::new(items.len(), |i: int| items[i]@)
}

} // verus!
