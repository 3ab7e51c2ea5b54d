//! The two per-feed policies: which field identifies an item, and how the
//! body of a notification is derived from an item's description.

use crate::item::{FeedItem, ItemView};
use crate::text::{chars_of, find_chars, find_from, lemma_find_from_least, occurs_at};
use vstd::prelude::*;
use vstd::string::StrSliceExecFns;

verus! {

/// Which field of an item supplies its identity token.
#[derive(Copy, Clone, PartialEq, Eq, Structural, Debug)]
pub enum UniqueBy {
    Guid,
    Link,
}

/// How the body of a notification is derived from an item's description.
#[derive(Copy, Clone, PartialEq, Eq, Structural, Debug)]
pub enum ExtractContent {
    Raw,
    FindImage,
}

/// The marker that precedes the address of an image.
pub open spec fn image_marker() -> Seq<char> {
    "img src=\""@
}

/// The token that stands for an absent identity field.
pub open spec fn unknown_token() -> Seq<char> {
    "unknown"@
}

/// The fragment that a policy takes out of `content`, if it finds one.
///
/// `Raw` takes all of it. `FindImage` takes what stands between the first
/// image marker and the next double quote, and finds nothing where either
/// is missing.
pub open spec fn extracted(policy: ExtractContent, content: Seq<char>) -> Option<Seq<char>> {
    match policy {
        ExtractContent::Raw => Some(content),
        ExtractContent::FindImage => match find_from(content, image_marker(), 0) {
            None => None,
            Some(at) => {
                let start = at + image_marker().len();
                match find_from(content, seq!['"'], start) {
                    None => None,
                    Some(end) => Some(content.subrange(start, end)),
                }
            },
        },
    }
}

/// The name of a strategy.
pub open spec fn strategy_name(strategy: UniqueBy) -> Seq<char> {
    match strategy {
        UniqueBy::Guid => "Guid"@,
        UniqueBy::Link => "Link"@,
    }
}

/// A few words on what an extraction policy does.
pub open spec fn policy_words(policy: ExtractContent) -> Seq<char> {
    match policy {
        ExtractContent::Raw => "not parsing content"@,
        ExtractContent::FindImage => "showing first image"@,
    }
}

/// The identity token of an item under a strategy.
pub open spec fn token_of(strategy: UniqueBy, item: ItemView) -> Seq<char> {
    let field = match strategy {
        UniqueBy::Guid => item.guid,
        UniqueBy::Link => item.link,
    };
    match field {
        Some(t) => t,
        None => unknown_token(),
    }
}

/// Content without an image marker yields no fragment under `FindImage`,
/// and neither does content without a double quote after the first marker.
pub proof fn lemma_no_marker_no_fragment(content: Seq<char>)
    requires
        forall|i: int| !occurs_at(content, image_marker(), i),
    ensures
        extracted(ExtractContent::FindImage, content).is_none(),
{
    lemma_find_from_least(content, image_marker(), 0);
}

/// Where the first image marker of the content is followed by an address
/// without a double quote and then by a double quote, `FindImage` yields
/// exactly that address.
pub proof fn lemma_fragment_is_first_address(
    before: Seq<char>,
    address: Seq<char>,
    after: Seq<char>,
)
    requires
        forall|i: int|
            0 <= i < before.len() ==> !occurs_at(
                before + image_marker() + address + seq!['"'] + after,
                image_marker(),
                i,
            ),
        forall|k: int| 0 <= k < address.len() ==> address[k] != '"',
    ensures
        extracted(
            ExtractContent::FindImage,
            before + image_marker() + address + seq!['"'] + after,
        ) == Some(address),
{
    let quote = seq!['"'];
    let content = before + image_marker() + address + quote + after;
    let at = before.len() as int;
    let start = at + image_marker().len();
    let end = start + address.len();
    assert(content.subrange(at, start) =~= image_marker());
    assert(occurs_at(content, image_marker(), at));
    lemma_find_from_least(content, image_marker(), 0);
    assert(find_from(content, image_marker(), 0) == Some(at));
    assert(content.subrange(end, end + 1) =~= quote);
    assert(occurs_at(content, quote, end));
    assert forall|j: int| start <= j < end implies !occurs_at(content, quote, j) by {
        assert(content[j] == address[j - start]);
        if occurs_at(content, quote, j) {
            assert(content.subrange(j, j + 1)[0] == content[j]);
        }
    }
    lemma_find_from_least(content, quote, start);
    assert(find_from(content, quote, start) == Some(end));
    assert(content.subrange(start, end) =~= address);
}

impl ExtractContent {
    /// Takes the display fragment out of `content`, or reports with `None`
    /// that the policy found none.
    pub fn extract<'a>(&self, content: &'a str) -> (r: Option<&'a str>)
        ensures
            match r {
                Some(fragment) => extracted(*self, content@) == Some(fragment@),
                None => extracted(*self, content@).is_none(),
            },
            *self == ExtractContent::Raw ==> r == Some(content),
    {
        match self {
            ExtractContent::Raw => Some(content),
            ExtractContent::FindImage => {
                let chars = chars_of(content);
                let key = chars_of("img src=\"");
                let at = match find_chars(&chars, &key, 0) {
                    Some(at) => at,
                    None => {
                        return None;
                    },
                };
                proof {
                    lemma_find_from_least(content@, image_marker(), 0);
                    assert(at + key@.len() <= chars@.len() == chars.len());
                }
                let start: usize = at + key.len();
                proof {
                    reveal_strlit("\"");
                    assert("\""@ =~= seq!['"']);
                }
                let quote = chars_of("\"");
                let end = match find_chars(&chars, &quote, start) {
                    Some(end) => end,
                    None => {
                        return None;
                    },
                };
                proof {
                    lemma_find_from_least(content@, seq!['"'], start as int);
                }
                Some(content.substring_char(start, end))
            },
        }
    }

    /// A few words on what the policy does.
    pub fn describe(&self) -> (r: &'static str)
        ensures
            r@ == policy_words(*self),
    {
        match self {
            ExtractContent::Raw => "not parsing content",
            ExtractContent::FindImage => "showing first image",
        }
    }
}

impl UniqueBy {
    /// The identity token of `item`: the chosen field, or `"unknown"` where
    /// the item has none.
    pub fn get_value<'a>(&self, item: &'a FeedItem) -> (r: &'a str)
        ensures
            r@ == token_of(*self, item@),
    {
        let field: &'a Option<String> = match self {
            UniqueBy::Guid => &item.guid,
            UniqueBy::Link => &item.link,
        };
        match field {
            Some(t) => t.as_str(),
            None => "unknown",
        }
    }

    /// The name of the strategy.
    pub fn name(&self) -> (r: &'static str)
        ensures
            r@ == strategy_name(*self),
    {
        match self {
            UniqueBy::Guid => "Guid",
            UniqueBy::Link => "Link",
        }
    }
}

} // verus!
