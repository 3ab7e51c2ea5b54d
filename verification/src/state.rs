//! The durable record of one tracked feed, and the naming of stored records.

use crate::item::text_of;
use crate::policy::{ExtractContent, UniqueBy};
use crate::text::{
    chars_of, decimal, decimal_string, find_chars, find_from, is_digit, lemma_decimal_reads_back,
    lemma_find_from_least, occurs_at,
    parse_decimal, parse_i64, parse_u16, signed_decimal, signed_decimal_string, slice_chars,
    starts_at,
};
use vstd::prelude::*;
use vstd::string::StringExecFns;

verus! {

/// The record of one tracked feed: where it is fetched, the two policies,
/// the token of the newest item seen so far, and the owner.
#[derive(Debug)]
pub struct RssState {
    pub url: String,
    pub unique_by: UniqueBy,
    pub extract_content: ExtractContent,
    pub last_post: Option<String>,
    pub send_to: i64,
}

/// The mathematical value of an `RssState`.
pub struct StateView {
    pub url: Seq<char>,
    pub unique_by: UniqueBy,
    pub extract_content: ExtractContent,
    pub last_post: Option<Seq<char>>,
    pub send_to: i64,
}

impl View for RssState {
    type V = StateView;

    open spec fn view(&self) -> StateView {
        StateView {
            url: self.url@,
            unique_by: self.unique_by,
            extract_content: self.extract_content,
            last_post: text_of(self.last_post),
            send_to: self.send_to,
        }
    }
}

impl Clone for RssState {
    fn clone(&self) -> (r: RssState)
        ensures
            r@ == self@,
    {
        RssState {
            url: self.url.clone(),
            unique_by: self.unique_by,
            extract_content: self.extract_content,
            last_post: match &self.last_post {
                Some(t) => Some(t.clone()),
                None => None,
            },
            send_to: self.send_to,
        }
    }
}

/// The name of the record of `sender_id` with handle `pin`: the owner, a
/// hyphen and the handle, both in decimal notation, then `.json`.
pub open spec fn name_of(sender_id: i64, pin: u16) -> Seq<char> {
    signed_decimal(sender_id as int) + "-"@ + decimal(pin as nat) + ".json"@
}

/// The path under which the record of `sender_id` with handle `pin` is
/// stored: its name within `sources/`.
pub open spec fn path_of(sender_id: i64, pin: u16) -> Seq<char> {
    "sources/"@ + name_of(sender_id, pin)
}

/// The owner and handle that a stored record's name stands for.
///
/// The name ends in `.json`; before that stand the owner, a hyphen and the
/// handle, both in decimal notation. The owner ends at the first hyphen.
pub open spec fn key_of_name(name: Seq<char>) -> Option<(i64, u16)> {
    let cut = name.len() - ".json"@.len();
    if cut < 0 || name.skip(cut) != ".json"@ {
        None
    } else {
        let prefix = name.take(cut);
        match find_from(prefix, seq!['-'], 0) {
            None => None,
            Some(dash) => match (
                parse_decimal(prefix.take(dash), i64::MIN as int, i64::MAX as int),
                parse_decimal(prefix.skip(dash + 1), 0, u16::MAX as int),
            ) {
                (Some(owner), Some(pin)) => Some((owner as i64, pin as u16)),
                _ => None,
            },
        }
    }
}

/// The name of a record reads back as the owner and the handle that it
/// was made from, where the owner is not negative. The name of a record
/// with a negative owner starts with a hyphen and stands for no key.
pub proof fn lemma_name_reads_back(sender_id: i64, pin: u16)
    ensures
        sender_id >= 0 ==> key_of_name(name_of(sender_id, pin)) == Some((sender_id, pin)),
        sender_id < 0 ==> key_of_name(name_of(sender_id, pin)).is_none(),
{
    reveal_strlit("-");
    let owner = signed_decimal(sender_id as int);
    let handle = decimal(pin as nat);
    let name = name_of(sender_id, pin);
    let cut = name.len() - ".json"@.len();
    let prefix = name.take(cut);
    let dash = seq!['-'];
    assert("-"@ =~= dash);
    assert(name.skip(cut) =~= ".json"@);
    assert(prefix =~= owner + dash + handle);
    lemma_decimal_reads_back(pin as nat);
    lemma_find_from_least(prefix, dash, 0);
    if sender_id >= 0 {
        lemma_decimal_reads_back(sender_id as nat);
        let at = owner.len() as int;
        assert(prefix.subrange(at, at + 1) =~= dash);
        assert(occurs_at(prefix, dash, at));
        assert forall|j: int| 0 <= j < at implies !occurs_at(prefix, dash, j) by {
            assert(is_digit(owner[j]));
            if occurs_at(prefix, dash, j) {
                assert(prefix.subrange(j, j + 1)[0] == prefix[j]);
            }
        }
        assert(find_from(prefix, dash, 0) == Some(at));
        assert(prefix.take(at) =~= owner);
        assert(prefix.skip(at + 1) =~= handle);
        assert(is_digit(owner[0]));
        assert(is_digit(handle[0]));
    } else {
        assert(prefix.subrange(0, 1) =~= dash);
        assert(occurs_at(prefix, dash, 0));
        assert(find_from(prefix, dash, 0) == Some(0int));
        assert(prefix.take(0) =~= Seq::<char>::empty());
    }
}

impl RssState {
    /// The record of a feed that was just added: no item seen yet, items
    /// told apart by their link, bodies shown as they are.
    pub fn new(url: &str, send_to: i64) -> (r: RssState)
        ensures
            r@ == (StateView {
                url: url@,
                unique_by: UniqueBy::Link,
                extract_content: ExtractContent::Raw,
                last_post: None,
                send_to,
            }),
    {
        RssState {
            url: url.to_owned(),
            unique_by: UniqueBy::Link,
            extract_content: ExtractContent::Raw,
            last_post: None,
            send_to,
        }
    }

    /// The path under which the record of `sender_id` with handle `pin` is
    /// stored.
    pub fn file_path(sender_id: i64, pin: u16) -> (r: String)
        ensures
            r@ == path_of(sender_id, pin),
    {
        let mut path: String = "sources/".to_owned();
        let owner: String = signed_decimal_string(sender_id);
        path.append(owner.as_str());
        path.append("-");
        let handle: String = decimal_string(pin as u64);
        path.append(handle.as_str());
        path.append(".json");
        proof {
            assert(path@ =~= path_of(sender_id, pin));
        }
        path
    }
}

/// Reads the owner and the handle out of a stored record's name.
pub fn get_user_id_and_pin_from_name(name: &str) -> (r: Option<(i64, u16)>)
    ensures
        r == key_of_name(name@),
{
    let chars = chars_of(name);
    let suffix = chars_of(".json");
    let n: usize = chars.len();
    let m: usize = suffix.len();
    if n < m {
        return None;
    }
    let cut: usize = n - m;
    proof {
        assert(name@.skip(cut as int) =~= name@.subrange(cut as int, cut + m));
    }
    if !starts_at(&chars, &suffix, cut) {
        return None;
    }
    let prefix = slice_chars(&chars, 0, cut);
    proof {
        reveal_strlit("-");
        assert("-"@ =~= seq!['-']);
        assert(prefix@ =~= name@.take(cut as int));
    }
    let hyphen = chars_of("-");
    let dash = match find_chars(&prefix, &hyphen, 0) {
        Some(dash) => dash,
        None => {
            return None;
        },
    };
    proof {
        lemma_find_from_least(prefix@, seq!['-'], 0);
        assert(occurs_at(prefix@, seq!['-'], dash as int));
        assert(seq!['-'].len() == 1);
    }
    let left = slice_chars(&prefix, 0, dash);
    let right = slice_chars(&prefix, dash + 1, cut);
    proof {
        assert(left@ =~= prefix@.take(dash as int));
        assert(right@ =~= prefix@.skip(dash + 1));
    }
    match (parse_i64(&left), parse_u16(&right)) {
        (Some(owner), Some(pin)) => Some((owner, pin)),
        _ => None,
    }
}

} // verus!
