//! What the chat commands decide: the handle of a new feed, the edits to a
//! record, and the texts of the answers.

use crate::policy::{policy_words, strategy_name, ExtractContent, UniqueBy};
use crate::schedule::{decode_keys, keys_of_names, strings_view};
use crate::state::{RssState, StateView};
use crate::text::{
    chars_of, decimal, decimal_string, find_chars, find_from, lemma_find_from_least, occurs_at,
    parse_decimal, parse_u16, same_text, slice_chars, starts_at,
};
use rand::Rng;
use vstd::prelude::*;
use vstd::string::{StrSliceExecFns, StringExecFns};

verus! {

/// What a message asks for.
#[derive(Copy, Clone, PartialEq, Eq, Structural, Debug)]
pub enum Command {
    Start,
    Add,
    Status,
    List,
    Edit,
    Delete,
    Show,
    Source,
    Unknown,
}

/// The lower-case form of an upper-case ASCII letter; any other character
/// as it is.
pub open spec fn lower_char(c: char) -> char {
    if 'A' <= c && c <= 'Z' {
        ((c as u8) + 32) as char
    } else {
        c
    }
}

/// A text with its upper-case ASCII letters in lower case.
pub open spec fn lowered(s: Seq<char>) -> Seq<char> {
    Seq::new(s.len(), |i: int| lower_char(s[i]))
}

/// The command that a word names, whatever the case of its letters.
pub open spec fn command_of(word: Seq<char>) -> Command {
    let w = lowered(word);
    if w == "/start"@ {
        Command::Start
    } else if w == "/add"@ {
        Command::Add
    } else if w == "/status"@ {
        Command::Status
    } else if w == "/list"@ {
        Command::List
    } else if w == "/edit"@ {
        Command::Edit
    } else if w == "/delete"@ {
        Command::Delete
    } else if w == "/show"@ {
        Command::Show
    } else if w == "/source"@ || w == "/github"@ {
        Command::Source
    } else {
        Command::Unknown
    }
}

/// Where the first word of a message ends: at its first space, or at its
/// end where it has none.
pub open spec fn word_end(message: Seq<char>) -> int {
    match find_from(message, seq![' '], 0) {
        Some(at) => at,
        None => message.len() as int,
    }
}

/// What `str::trim` leaves of a text.
pub uninterp spec fn trimmed(s: Seq<char>) -> Seq<char>;

/// Calls `str::trim`, which takes the white space off both ends of a text.
///
/// Trusted: that the result depends on the text alone, so that it can be
/// called `trimmed(s@)`.
#[verifier::external_body]
fn trim_text<'a>(s: &'a str) -> (r: &'a str)
    ensures
        r@ == trimmed(s@),
{
    s.trim()
}

/// The lower-case form of `c`.
fn lower(c: char) -> (r: char)
    ensures
        r == lower_char(c),
{
    if c >= 'A' && c <= 'Z' {
        ((c as u8) + 32) as char
    } else {
        c
    }
}

/// The first `to` characters of `chars` in lower case.
fn lowered_string(chars: &Vec<char>, to: usize) -> (r: Vec<char>)
    requires
        to <= chars@.len(),
    ensures
        r@ == lowered(chars@.take(to as int)),
{
    let mut out: Vec<char> = Vec::new();
    let mut i: usize = 0;
    while i < to
        invariant
            i <= to <= chars@.len(),
            out@.len() == i,
            forall|j: int| 0 <= j < i ==> #[trigger] out@[j] == lower_char(chars@[j]),
        decreases to - i,
    {
        out.push(lower(chars[i]));
        i += 1;
    }
    proof {
        assert(out@ =~= lowered(chars@.take(to as int)));
    }
    out
}

/// Whether `word` is spelled exactly as `name`.
fn is_word(word: &Vec<char>, name: &str) -> (r: bool)
    ensures
        r == (word@ == name@),
{
    let other = chars_of(name);
    if word.len() != other.len() {
        return false;
    }
    let r = starts_at(word, &other, 0);
    proof {
        assert(word@.subrange(0, word@.len() as int) =~= word@);
    }
    r
}

/// Names the command of a word that is already in lower case.
fn command_named(w: &Vec<char>) -> (r: Command)
    ensures
        r == if w@ == "/start"@ {
            Command::Start
        } else if w@ == "/add"@ {
            Command::Add
        } else if w@ == "/status"@ {
            Command::Status
        } else if w@ == "/list"@ {
            Command::List
        } else if w@ == "/edit"@ {
            Command::Edit
        } else if w@ == "/delete"@ {
            Command::Delete
        } else if w@ == "/show"@ {
            Command::Show
        } else if w@ == "/source"@ || w@ == "/github"@ {
            Command::Source
        } else {
            Command::Unknown
        },
{
    if is_word(w, "/start") {
        Command::Start
    } else if is_word(w, "/add") {
        Command::Add
    } else if is_word(w, "/status") {
        Command::Status
    } else if is_word(w, "/list") {
        Command::List
    } else if is_word(w, "/edit") {
        Command::Edit
    } else if is_word(w, "/delete") {
        Command::Delete
    } else if is_word(w, "/show") {
        Command::Show
    } else if is_word(w, "/source") || is_word(w, "/github") {
        Command::Source
    } else {
        Command::Unknown
    }
}

/// Splits a message into its command and the arguments that follow it.
///
/// The command is the first word, up to the first space; the arguments are
/// the rest, with the white space at both ends taken off.
pub fn parse_command<'a>(message: &'a str) -> (r: (Command, &'a str))
    ensures
        r.0 == command_of(message@.take(word_end(message@))),
        r.1@ == trimmed(message@.skip(word_end(message@))),
{
    proof {
        reveal_strlit(" ");
        assert(" "@ =~= seq![' ']);
    }
    let chars = chars_of(message);
    let space = chars_of(" ");
    let n: usize = chars.len();
    let end: usize = match find_chars(&chars, &space, 0) {
        Some(at) => at,
        None => n,
    };
    proof {
        lemma_find_from_least(message@, seq![' '], 0);
        assert(message@.skip(end as int) =~= message@.subrange(end as int, n as int));
    }
    let word = lowered_string(&chars, end);
    (command_named(&word), trim_text(message.substring_char(end, n)))
}

/// The least handle that a new feed can get.
pub const PIN_MIN: u16 = 1111;

/// The greatest handle that a new feed can get.
pub const PIN_MAX: u16 = 9999;

/// Draws a number between `low` and `high`, both included, from
/// `rand::thread_rng()` with `Rng::gen_range`.
///
/// Trusted: that the number lies in the range. Which number comes is left
/// open.
#[verifier::external_body]
fn random_between(low: u16, high: u16) -> (r: u16)
    requires
        low <= high,
    ensures
        low <= r <= high,
{
    rand::thread_rng().gen_range(low..=high)
}

/// Draws the handle for a new feed.
pub fn fresh_pin() -> (pin: u16)
    ensures
        PIN_MIN <= pin <= PIN_MAX,
{
    random_between(PIN_MIN, PIN_MAX)
}

/// Reads a handle as a user typed it.
pub fn parse_pin(arg: &str) -> (r: Option<u16>)
    ensures
        match r {
            Some(pin) => parse_decimal(arg@, 0, u16::MAX as int) == Some(pin as int),
            None => parse_decimal(arg@, 0, u16::MAX as int).is_none(),
        },
{
    parse_u16(&chars_of(arg))
}

/// The answer to a feed that was added.
pub open spec fn added_text(url: Seq<char>, pin: u16) -> Seq<char> {
    "Added "@ + url + " with pin "@ + decimal(pin as nat) + ". Type /status "@ + decimal(
        pin as nat,
    ) + " for more information."@
}

/// The answer to a feed that was added.
pub fn added_message(url: &str, pin: u16) -> (r: String)
    ensures
        r@ == added_text(url@, pin),
{
    let handle: String = decimal_string(pin as u64);
    let mut out: String = "Added ".to_owned();
    out.append(url);
    out.append(" with pin ");
    out.append(handle.as_str());
    out.append(". Type /status ");
    out.append(handle.as_str());
    out.append(" for more information.");
    out
}

/// The answer to a feed that was deleted.
pub open spec fn deleted_text(pin: u16, url: Seq<char>) -> Seq<char> {
    "Deleted ["@ + decimal(pin as nat) + "] "@ + url
        + ". You won't get any more notifications."@
}

/// The answer to a feed that was deleted.
pub fn deleted_message(pin: u16, url: &str) -> (r: String)
    ensures
        r@ == deleted_text(pin, url@),
{
    let handle: String = decimal_string(pin as u64);
    let mut out: String = "Deleted [".to_owned();
    out.append(handle.as_str());
    out.append("] ");
    out.append(url);
    out.append(". You won't get any more notifications.");
    out
}

/// The answer where a feed could not be fetched or read on demand.
pub open spec fn unavailable_text(url: Seq<char>) -> Seq<char> {
    "Could not RSS feed at "@ + url + ". Is the server available?"@
}

/// The answer where a feed could not be fetched or read on demand.
pub fn unavailable_message(url: &str) -> (r: String)
    ensures
        r@ == unavailable_text(url@),
{
    let mut out: String = "Could not RSS feed at ".to_owned();
    out.append(url);
    out.append(". Is the server available?");
    out
}

/// The status of the record with handle `pin`: the handle in brackets and
/// the address, then a line for each policy; `Not found` without a record.
pub open spec fn status_text(pin: u16, state: Option<StateView>) -> Seq<char> {
    match state {
        Some(s) => "["@ + decimal(pin as nat) + "] "@ + s.url + "\n - unique by "@
            + strategy_name(s.unique_by) + "\n - "@ + policy_words(s.extract_content) + "\n"@,
        None => "Not found"@,
    }
}

/// The value of an optional record.
pub open spec fn state_view(state: Option<&RssState>) -> Option<StateView> {
    match state {
        Some(s) => Some(s@),
        None => None,
    }
}

/// Renders the status of the record with handle `pin`, if there is one.
pub fn status_pin(pin: u16, state: Option<&RssState>) -> (r: String)
    ensures
        r@ == status_text(pin, state_view(state)),
{
    match state {
        Some(s) => {
            let handle: String = decimal_string(pin as u64);
            let mut out: String = "[".to_owned();
            out.append(handle.as_str());
            out.append("] ");
            out.append(s.url.as_str());
            out.append("\n - unique by ");
            out.append(s.unique_by.name());
            out.append("\n - ");
            out.append(s.extract_content.describe());
            out.append("\n");
            out
        },
        None => "Not found".to_owned(),
    }
}

/// The handles of `owner` among a list of keys, in order.
pub open spec fn pins_of(keys: Seq<(i64, u16)>, owner: i64) -> Seq<u16>
    decreases keys.len(),
{
    if keys.len() == 0 {
        Seq::empty()
    } else {
        let before = pins_of(keys.drop_last(), owner);
        if keys.last().0 == owner {
            before.push(keys.last().1)
        } else {
            before
        }
    }
}

/// The handles of the feeds of `owner` among the names of the stored
/// records, in the order of the names.
pub fn owned_pins(names: &Vec<String>, owner: i64) -> (r: Vec<u16>)
    ensures
        r@ == pins_of(keys_of_names(strings_view(names@)), owner),
{
    let keys = decode_keys(names);
    let mut pins: Vec<u16> = Vec::new();
    let mut i: usize = 0;
    while i < keys.len()
        invariant
            i <= keys@.len(),
            pins@ == pins_of(keys@.take(i as int), owner),
        decreases keys@.len() - i,
    {
        proof {
            assert(keys@.take(i + 1).drop_last() =~= keys@.take(i as int));
        }
        if keys[i].0 == owner {
            pins.push(keys[i].1);
        }
        i += 1;
    }
    proof {
        assert(keys@.take(keys@.len() as int) =~= keys@);
    }
    pins
}

/// Why an edit was not made.
#[derive(Copy, Clone, PartialEq, Eq, Structural, Debug)]
pub enum EditError {
    /// The setting is neither `unique` nor `content`.
    Usage,
    /// The value for `unique` is neither `link` nor `guid`.
    UniqueUsage,
    /// The value for `content` is neither `raw` nor `find image`.
    ContentUsage,
}

impl EditError {
    /// How the command is to be used.
    pub fn message(&self) -> (r: &'static str)
        ensures
            r@ == match *self {
                EditError::Usage => "Usage: /edit <PIN> <unique|content> <args>"@,
                EditError::UniqueUsage => "Usage: /edit <PIN> unique <link|guid>"@,
                EditError::ContentUsage => "Usage: /edit <PIN> content <raw|find image>"@,
            },
    {
        match self {
            EditError::Usage => "Usage: /edit <PIN> <unique|content> <args>",
            EditError::UniqueUsage => "Usage: /edit <PIN> unique <link|guid>",
            EditError::ContentUsage => "Usage: /edit <PIN> content <raw|find image>",
        }
    }
}

/// The three parts of an edit: the handle, the setting and its value, with
/// one space after the handle and one after the setting. The value is all
/// that follows.
pub open spec fn edit_args_of(right: Seq<char>) -> Option<(u16, Seq<char>, Seq<char>)> {
    match find_from(right, seq![' '], 0) {
        None => None,
        Some(a) => match (
            parse_decimal(right.take(a), 0, u16::MAX as int),
            find_from(right, seq![' '], a + 1),
        ) {
            (Some(pin), Some(b)) => Some((pin as u16, right.subrange(a + 1, b), right.skip(b + 1))),
            _ => None,
        },
    }
}

/// Splits the arguments of an edit into the handle, the setting and its
/// value.
pub fn edit_args<'a>(right: &'a str) -> (r: Option<(u16, &'a str, &'a str)>)
    ensures
        match r {
            Some((pin, sub, args)) => edit_args_of(right@) == Some((pin, sub@, args@)),
            None => edit_args_of(right@).is_none(),
        },
{
    proof {
        reveal_strlit(" ");
        assert(" "@ =~= seq![' ']);
    }
    let chars = chars_of(right);
    let space = chars_of(" ");
    let n: usize = chars.len();
    let a = match find_chars(&chars, &space, 0) {
        Some(a) => a,
        None => {
            return None;
        },
    };
    proof {
        lemma_find_from_least(right@, seq![' '], 0);
        assert(occurs_at(right@, seq![' '], a as int));
        assert(seq![' '].len() == 1);
    }
    let id = slice_chars(&chars, 0, a);
    proof {
        assert(id@ =~= right@.take(a as int));
    }
    let pin = parse_u16(&id);
    let b = match find_chars(&chars, &space, a + 1) {
        Some(b) => b,
        None => {
            return None;
        },
    };
    proof {
        lemma_find_from_least(right@, seq![' '], a + 1);
        assert(occurs_at(right@, seq![' '], b as int));
        assert(right@.skip(b + 1) =~= right@.subrange(b + 1, n as int));
    }
    match pin {
        Some(pin) => Some((pin, right.substring_char(a + 1, b), right.substring_char(b + 1, n))),
        None => None,
    }
}

/// The record after an edit of one setting, or why the edit is refused.
pub open spec fn edited(state: StateView, sub: Seq<char>, args: Seq<char>) -> Result<
    StateView,
    EditError,
> {
    if sub == "unique"@ {
        if args == "link"@ {
            Ok(StateView { unique_by: UniqueBy::Link, ..state })
        } else if args == "guid"@ {
            Ok(StateView { unique_by: UniqueBy::Guid, ..state })
        } else {
            Err(EditError::UniqueUsage)
        }
    } else if sub == "content"@ {
        if args == "raw"@ {
            Ok(StateView { extract_content: ExtractContent::Raw, ..state })
        } else if args == "find image"@ {
            Ok(StateView { extract_content: ExtractContent::FindImage, ..state })
        } else {
            Err(EditError::ContentUsage)
        }
    } else {
        Err(EditError::Usage)
    }
}

/// Sets one policy of a record as an edit asks. A refused edit leaves the
/// record as it was.
pub fn apply_edit(state: &mut RssState, sub: &str, args: &str) -> (r: Result<(), EditError>)
    ensures
        match edited(old(state)@, sub@, args@) {
            Ok(after) => r.is_ok() && final(state)@ == after,
            Err(e) => r == Err::<(), EditError>(e) && *final(state) == *old(state),
        },
{
    if same_text(sub, "unique") {
        if same_text(args, "link") {
            state.unique_by = UniqueBy::Link;
            Ok(())
        } else if same_text(args, "guid") {
            state.unique_by = UniqueBy::Guid;
            Ok(())
        } else {
            Err(EditError::UniqueUsage)
        }
    } else if same_text(sub, "content") {
        if same_text(args, "raw") {
            state.extract_content = ExtractContent::Raw;
            Ok(())
        } else if same_text(args, "find image") {
            state.extract_content = ExtractContent::FindImage;
            Ok(())
        } else {
            Err(EditError::ContentUsage)
        }
    } else {
        Err(EditError::Usage)
    }
}

/// What a message asks the program to do, with its arguments read.
#[derive(Debug)]
pub enum Request<'a> {
    /// Nothing but to answer with this text.
    Answer(&'static str),
    /// Track the feed at this address.
    Add { url: &'a str },
    /// Tell the status of the feed with this handle.
    Status { pin: u16 },
    /// Tell the status of all feeds of the sender.
    List,
    /// Set `sub` to `args` for the feed with this handle.
    Edit { pin: u16, sub: &'a str, args: &'a str },
    /// Stop tracking the feed with this handle.
    Delete { pin: u16 },
    /// Show the newest item of the feed with this handle.
    Show { pin: u16 },
}

/// The mathematical value of a `Request`.
pub enum RequestView {
    Answer(Seq<char>),
    Add { url: Seq<char> },
    Status { pin: u16 },
    List,
    Edit { pin: u16, sub: Seq<char>, args: Seq<char> },
    Delete { pin: u16 },
    Show { pin: u16 },
}

impl<'a> View for Request<'a> {
    type V = RequestView;

    open spec fn view(&self) -> RequestView {
        match *self {
            Request::Answer(text) => RequestView::Answer(text@),
            Request::Add { url } => RequestView::Add { url: url@ },
            Request::Status { pin } => RequestView::Status { pin },
            Request::List => RequestView::List,
            Request::Edit { pin, sub, args } => RequestView::Edit { pin, sub: sub@, args: args@ },
            Request::Delete { pin } => RequestView::Delete { pin },
            Request::Show { pin } => RequestView::Show { pin },
        }
    }
}

/// The request that a command makes with the arguments `right`; an answer
/// that says how the command is used where the arguments cannot be read.
pub open spec fn request_of(command: Command, right: Seq<char>) -> RequestView {
    let pin = parse_decimal(right, 0, u16::MAX as int);
    match command {
        Command::Start => RequestView::Answer("Hello! Add rss feeds by typing /add <url>"@),
        Command::Add => RequestView::Add { url: right },
        Command::Status => match pin {
            Some(pin) => RequestView::Status { pin: pin as u16 },
            None => RequestView::Answer(
                "Usage: /status <PIN>\nYou can get the PIN by typing /list"@,
            ),
        },
        Command::List => RequestView::List,
        Command::Edit => match edit_args_of(right) {
            Some((pin, sub, args)) => RequestView::Edit { pin, sub, args },
            None => RequestView::Answer("Usage: /edit <PIN> <unique|content> <args>"@),
        },
        Command::Delete => match pin {
            Some(pin) => RequestView::Delete { pin: pin as u16 },
            None => RequestView::Answer("Usage: /delete <PIN>"@),
        },
        Command::Show => match pin {
            Some(pin) => RequestView::Show { pin: pin as u16 },
            None => RequestView::Answer("Usage: /delete <PIN>"@),
        },
        Command::Source => RequestView::Answer(
            "https://github.com/VictorKoenders/rss_telegram_bot"@,
        ),
        Command::Unknown => RequestView::Answer(
            "Unknown command.\nyou can list your rss feeds by typing /list.\nYou can add a new rss feed by typing /add <RSS url>"@,
        ),
    }
}

/// Reads the arguments of a command.
pub fn request<'a>(command: Command, right: &'a str) -> (r: Request<'a>)
    ensures
        r@ == request_of(command, right@),
{
    match command {
        Command::Start => Request::Answer("Hello! Add rss feeds by typing /add <url>"),
        Command::Add => Request::Add { url: right },
        Command::Status => match parse_pin(right) {
            Some(pin) => Request::Status { pin },
            None => Request::Answer("Usage: /status <PIN>\nYou can get the PIN by typing /list"),
        },
        Command::List => Request::List,
        Command::Edit => match edit_args(right) {
            Some((pin, sub, args)) => Request::Edit { pin, sub, args },
            None => Request::Answer(EditError::Usage.message()),
        },
        Command::Delete => match parse_pin(right) {
            Some(pin) => Request::Delete { pin },
            None => Request::Answer("Usage: /delete <PIN>"),
        },
        Command::Show => match parse_pin(right) {
            Some(pin) => Request::Show { pin },
            None => Request::Answer("Usage: /delete <PIN>"),
        },
        Command::Source => Request::Answer("https://github.com/VictorKoenders/rss_telegram_bot"),
        Command::Unknown => Request::Answer(
            "Unknown command.\nyou can list your rss feeds by typing /list.\nYou can add a new rss feed by typing /add <RSS url>",
        ),
    }
}

/// Reads a message: its command, then the command's arguments.
pub fn plan<'a>(message: &'a str) -> (r: Request<'a>)
    ensures
        r@ == request_of(
            command_of(message@.take(word_end(message@))),
            trimmed(message@.skip(word_end(message@))),
        ),
{
    let (command, right) = parse_command(message);
    request(command, right)
}

/// The answer where the sender has no feed with the handle of an edit.
pub const EDIT_NOT_FOUND: &'static str =
    "PIN not found. You can list all your feeds by typing /list";

/// The answer where the sender has no feed with the handle given.
pub const NOT_FOUND: &'static str = "PIN not found. List all your feeds by typing /list";

/// The status of a feed, and when the next pass is due.
pub fn status_answer(pin: u16, state: Option<&RssState>, time_left: &str) -> (r: String)
    ensures
        r@ == status_text(pin, state_view(state)) + "\nNext update in "@ + time_left@,
{
    let mut out: String = status_pin(pin, state);
    out.append("\nNext update in ");
    out.append(time_left);
    out
}

/// The answer to an edit that was made.
pub fn saved_answer(time_left: &str) -> (r: String)
    ensures
        r@ == "Saved! Next update will be in "@ + time_left@,
{
    let mut out: String = "Saved! Next update will be in ".to_owned();
    out.append(time_left);
    out
}

/// The end of a list of feeds: when the next pass is due.
pub fn list_footer(time_left: &str) -> (r: String)
    ensures
        r@ == "Checking for updates in "@ + time_left@,
{
    let mut out: String = "Checking for updates in ".to_owned();
    out.append(time_left);
    out
}

} // verus!
