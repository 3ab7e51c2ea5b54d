//! The polling schedule as a state machine: one pass over all stored records
//! per interval, one record at a time, one outside action per step.
//!
//! The caller performs each action that `Scheduler::step` returns and hands
//! back what came of it as the next event.

use crate::diff::{advanced_cursor, new_notifications};
use crate::feed::{apply_poll, channel_items, parse_feed};
use crate::item::{items_view, FeedItem, ItemView};
use crate::notification::{
    notifications_view, rendered, NotificationView, RssNotification,
};
use crate::policy::ExtractContent;
use crate::state::{get_user_id_and_pin_from_name, key_of_name, RssState, StateView};
use crate::text::{decimal, decimal_string};
use vstd::prelude::*;
use vstd::string::StringExecFns;

verus! {

/// Seconds between the starts of two passes.
pub const NOTIFY_INTERVAL_SECS: u64 = 3600;

/// Nanoseconds between the starts of two passes.
pub const NOTIFY_INTERVAL_NANOS: u64 = 3_600_000_000_000;

/// What the schedule is waiting for.
#[derive(Copy, Clone, PartialEq, Eq, Structural, Debug)]
pub enum Stage {
    /// Between two passes: waiting out the interval.
    Idle,
    /// In a pass: waiting for the current record to be loaded.
    Loading,
    /// In a pass: waiting for the bytes of the current record's feed.
    Fetching,
    /// In a pass: waiting for a message to be handed to the delivery channel.
    Sending,
    /// In a pass: waiting for the current record to be stored.
    Saving,
}

/// What happened outside since the last step.
#[derive(Debug)]
pub enum Event {
    /// The interval has elapsed; these are the names of all stored records.
    Woke(Vec<String>),
    /// The current record was loaded.
    Loaded(RssState),
    /// The current record's feed was fetched: its bytes.
    Fetched(Vec<u8>),
    /// The current record's feed was fetched and parsed: its items.
    Items(Vec<FeedItem>),
    /// The current record's feed could not be fetched.
    FetchFailed,
    /// The last message or record was handed over, whether or not that
    /// succeeded.
    Done,
}

/// What the caller is to do next.
#[derive(Debug)]
pub enum Action {
    /// Record the time, wait this many seconds, then enumerate the records.
    Sleep(u64),
    /// Load the record with this owner and handle.
    Load { owner: i64, pin: u16 },
    /// Fetch the feed at this address.
    Fetch { url: String },
    /// Send this text to this user.
    Send { to: i64, text: String },
    /// Store this record under this owner and handle.
    Save { owner: i64, pin: u16, state: RssState },
}

/// The mathematical value of an `Event`.
pub enum EventView {
    Woke(Seq<Seq<char>>),
    Loaded(StateView),
    Fetched(Seq<u8>),
    Items(Seq<ItemView>),
    FetchFailed,
    Done,
}

/// The mathematical value of an `Action`.
pub enum ActionView {
    Sleep(u64),
    Load { owner: i64, pin: u16 },
    Fetch { url: Seq<char> },
    Send { to: i64, text: Seq<char> },
    Save { owner: i64, pin: u16, state: StateView },
}

/// The texts of a list of strings, in order.
pub open spec fn strings_view(list: Seq<String>) -> Seq<Seq<char>> {
    Seq::new(list.len(), |i: int| list[i]@)
}

impl View for Event {
    type V = EventView;

    open spec fn view(&self) -> EventView {
        match *self {
            Event::Woke(names) => EventView::Woke(strings_view(names@)),
            Event::Loaded(state) => EventView::Loaded(state@),
            Event::Fetched(bytes) => EventView::Fetched(bytes@),
            Event::Items(items) => EventView::Items(items_view(items@)),
            Event::FetchFailed => EventView::FetchFailed,
            Event::Done => EventView::Done,
        }
    }
}

impl View for Action {
    type V = ActionView;

    open spec fn view(&self) -> ActionView {
        match *self {
            Action::Sleep(secs) => ActionView::Sleep(secs),
            Action::Load { owner, pin } => ActionView::Load { owner, pin },
            Action::Fetch { url } => ActionView::Fetch { url: url@ },
            Action::Send { to, text } => ActionView::Send { to, text: text@ },
            Action::Save { owner, pin, state } => ActionView::Save { owner, pin, state: state@ },
        }
    }
}

/// The value of an optional action.
pub open spec fn action_view(action: Option<Action>) -> Option<ActionView> {
    match action {
        Some(a) => Some(a@),
        None => None,
    }
}

/// The schedule's state: the stage, the keys of the records of the current
/// pass, the position of the current record among them, and for the current
/// record what is still needed of it.
pub struct Scheduler {
    stage: Stage,
    keys: Vec<(i64, u16)>,
    next: usize,
    state: Option<RssState>,
    outbox: Vec<String>,
    sent: usize,
}

/// The mathematical value of a `Scheduler`.
pub struct SchedulerView {
    pub stage: Stage,
    /// The records of the current pass, in the order of the pass.
    pub keys: Seq<(i64, u16)>,
    /// The position of the current record in `keys`.
    pub next: nat,
    /// The current record, while its feed is fetched or its messages go out.
    pub state: Option<StateView>,
    /// The messages for the current record.
    pub outbox: Seq<Seq<char>>,
    /// The position in `outbox` of the message that is going out.
    pub sent: nat,
}

/// The state between two passes.
pub open spec fn idle_view() -> SchedulerView {
    SchedulerView {
        stage: Stage::Idle,
        keys: Seq::empty(),
        next: 0,
        state: None,
        outbox: Seq::empty(),
        sent: 0,
    }
}

/// What holds of every state that the schedule can be in.
pub open spec fn well_formed(s: SchedulerView) -> bool {
    match s.stage {
        Stage::Idle => s == idle_view(),
        Stage::Loading | Stage::Saving => {
            &&& s.next < s.keys.len()
            &&& s.state.is_none()
            &&& s.outbox == Seq::<Seq<char>>::empty()
            &&& s.sent == 0
        },
        Stage::Fetching => {
            &&& s.next < s.keys.len()
            &&& s.state.is_some()
            &&& s.outbox == Seq::<Seq<char>>::empty()
            &&& s.sent == 0
        },
        Stage::Sending => {
            &&& s.next < s.keys.len()
            &&& s.state.is_some()
            &&& s.sent < s.outbox.len()
        },
    }
}

/// The keys that a list of stored names stands for, in the order of the
/// list; a name that stands for no key is passed over.
pub open spec fn keys_of_names(names: Seq<Seq<char>>) -> Seq<(i64, u16)>
    decreases names.len(),
{
    if names.len() == 0 {
        Seq::empty()
    } else {
        let before = keys_of_names(names.drop_last());
        match key_of_name(names.last()) {
            Some(key) => before.push(key),
            None => before,
        }
    }
}

/// The messages for a list of notifications, in order.
pub open spec fn messages(
    list: Seq<NotificationView>,
    pin: u16,
    policy: ExtractContent,
) -> Seq<Seq<char>> {
    Seq::new(list.len(), |i: int| rendered(list[i], pin, policy))
}

/// Turning to record `idx` of the pass: load it, or end the pass and sleep
/// where no record is left.
pub open spec fn begin_record(keys: Seq<(i64, u16)>, idx: nat) -> (
    SchedulerView,
    Option<ActionView>,
) {
    if idx < keys.len() {
        (
            SchedulerView {
                stage: Stage::Loading,
                keys,
                next: idx,
                state: None,
                outbox: Seq::empty(),
                sent: 0,
            },
            Some(ActionView::Load { owner: keys[idx as int].0, pin: keys[idx as int].1 }),
        )
    } else {
        (idle_view(), Some(ActionView::Sleep(NOTIFY_INTERVAL_SECS)))
    }
}

/// Going on with the current record once message `sent` is due: send it, or
/// store the record where no message is left.
pub open spec fn send_or_save(
    keys: Seq<(i64, u16)>,
    next: nat,
    state: StateView,
    outbox: Seq<Seq<char>>,
    sent: nat,
) -> (SchedulerView, Option<ActionView>) {
    if sent < outbox.len() {
        (
            SchedulerView { stage: Stage::Sending, keys, next, state: Some(state), outbox, sent },
            Some(ActionView::Send { to: state.send_to, text: outbox[sent as int] }),
        )
    } else {
        (
            SchedulerView {
                stage: Stage::Saving,
                keys,
                next,
                state: None,
                outbox: Seq::empty(),
                sent: 0,
            },
            Some(
                ActionView::Save {
                    owner: keys[next as int].0,
                    pin: keys[next as int].1,
                    state,
                },
            ),
        )
    }
}

/// The step for the items of the current record's feed: the record takes
/// its new cursor, and the messages for the new items are due.
pub open spec fn items_step(s: SchedulerView, items: Seq<ItemView>) -> (
    SchedulerView,
    Option<ActionView>,
) {
    let record = s.state.unwrap();
    let polled = StateView {
        last_post: advanced_cursor(record.unique_by, record.last_post, items),
        ..record
    };
    let outbox = messages(
        new_notifications(record.unique_by, record.last_post, items),
        s.keys[s.next as int].1,
        record.extract_content,
    );
    send_or_save(s.keys, s.next, polled, outbox, 0)
}

/// The transition function: the next state and the action to perform, or
/// the same state and no action where the event does not fit the stage.
pub open spec fn next_step(s: SchedulerView, e: EventView) -> (SchedulerView, Option<ActionView>) {
    match (s.stage, e) {
        (Stage::Idle, EventView::Woke(names)) => begin_record(keys_of_names(names), 0),
        (Stage::Loading, EventView::Loaded(state)) => (
            SchedulerView { stage: Stage::Fetching, state: Some(state), ..s },
            Some(ActionView::Fetch { url: state.url }),
        ),
        (Stage::Fetching, EventView::Fetched(bytes)) => match channel_items(bytes) {
            Some(items) => items_step(s, items),
            None => begin_record(s.keys, s.next + 1),
        },
        (Stage::Fetching, EventView::Items(items)) => items_step(s, items),
        (Stage::Fetching, EventView::FetchFailed) => begin_record(s.keys, s.next + 1),
        (Stage::Sending, EventView::Done) => send_or_save(
            s.keys,
            s.next,
            s.state.unwrap(),
            s.outbox,
            s.sent + 1,
        ),
        (Stage::Saving, EventView::Done) => begin_record(s.keys, s.next + 1),
        _ => (s, None),
    }
}

/// Every step leads from a well-formed state to a well-formed state.
pub proof fn lemma_step_well_formed(s: SchedulerView, e: EventView)
    requires
        well_formed(s),
    ensures
        well_formed(next_step(s, e).0),
{
}

/// A feed that could not be fetched, or whose bytes the parser rejects,
/// has its record neither stored nor changed: the schedule turns to the
/// next record, and the action is to load that one or to sleep.
pub proof fn lemma_failed_fetch_stores_nothing(s: SchedulerView, e: EventView)
    requires
        well_formed(s),
        s.stage == Stage::Fetching,
        e == EventView::FetchFailed || (e matches EventView::Fetched(bytes) && channel_items(
            bytes,
        ).is_none()),
    ensures
        next_step(s, e) == begin_record(s.keys, s.next + 1),
        !(next_step(s, e).1 matches Some(ActionView::Save { .. })),
        !(next_step(s, e).1 matches Some(ActionView::Send { .. })),
{
}

/// Within a pass the records are taken in order, one at a time: a step
/// stays with the current record or turns to the one after it, and the pass
/// ends only from its last record.
pub proof fn lemma_pass_in_order(s: SchedulerView, e: EventView)
    requires
        well_formed(s),
        s.stage != Stage::Idle,
    ensures
        next_step(s, e).0.stage != Stage::Idle ==> next_step(s, e).0.keys == s.keys && (next_step(
            s,
            e,
        ).0.next == s.next || next_step(s, e).0.next == s.next + 1),
        next_step(s, e).0.stage == Stage::Idle ==> s.next + 1 == s.keys.len(),
        s.stage != Stage::Loading && next_step(s, e).0.stage == Stage::Loading ==> next_step(
            s,
            e,
        ).0.next == s.next + 1,
{
}

/// A record is stored with the cursor that its poll gave it, and only once
/// every message for it has gone out.
pub proof fn lemma_save_after_last_message(s: SchedulerView, e: EventView)
    requires
        well_formed(s),
        next_step(s, e).1 matches Some(ActionView::Save { .. }),
    ensures
        s.stage == Stage::Fetching || s.stage == Stage::Sending,
        s.stage == Stage::Sending ==> s.sent + 1 == s.outbox.len() && next_step(s, e).1 == Some(
            ActionView::Save {
                owner: s.keys[s.next as int].0,
                pin: s.keys[s.next as int].1,
                state: s.state.unwrap(),
            },
        ),
{
}

/// A pass starts from `Idle` and on waking only: no other event moves an
/// idle schedule, and waking moves none that is in a pass.
pub proof fn lemma_pass_starts_on_waking(s: SchedulerView, e: EventView)
    requires
        well_formed(s),
    ensures
        s.stage == Stage::Idle && !(e is Woke) ==> next_step(s, e) == (s, None::<ActionView>),
        s.stage != Stage::Idle && e is Woke ==> next_step(s, e) == (s, None::<ActionView>),
        s.stage == Stage::Idle && e is Woke ==> next_step(s, e).1.is_some(),
{
}

/// The items of a feed lead to the first message where the poll finds new
/// items, and straight to storing the record where it finds none. Either
/// way the record that is kept has the cursor that the poll gives it and is
/// otherwise unchanged.
pub proof fn lemma_items_lead_to_send_or_save(s: SchedulerView, items: Seq<ItemView>)
    requires
        well_formed(s),
        s.stage == Stage::Fetching,
    ensures
        ({
            let record = s.state.unwrap();
            let polled = StateView {
                last_post: advanced_cursor(record.unique_by, record.last_post, items),
                ..record
            };
            let fresh = new_notifications(record.unique_by, record.last_post, items);
            let after = next_step(s, EventView::Items(items));
            if fresh.len() > 0 {
                &&& after.0.stage == Stage::Sending
                &&& after.0.state == Some(polled)
                &&& after.0.outbox.len() == fresh.len()
                &&& after.1 == Some(
                    ActionView::Send {
                        to: record.send_to,
                        text: rendered(fresh[0], s.keys[s.next as int].1, record.extract_content),
                    },
                )
            } else {
                &&& after.0.stage == Stage::Saving
                &&& after.1 == Some(
                    ActionView::Save {
                        owner: s.keys[s.next as int].0,
                        pin: s.keys[s.next as int].1,
                        state: polled,
                    },
                )
            }
        }),
{
}

impl View for Scheduler {
    type V = SchedulerView;

    closed spec fn view(&self) -> SchedulerView {
        SchedulerView {
            stage: self.stage,
            keys: self.keys@,
            next: self.next as nat,
            state: match self.state {
                Some(state) => Some(state@),
                None => None,
            },
            outbox: strings_view(self.outbox@),
            sent: self.sent as nat,
        }
    }
}

/// Decodes the names of the stored records into keys, passing over the
/// names that stand for none.
pub fn decode_keys(names: &Vec<String>) -> (r: Vec<(i64, u16)>)
    ensures
        r@ == keys_of_names(strings_view(names@)),
{
    let ghost all = strings_view(names@);
    let mut keys: Vec<(i64, u16)> = Vec::new();
    let mut i: usize = 0;
    while i < names.len()
        invariant
            i <= names@.len(),
            all == strings_view(names@),
            keys@ == keys_of_names(all.take(i as int)),
        decreases names@.len() - i,
    {
        proof {
            assert(all.take(i + 1).drop_last() =~= all.take(i as int));
            assert(all.take(i + 1).last() == names@[i as int]@);
        }
        match get_user_id_and_pin_from_name(names[i].as_str()) {
            Some(key) => {
                keys.push(key);
            },
            None => {},
        }
        i += 1;
    }
    proof {
        assert(all.take(names@.len() as int) =~= all);
    }
    keys
}

/// Renders the message for each notification of a record, in order.
pub fn render_all(list: &Vec<RssNotification>, pin: u16, state: &RssState) -> (r: Vec<String>)
    ensures
        strings_view(r@) == messages(notifications_view(list@), pin, state.extract_content),
{
    let mut out: Vec<String> = Vec::new();
    let mut i: usize = 0;
    while i < list.len()
        invariant
            i <= list@.len(),
            out@.len() == i,
            forall|j: int|
                0 <= j < i ==> (#[trigger] out@[j])@ == rendered(
                    list@[j]@,
                    pin,
                    state.extract_content,
                ),
        decreases list@.len() - i,
    {
        out.push(list[i].format(pin, state));
        i += 1;
    }
    proof {
        assert(strings_view(out@) =~= messages(
            notifications_view(list@),
            pin,
            state.extract_content,
        ));
    }
    out
}

impl Scheduler {
    /// Every schedule is in a state that `well_formed` admits.
    #[verifier::type_invariant]
    spec fn inv(&self) -> bool {
        well_formed(self@)
    }


    /// A schedule between two passes.
    pub fn new() -> (r: Scheduler)
        ensures
            r@ == idle_view(),
    {
        let keys: Vec<(i64, u16)> = Vec::new();
        let outbox: Vec<String> = Vec::new();
        proof {
            assert(strings_view(outbox@) =~= Seq::<Seq<char>>::empty());
            assert(keys@ =~= Seq::<(i64, u16)>::empty());
        }
        Scheduler { stage: Stage::Idle, keys, next: 0, state: None, outbox, sent: 0 }
    }

    /// What the schedule is waiting for.
    pub fn stage(&self) -> (r: Stage)
        ensures
            r == self@.stage,
            well_formed(self@),
    {
        proof {
            use_type_invariant(self);
        }
        self.stage
    }

    /// Whether a pass is under way.
    pub fn is_polling(&self) -> (r: bool)
        ensures
            r == (self@.stage != Stage::Idle),
    {
        match self.stage {
            Stage::Idle => false,
            _ => true,
        }
    }

    /// Turns to record `idx` of the pass, or ends the pass where there is
    /// none.
    fn begin(keys: Vec<(i64, u16)>, idx: usize) -> (r: (Scheduler, Option<Action>))
        ensures
            r.0@ == begin_record(keys@, idx as nat).0,
            action_view(r.1) == begin_record(keys@, idx as nat).1,
    {
        if idx < keys.len() {
            let (owner, pin) = keys[idx];
            let outbox: Vec<String> = Vec::new();
            proof {
                assert(strings_view(outbox@) =~= Seq::<Seq<char>>::empty());
            }
            (
                Scheduler { stage: Stage::Loading, keys, next: idx, state: None, outbox, sent: 0 },
                Some(Action::Load { owner, pin }),
            )
        } else {
            (Scheduler::new(), Some(Action::Sleep(NOTIFY_INTERVAL_SECS)))
        }
    }

    /// Goes on with the current record once message `sent` is due.
    fn send_or_save(
        keys: Vec<(i64, u16)>,
        next: usize,
        state: RssState,
        outbox: Vec<String>,
        sent: usize,
    ) -> (r: (Scheduler, Option<Action>))
        requires
            next < keys@.len(),
        ensures
            r.0@ == send_or_save(
                keys@,
                next as nat,
                state@,
                strings_view(outbox@),
                sent as nat,
            ).0,
            action_view(r.1) == send_or_save(
                keys@,
                next as nat,
                state@,
                strings_view(outbox@),
                sent as nat,
            ).1,
    {
        if sent < outbox.len() {
            let to: i64 = state.send_to;
            let text: String = outbox[sent].clone();
            (
                Scheduler { stage: Stage::Sending, keys, next, state: Some(state), outbox, sent },
                Some(Action::Send { to, text }),
            )
        } else {
            let (owner, pin) = keys[next];
            let outbox: Vec<String> = Vec::new();
            proof {
                assert(strings_view(outbox@) =~= Seq::<Seq<char>>::empty());
            }
            (
                Scheduler { stage: Stage::Saving, keys, next, state: None, outbox, sent: 0 },
                Some(Action::Save { owner, pin, state }),
            )
        }
    }

    /// The step for the items of the current record's feed, newest first:
    /// runs the poll on the record and turns to its messages.
    fn on_items(self, items: &Vec<FeedItem>) -> (r: (Scheduler, Option<Action>))
        requires
            self@.stage == Stage::Fetching,
        ensures
            r.0@ == items_step(self@, items_view(items@)).0,
            action_view(r.1) == items_step(self@, items_view(items@)).1,
    {
        proof {
            use_type_invariant(&self);
        }
        let Scheduler { stage: _, keys, next, state, outbox: _, sent: _ } = self;
        let mut record: RssState = state.unwrap();
        let pin: u16 = keys[next].1;
        let fresh = apply_poll(&mut record, items);
        let outbox = render_all(&fresh, pin, &record);
        Scheduler::send_or_save(keys, next, record, outbox, 0)
    }

    /// Takes what happened outside and says what to do next.
    ///
    /// An event that does not fit the stage changes nothing and asks for
    /// nothing.
    pub fn step(self, event: Event) -> (r: (Scheduler, Option<Action>))
        ensures
            r.0@ == next_step(self@, event@).0,
            action_view(r.1) == next_step(self@, event@).1,
    {
        proof {
            use_type_invariant(&self);
            assert(self.keys@.len() == self.keys.len());
            assert(self.outbox@.len() == self.outbox.len());
        }
        match self.stage {
            Stage::Idle => match event {
                Event::Woke(names) => {
                    let keys = decode_keys(&names);
                    Scheduler::begin(keys, 0)
                },
                _ => (self, None),
            },
            Stage::Loading => match event {
                Event::Loaded(state) => {
                    let url: String = state.url.clone();
                    let Scheduler { stage: _, keys, next, state: _, outbox, sent } = self;
                    (
                        Scheduler {
                            stage: Stage::Fetching,
                            keys,
                            next,
                            state: Some(state),
                            outbox,
                            sent,
                        },
                        Some(Action::Fetch { url }),
                    )
                },
                _ => (self, None),
            },
            Stage::Fetching => match event {
                Event::Fetched(bytes) => match parse_feed(bytes.as_slice()) {
                    Ok(items) => self.on_items(&items),
                    Err(_) => {
                        let next: usize = self.next + 1;
                        Scheduler::begin(self.keys, next)
                    },
                },
                Event::Items(items) => self.on_items(&items),
                Event::FetchFailed => {
                    let next: usize = self.next + 1;
                    Scheduler::begin(self.keys, next)
                },
                _ => (self, None),
            },
            Stage::Sending => match event {
                Event::Done => {
                    let Scheduler { stage: _, keys, next, state, outbox, sent } = self;
                    Scheduler::send_or_save(keys, next, state.unwrap(), outbox, sent + 1)
                },
                _ => (self, None),
            },
            Stage::Saving => match event {
                Event::Done => {
                    let next: usize = self.next + 1;
                    Scheduler::begin(self.keys, next)
                },
                _ => (self, None),
            },
        }
    }
}

/// How long it is until the next pass, in words, once `elapsed` nanoseconds
/// of the interval are over: whole minutes where more than a minute is
/// left, else whole seconds.
pub open spec fn time_left_text(elapsed: nat) -> Seq<char> {
    let left = (NOTIFY_INTERVAL_NANOS - elapsed) as nat;
    if left > 60_000_000_000 {
        decimal(left / 1_000_000_000 / 60) + " minutes"@
    } else {
        decimal(left / 1_000_000_000) + " seconds"@
    }
}

/// Says how long it is until the next pass, `elapsed_nanos` nanoseconds
/// after the last pass.
pub fn time_until_next_update(elapsed_nanos: u64) -> (r: String)
    requires
        elapsed_nanos <= NOTIFY_INTERVAL_NANOS,
    ensures
        r@ == time_left_text(elapsed_nanos as nat),
{
    let left: u64 = NOTIFY_INTERVAL_NANOS - elapsed_nanos;
    let secs: u64 = left / 1_000_000_000;
    if left > 60_000_000_000 {
        let mut out: String = decimal_string(secs / 60);
        out.append(" minutes");
        out
    } else {
        let mut out: String = decimal_string(secs);
        out.append(" seconds");
        out
    }
}

} // verus!
