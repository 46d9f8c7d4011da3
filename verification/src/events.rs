//! The event bus: numbered events per account, a bounded history, and replay.

use std::collections::VecDeque;

use vstd::prelude::*;
use vstd::string::*;

use crate::json::{Json, JsonView};
use crate::strmap::StrMap;
use crate::text;

verus! {

/// An event of one account.
pub struct ServerEvent {
    pub account_id: String,
    pub seq: u64,
    pub cursor: String,
    pub event_type: String,
    pub data: Json,
}

/// An event as a mathematical value.
#[verifier::ext_equal]
pub struct EventView {
    pub account_id: Seq<char>,
    pub seq: nat,
    pub cursor: Seq<char>,
    pub event_type: Seq<char>,
    pub data: JsonView,
}

impl View for ServerEvent {
    type V = EventView;

    open spec fn view(&self) -> EventView {
        EventView {
            account_id: self.account_id@,
            seq: self.seq as nat,
            cursor: self.cursor@,
            event_type: self.event_type@,
            data: self.data@,
        }
    }
}

/// The views of a list of events.
pub open spec fn event_views(list: Seq<ServerEvent>) -> Seq<EventView> {
    list.map_values(|e: ServerEvent| e@)
}

impl ServerEvent {
    /// A copy of the event.
    pub fn copy(&self) -> (r: ServerEvent)
        ensures
            r@ == self@,
    {
        ServerEvent {
            account_id: self.account_id.clone(),
            seq: self.seq,
            cursor: self.cursor.clone(),
            event_type: self.event_type.clone(),
            data: self.data.copy(),
        }
    }
}

/// The cursor of the event with the given number.
pub open spec fn cursor_text(seq: nat) -> Seq<char> {
    "cursor-"@ + text::decimal(seq)
}

/// The cursor of the event with the given number.
pub fn cursor(seq: u64) -> (r: String)
    ensures
        r@ == cursor_text(seq as nat),
{
    text::concat2("cursor-", text::u64_text(seq).as_str())
}

/// The event number that a cursor stands for.
pub open spec fn cursor_seq(cursor: Seq<char>) -> Option<nat> {
    if "cursor-"@.is_prefix_of(cursor) {
        text::parse_up_to(cursor.skip("cursor-"@.len() as int), u64::MAX as nat)
    } else {
        None
    }
}

/// The event number that a cursor stands for.
pub fn cursor_to_seq(cursor: &str) -> (r: Option<u64>)
    ensures
        match r {
            Some(n) => cursor_seq(cursor@) == Some(n as nat),
            None => cursor_seq(cursor@) is None,
        },
{
    match text::strip_prefix(cursor, "cursor-") {
        Some(rest) => text::parse_u64(rest),
        None => None,
    }
}

/// The cursor of an event leads back to the event's number.
pub proof fn law_cursor_round_trip(seq: nat)
    requires
        seq <= u64::MAX,
    ensures
        cursor_seq(cursor_text(seq)) == Some(seq),
{
    assert(cursor_text(seq).skip("cursor-"@.len() as int) =~= text::decimal(seq));
    text::lemma_parse_decimal(seq);
}

/// Events with different numbers have different cursors.
pub proof fn law_cursors_differ(a: nat, b: nat)
    requires
        cursor_text(a) == cursor_text(b),
    ensures
        a == b,
{
    let n = "cursor-"@.len() as int;
    assert(cursor_text(a).skip(n) =~= text::decimal(a));
    assert(cursor_text(b).skip(n) =~= text::decimal(b));
    text::lemma_decimal_injective(a, b);
}

/// What the bus keeps of one account.
pub struct AccountLog {
    last_seq: u64,
    kept: VecDeque<ServerEvent>,
}

/// What the bus keeps of one account: the number of its latest event, and its latest
/// events, oldest first.
#[verifier::ext_equal]
pub struct LogView {
    pub last: nat,
    pub kept: Seq<EventView>,
}

impl View for AccountLog {
    type V = LogView;

    closed spec fn view(&self) -> LogView {
        LogView { last: self.last_seq as nat, kept: event_views(self.kept@) }
    }
}

/// The last `max` items of a list.
pub open spec fn last_items<T>(list: Seq<T>, max: nat) -> Seq<T> {
    if list.len() > max {
        list.skip(list.len() - max)
    } else {
        list
    }
}

/// The events that follow the first one with the given cursor.
pub open spec fn after_cursor(kept: Seq<EventView>, since: Seq<char>) -> Option<Seq<EventView>>
    decreases kept.len(),
{
    if kept.len() == 0 {
        None
    } else if kept[0].cursor == since {
        Some(kept.drop_first())
    } else {
        after_cursor(kept.drop_first(), since)
    }
}

/// The event bus as a mathematical value.
#[verifier::ext_equal]
pub struct BusView {
    pub logs: Map<Seq<char>, LogView>,
    pub max_history: nat,
    pub outbox: Seq<EventView>,
}

impl BusView {
    /// The bus before any event.
    pub open spec fn fresh(max_history: nat) -> BusView {
        BusView { logs: Map::empty(), max_history, outbox: Seq::empty() }
    }

    /// What is kept of an account; nothing before its first event.
    pub open spec fn log(self, account: Seq<char>) -> LogView {
        if self.logs.contains_key(account) {
            self.logs[account]
        } else {
            LogView { last: 0, kept: Seq::empty() }
        }
    }

    /// The cursor of the account's latest event.
    pub open spec fn latest(self, account: Seq<char>) -> Option<Seq<char>> {
        if self.logs.contains_key(account) {
            Some(cursor_text(self.logs[account].last))
        } else {
            None
        }
    }

    /// The cursor of the account's latest event, or that of number zero.
    pub open spec fn latest_or_zero(self, account: Seq<char>) -> Seq<char> {
        match self.latest(account) {
            Some(c) => c,
            None => "cursor-0"@,
        }
    }

    /// The event that is emitted next for the account.
    pub open spec fn next_event(
        self,
        account: Seq<char>,
        event_type: Seq<char>,
        data: JsonView,
    ) -> EventView {
        let seq = self.log(account).last + 1;
        EventView { account_id: account, seq, cursor: cursor_text(seq), event_type, data }
    }

    /// The bus after one more event of the account.
    pub open spec fn emitted(
        self,
        account: Seq<char>,
        event_type: Seq<char>,
        data: JsonView,
    ) -> BusView {
        let event = self.next_event(account, event_type, data);
        let log = LogView {
            last: event.seq,
            kept: last_items(self.log(account).kept.push(event), self.max_history),
        };
        BusView {
            logs: self.logs.insert(account, log),
            max_history: self.max_history,
            outbox: self.outbox.push(event),
        }
    }

    /// The events after the given cursor, where it is still in the history.
    pub open spec fn replayed(self, account: Seq<char>, since: Seq<char>) -> Option<
        Seq<EventView>,
    > {
        if self.logs.contains_key(account) {
            after_cursor(self.logs[account].kept, since)
        } else {
            None
        }
    }

    /// Whether the account can take so many more events before its numbers run out.
    pub open spec fn room_for(self, account: Seq<char>, n: nat) -> bool {
        self.log(account).last + n <= u64::MAX
    }

    /// Whether the bus is one that events have made: each account's history is its latest
    /// events, without a gap, and no longer than the bound.
    pub open spec fn in_order(self) -> bool {
        forall|a: Seq<char>| #[trigger]
            self.logs.contains_key(a) ==> log_in_order(a, self.logs[a], self.max_history)
    }
}

/// Whether a log holds the latest events of the account, numbered without a gap.
pub open spec fn log_in_order(account: Seq<char>, log: LogView, max_history: nat) -> bool {
    &&& 1 <= log.last
    &&& log.kept.len() <= log.last
    &&& log.kept.len() == (if log.last <= max_history {
        log.last
    } else {
        max_history
    })
    &&& forall|i: int|
        0 <= i < log.kept.len() ==> {
            &&& (#[trigger] log.kept[i]).seq == log.last - log.kept.len() + 1 + i
            &&& log.kept[i].cursor == cursor_text(log.kept[i].seq)
            &&& log.kept[i].account_id == account
        }
}

/// The event bus.
pub struct EventBus {
    logs: StrMap<AccountLog>,
    max_history: usize,
    outbox: Vec<ServerEvent>,
}

impl View for EventBus {
    type V = BusView;

    closed spec fn view(&self) -> BusView {
        BusView {
            logs: self.logs@.map_values(|l: AccountLog| l@),
            max_history: self.max_history as nat,
            outbox: event_views(self.outbox@),
        }
    }
}

impl EventBus {
    /// A bus without events that keeps at most `max_history` events of each account.
    pub fn new(max_history: usize) -> (r: EventBus)
        ensures
            r@ == BusView::fresh(max_history as nat),
    {
        let r = EventBus { logs: StrMap::new(), max_history, outbox: Vec::new() };
        proof {
            assert(r@.logs =~= Map::empty());
            assert(r@.outbox =~= Seq::empty());
        }
        r
    }

    /// The cursor of the account's latest event.
    pub fn latest_cursor(&self, account_id: &str) -> (r: Option<String>)
        ensures
            text::opt_text(r) == self@.latest(account_id@),
    {
        match self.logs.get(account_id) {
            Some(log) => Some(cursor(log.last_seq)),
            None => None,
        }
    }

    /// The cursor of the account's latest event, or that of number zero.
    pub fn latest_or_zero(&self, account_id: &str) -> (r: String)
        ensures
            r@ == self@.latest_or_zero(account_id@),
    {
        match self.latest_cursor(account_id) {
            Some(c) => c,
            None => "cursor-0".to_owned(),
        }
    }

    /// Numbers an event, adds it to the account's history and hands it to the subscribers.
    pub fn emit(&mut self, account_id: &str, event_type: &str, data: Json) -> (r: ServerEvent)
        requires
            old(self)@.room_for(account_id@, 1),
        ensures
            r@ == old(self)@.next_event(account_id@, event_type@, data@),
            final(self)@ == old(self)@.emitted(account_id@, event_type@, data@),
    {
        let ghost before = self@;
        let empty = AccountLog { last_seq: 0, kept: VecDeque::new() };
        assert(empty@.kept =~= Seq::empty());
        let taken: Option<AccountLog> = self.logs.insert(account_id.to_owned(), empty);
        let mut log: AccountLog = match taken {
            Some(log) => log,
            None => AccountLog { last_seq: 0, kept: VecDeque::new() },
        };
        assert(log@ =~= before.log(account_id@));
        log.last_seq = log.last_seq + 1;
        let event = ServerEvent {
            account_id: account_id.to_owned(),
            seq: log.last_seq,
            cursor: cursor(log.last_seq),
            event_type: event_type.to_owned(),
            data,
        };
        log.kept.push_back(event.copy());
        assert(event_views(log.kept@) =~= before.log(account_id@).kept.push(event@));
        drop_oldest(&mut log.kept, self.max_history);
        let _ = self.logs.insert(account_id.to_owned(), log);
        self.outbox.push(event.copy());
        proof {
            let after = before.emitted(account_id@, event_type@, data@);
            assert(self@.logs =~= after.logs);
            assert(self@.outbox =~= after.outbox);
        }
        event
    }

    /// The events after the given cursor, where it is still in the account's history.
    pub fn replay_since(&self, account_id: &str, since: &str) -> (r: Option<Vec<ServerEvent>>)
        ensures
            match r {
                Some(list) => self@.replayed(account_id@, since@) == Some(event_views(list@)),
                None => self@.replayed(account_id@, since@) is None,
            },
    {
        let log: &AccountLog = match self.logs.get(account_id) {
            Some(log) => log,
            None => {
                return None;
            },
        };
        let ghost kept = log@.kept;
        let n: usize = log.kept.len();
        let mut at: usize = 0;
        assert(kept.skip(0) =~= kept);
        while at < n && !text::str_eq(log.kept[at].cursor.as_str(), since)
            invariant
                at <= n,
                n == log.kept@.len(),
                kept == event_views(log.kept@),
                after_cursor(kept, since@) == after_cursor(kept.skip(at as int), since@),
            decreases n - at,
        {
            assert(kept.skip(at as int)[0] == log.kept@[at as int]@);
            assert(kept.skip(at as int).drop_first() =~= kept.skip(at + 1));
            at = at + 1;
        }
        if at == n {
            assert(kept.skip(at as int).len() == 0);
            return None;
        }
        assert(kept.skip(at as int)[0] == log.kept@[at as int]@);
        let mut out: Vec<ServerEvent> = Vec::new();
        let mut i: usize = at + 1;
        while i < n
            invariant
                at < i <= n,
                n == log.kept@.len(),
                kept == event_views(log.kept@),
                event_views(out@) == kept.subrange(at + 1, i as int),
            decreases n - i,
        {
            let ghost before = out@;
            out.push(log.kept[i].copy());
            proof {
                assert(event_views(out@) =~= event_views(before).push(kept[i as int]));
                assert(event_views(out@) =~= kept.subrange(at + 1, i + 1));
            }
            i = i + 1;
        }
        assert(kept.skip(at as int).drop_first() =~= kept.subrange(at + 1, n as int));
        Some(out)
    }

    /// Takes out the events that the subscribers have not been handed yet.
    pub fn take_outbox(&mut self) -> (r: Vec<ServerEvent>)
        ensures
            event_views(r@) == old(self)@.outbox,
            final(self)@ == (BusView { outbox: Seq::empty(), ..old(self)@ }),
    {
        let mut out: Vec<ServerEvent> = Vec::new();
        std::mem::swap(&mut out, &mut self.outbox);
        assert(self@.outbox =~= Seq::empty());
        out
    }

    /// Whether the account can take so many more events before its numbers run out.
    pub fn room_for(&self, account_id: &str, n: u64) -> (r: bool)
        ensures
            r == self@.room_for(account_id@, n as nat),
    {
        match self.logs.get(account_id) {
            Some(log) => log.last_seq <= u64::MAX - n,
            None => true,
        }
    }
}

/// A fresh bus is in order.
pub proof fn law_fresh_bus_in_order(max_history: nat)
    ensures
        BusView::fresh(max_history).in_order(),
{
}

/// Every event keeps the bus in order: numbers grow by one, and the history is the latest
/// events, at most as many as the bound.
pub proof fn law_emit_keeps_order(
    bus: BusView,
    account: Seq<char>,
    event_type: Seq<char>,
    data: JsonView,
)
    requires
        bus.in_order(),
    ensures
        bus.emitted(account, event_type, data).in_order(),
        bus.emitted(account, event_type, data).log(account).last == bus.log(account).last + 1,
        bus.emitted(account, event_type, data).latest(account) == Some(
            bus.next_event(account, event_type, data).cursor,
        ),
{
    let after = bus.emitted(account, event_type, data);
    assert forall|a: Seq<char>| #[trigger] after.logs.contains_key(a) implies log_in_order(
        a,
        after.logs[a],
        after.max_history,
    ) by {
        if a == account {
            let old_log = bus.log(account);
            assert(bus.logs.contains_key(account) ==> log_in_order(
                account,
                old_log,
                bus.max_history,
            ));
        } else {
            assert(bus.logs.contains_key(a));
        }
    }
}

/// An event of one account leaves what is kept of every other account alone.
pub proof fn law_emit_touches_one_account(
    bus: BusView,
    account: Seq<char>,
    event_type: Seq<char>,
    data: JsonView,
    other: Seq<char>,
)
    requires
        other != account,
    ensures
        bus.emitted(account, event_type, data).log(other) == bus.log(other),
        bus.emitted(account, event_type, data).latest(other) == bus.latest(other),
        forall|since: Seq<char>|
            #[trigger] bus.emitted(account, event_type, data).replayed(other, since)
                == bus.replayed(other, since),
{
}

/// The events after a cursor are those that follow the first event that has it.
pub proof fn lemma_after_cursor_at(kept: Seq<EventView>, since: Seq<char>, at: int)
    requires
        0 <= at < kept.len(),
        kept[at].cursor == since,
        forall|i: int| 0 <= i < at ==> (#[trigger] kept[i]).cursor != since,
    ensures
        after_cursor(kept, since) == Some(kept.skip(at + 1)),
    decreases kept.len(),
{
    if at == 0 {
        assert(kept.drop_first() =~= kept.skip(1));
    } else {
        let rest = kept.drop_first();
        assert forall|i: int| 0 <= i < at - 1 implies (#[trigger] rest[i]).cursor != since by {
            assert(rest[i] == kept[i + 1]);
        }
        assert(kept[0].cursor != since);
        lemma_after_cursor_at(rest, since, at - 1);
        assert(rest.skip(at) =~= kept.skip(at + 1));
    }
}

/// Where no event has a cursor there are none after it.
pub proof fn lemma_after_cursor_absent(kept: Seq<EventView>, since: Seq<char>)
    requires
        forall|i: int| 0 <= i < kept.len() ==> (#[trigger] kept[i]).cursor != since,
    ensures
        after_cursor(kept, since) is None,
    decreases kept.len(),
{
    if kept.len() > 0 {
        let rest = kept.drop_first();
        assert forall|i: int| 0 <= i < rest.len() implies (#[trigger] rest[i]).cursor != since by {
            assert(rest[i] == kept[i + 1]);
        }
        assert(kept[0].cursor != since);
        lemma_after_cursor_absent(rest, since);
    }
}

/// Replay from the cursor of event number `seq` gives exactly the later events, in order,
/// where that event is still in the history, and is refused where it is not.
pub proof fn law_replay(bus: BusView, account: Seq<char>, seq: nat)
    requires
        bus.in_order(),
    ensures
        bus.log(account).last - bus.log(account).kept.len() < seq <= bus.log(account).last ==> {
            &&& bus.replayed(account, cursor_text(seq)) == Some(
                bus.log(account).kept.skip(
                    bus.log(account).kept.len() - (bus.log(account).last - seq),
                ),
            )
            &&& bus.replayed(account, cursor_text(seq))->0.len() == bus.log(account).last - seq
            &&& forall|i: int|
                0 <= i < bus.log(account).last - seq ==> (#[trigger] bus.replayed(
                    account,
                    cursor_text(seq),
                )->0[i]).seq == seq + 1 + i
        },
        !(bus.log(account).last - bus.log(account).kept.len() < seq <= bus.log(account).last)
            ==> bus.replayed(account, cursor_text(seq)) is None,
{
    if bus.logs.contains_key(account) {
        let log = bus.logs[account];
        let first = log.last - log.kept.len() + 1;
        assert(log_in_order(account, log, bus.max_history));
        assert forall|i: int| 0 <= i < log.kept.len() && first + i != seq implies (
        #[trigger] log.kept[i]).cursor != cursor_text(seq) by {
            if log.kept[i].cursor == cursor_text(seq) {
                law_cursors_differ(log.kept[i].seq, seq);
            }
        }
        if first <= seq <= log.last {
            lemma_after_cursor_at(log.kept, cursor_text(seq), seq - first);
        } else {
            lemma_after_cursor_absent(log.kept, cursor_text(seq));
        }
    }
}

/// A subscriber that knows the latest cursor gets, on replay after one more event, exactly
/// that event, as long as the history holds two events or more.
pub proof fn law_replay_after_emit(
    bus: BusView,
    account: Seq<char>,
    event_type: Seq<char>,
    data: JsonView,
)
    requires
        bus.in_order(),
        bus.max_history >= 2,
        bus.latest(account) is Some,
    ensures
        bus.emitted(account, event_type, data).replayed(account, bus.latest(account)->0) == Some(
            seq![bus.next_event(account, event_type, data)],
        ),
{
    let after = bus.emitted(account, event_type, data);
    law_emit_keeps_order(bus, account, event_type, data);
    let log = after.logs[account];
    let n = log.kept.len() as int;
    assert(log_in_order(account, bus.logs[account], bus.max_history));
    assert(log_in_order(account, log, after.max_history));
    let since = cursor_text(bus.log(account).last);
    assert forall|i: int| 0 <= i < n - 2 implies (#[trigger] log.kept[i]).cursor != since by {
        if log.kept[i].cursor == since {
            law_cursors_differ(log.kept[i].seq, bus.log(account).last);
        }
    }
    assert(log.kept[n - 2].seq == bus.log(account).last);
    lemma_after_cursor_at(log.kept, since, n - 2);
    assert(log.kept.skip(n - 1) =~= seq![bus.next_event(account, event_type, data)]);
}

/// Drops the oldest events of a history until it holds at most `max` of them.
fn drop_oldest(kept: &mut VecDeque<ServerEvent>, max: usize)
    ensures
        event_views(final(kept)@) == last_items(event_views(old(kept)@), max as nat),
{
    let ghost whole = event_views(kept@);
    let ghost mut dropped: int = 0;
    assert(whole.skip(0) =~= whole);
    while kept.len() > max
        invariant
            0 <= dropped <= whole.len(),
            event_views(kept@) == whole.skip(dropped),
            dropped > 0 ==> whole.len() - dropped >= max,
        decreases kept.len(),
    {
        let ghost was = kept@;
        let _ = kept.pop_front();
        proof {
            assert(event_views(kept@) =~= event_views(was).drop_first());
            dropped = dropped + 1;
            assert(event_views(kept@) =~= whole.skip(dropped));
        }
    }
    proof {
        assert(event_views(kept@).len() == whole.len() - dropped);
        if whole.len() > max {
            assert(dropped == whole.len() - max);
        } else {
            assert(dropped == 0);
        }
    }
}

} // verus!
