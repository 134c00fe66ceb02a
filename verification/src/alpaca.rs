//! The Alpaca REST poller: how often it polls, depending on the time of day
//! in New York, and the refresh cycle each poll runs against the web API and
//! the database.

use vstd::prelude::*;
use crate::text::{parse_u64, u64_from_text};
use chrono::Timelike;

verus! {

/// The Alpaca REST poller.
pub struct AlpacaRest {}

/// Poll interval while the market is open, unless configured otherwise.
pub const REST_POLL_RATE_OPEN_MILLIS: u64 = 5000;

/// Poll interval while the market is closed.
pub const REST_POLL_RATE_CLOSED_MILLIS: u64 = 30000;

/// Whether each part of the API is refreshed.
pub const ENABLE_REST_ACTIVITY: bool = true;
pub const ENABLE_REST_POSITION: bool = true;
pub const ENABLE_REST_ORDER: bool = true;

/// A wall-clock time of day: seconds since midnight and the nanoseconds
/// within that second (at least a billion during a leap second).
#[derive(PartialEq, Eq, Structural, Clone, Copy, Debug)]
pub struct TimeOfDay {
    pub secs: u32,
    pub nanos: u32,
}

/// `a` is not later than `b`: times of day compare by second, then by nanosecond.
pub open spec fn time_le(a: TimeOfDay, b: TimeOfDay) -> bool {
    a.secs < b.secs || (a.secs == b.secs && a.nanos <= b.nanos)
}

/// The market is open at `now`: between the opening and closing times, both included.
pub open spec fn market_open_at(now: TimeOfDay, open: TimeOfDay, close: TimeOfDay) -> bool {
    time_le(open, now) && time_le(now, close)
}

/// The poll interval at `now`: while the market is open, the configured
/// interval when one is set and reads as a number, otherwise the default
/// open rate; while it is closed, the closed rate.
pub open spec fn poll_interval(
    now: TimeOfDay,
    open: TimeOfDay,
    close: TimeOfDay,
    configured: Option<Seq<char>>,
) -> u64 {
    if market_open_at(now, open, close) {
        match configured {
            Some(text) => match u64_from_text(text) {
                Some(millis) => millis,
                None => REST_POLL_RATE_OPEN_MILLIS,
            },
            None => REST_POLL_RATE_OPEN_MILLIS,
        }
    } else {
        REST_POLL_RATE_CLOSED_MILLIS
    }
}

pub open spec fn opt_text_view(text: Option<&str>) -> Option<Seq<char>> {
    match text {
        Some(t) => Some(t@),
        None => None,
    }
}

impl TimeOfDay {
    /// Whether this time is not later than `other`.
    pub fn not_after(&self, other: &TimeOfDay) -> (r: bool)
        ensures
            r == time_le(*self, *other),
    {
        self.secs < other.secs || (self.secs == other.secs && self.nanos <= other.nanos)
    }
}

/// The New York wall-clock time of day of an instant given as seconds and
/// nanoseconds since the Unix epoch, as chrono and the time zone database of
/// chrono-tz compute it; `None` when chrono has no date-time for the instant.
pub uninterp spec fn new_york_time_of_day(utc_secs: i64, utc_nanos: u32) -> Option<(u32, u32)>;

/// Calls `chrono::DateTime::from_timestamp`, then `with_timezone` with
/// `chrono_tz::America::New_York`, then `time`, and reads the seconds since
/// midnight and the nanoseconds of that time. Claimed: the result is a
/// function of the instant alone, named `new_york_time_of_day`.
#[verifier::external_body]
fn new_york_clock(utc_secs: i64, utc_nanos: u32) -> (time: Option<(u32, u32)>)
    ensures
        time == new_york_time_of_day(utc_secs, utc_nanos),
{
    match chrono::DateTime::from_timestamp(utc_secs, utc_nanos) {
        Some(instant) => {
            let local = instant.with_timezone(&chrono_tz::America::New_York).time();
            Some((local.num_seconds_from_midnight(), local.nanosecond()))
        },
        None => None,
    }
}

impl AlpacaRest {
    /// The poll interval, in milliseconds, at the New York time `now`, given
    /// the market's opening and closing times and the configured interval
    /// for open hours (`API_INTERVAL_MILLIS`), if one is set.
    pub fn poll_rate_ms(
        now: TimeOfDay,
        open: TimeOfDay,
        close: TimeOfDay,
        configured: Option<&str>,
    ) -> (millis: u64)
        ensures
            millis == poll_interval(now, open, close, opt_text_view(configured)),
    {
        if open.not_after(&now) && now.not_after(&close) {
            match configured {
                Some(text) => match parse_u64(text) {
                    Some(millis) => millis,
                    None => REST_POLL_RATE_OPEN_MILLIS,
                },
                None => REST_POLL_RATE_OPEN_MILLIS,
            }
        } else {
            REST_POLL_RATE_CLOSED_MILLIS
        }
    }

    /// The poll interval at an instant given in Unix time: the instant is
    /// read on the New York clock, then as `poll_rate_ms`. `None` when the
    /// instant has no date-time in chrono.
    pub fn poll_rate_at(
        utc_secs: i64,
        utc_nanos: u32,
        open: TimeOfDay,
        close: TimeOfDay,
        configured: Option<&str>,
    ) -> (millis: Option<u64>)
        ensures
            match new_york_time_of_day(utc_secs, utc_nanos) {
                Some((secs, nanos)) => millis == Some(
                    poll_interval(
                        TimeOfDay { secs, nanos },
                        open,
                        close,
                        opt_text_view(configured),
                    ),
                ),
                None => millis is None,
            },
    {
        match new_york_clock(utc_secs, utc_nanos) {
            Some((secs, nanos)) => Some(
                AlpacaRest::poll_rate_ms(TimeOfDay { secs, nanos }, open, close, configured),
            ),
            None => None,
        }
    }
}

/// While the market is open (the time of day is at or after the opening
/// time and at or before the closing time, comparing seconds, then
/// nanoseconds), a configured interval that reads as a number is the poll
/// interval as it is; an unset or unreadable one gives 5000 ms. While the
/// market is closed the interval is 30000 ms, whatever is configured.
pub proof fn law_poll_interval(
    now: TimeOfDay,
    open: TimeOfDay,
    close: TimeOfDay,
    configured: Option<Seq<char>>,
)
    ensures
        ({
            let is_open = (open.secs < now.secs || (open.secs == now.secs && open.nanos
                <= now.nanos)) && (now.secs < close.secs || (now.secs == close.secs && now.nanos
                <= close.nanos));
            &&& is_open && configured is Some && u64_from_text(configured->0) is Some ==> poll_interval(
                now,
                open,
                close,
                configured,
            ) == u64_from_text(configured->0)->0
            &&& is_open && (configured is None || u64_from_text(configured->0) is None)
                ==> poll_interval(now, open, close, configured) == 5000
            &&& !is_open ==> poll_interval(now, open, close, configured) == 30000
        }),
{
}

/// A step of a refresh cycle: the action the poller is to perform, and,
/// while it is in progress, the step whose outcome the cycle awaits.
#[derive(PartialEq, Eq, Structural, Clone, Copy, Debug)]
pub enum RefreshStep {
    /// Load the settings (API keys) from the database.
    LoadSettings,
    /// Fetch the account activities from the web API.
    FetchActivities,
    /// Save each fetched activity to the database.
    SaveActivities,
    /// Fetch the open positions from the web API.
    FetchPositions,
    /// Delete every stored position.
    ClearPositions,
    /// Save each fetched position, stamped with the current time.
    SavePositions,
    /// Fetch the open orders from the web API.
    FetchOrders,
    /// Delete every stored order.
    ClearOrders,
    /// Save each fetched order.
    SaveOrders,
    /// Nothing more to do in this cycle.
    Finished,
}

/// The outcome of a refresh step.
#[derive(PartialEq, Eq, Structural, Clone, Copy, Debug)]
pub enum RefreshEvent {
    /// The settings were loaded (`true`) or could not be (`false`).
    SettingsLoaded(bool),
    /// The web API answered (`true`) or failed (`false`).
    Fetched(bool),
    /// A database step finished; its result is not used.
    Done,
}

/// The first step once the settings are loaded.
pub open spec fn after_settings() -> RefreshStep {
    if ENABLE_REST_ACTIVITY {
        RefreshStep::FetchActivities
    } else {
        after_activities()
    }
}

/// The first step once the activities are done with.
pub open spec fn after_activities() -> RefreshStep {
    if ENABLE_REST_POSITION {
        RefreshStep::FetchPositions
    } else {
        after_positions()
    }
}

/// The first step once the positions are done with.
pub open spec fn after_positions() -> RefreshStep {
    if ENABLE_REST_ORDER {
        RefreshStep::FetchOrders
    } else {
        RefreshStep::Finished
    }
}

/// The outcomes that each step awaits.
pub open spec fn refresh_accepts(step: RefreshStep, event: RefreshEvent) -> bool {
    match step {
        RefreshStep::LoadSettings => event is SettingsLoaded,
        RefreshStep::FetchActivities | RefreshStep::FetchPositions | RefreshStep::FetchOrders =>
            event is Fetched,
        RefreshStep::SaveActivities | RefreshStep::ClearPositions | RefreshStep::SavePositions
        | RefreshStep::ClearOrders | RefreshStep::SaveOrders => event is Done,
        RefreshStep::Finished => false,
    }
}

/// The step that follows a step's outcome: a failed fetch skips to the next
/// part of the API; a successful one saves what was fetched, clearing the
/// table first for positions and orders.
pub open spec fn refresh_next(step: RefreshStep, event: RefreshEvent) -> RefreshStep {
    match (step, event) {
        (RefreshStep::LoadSettings, RefreshEvent::SettingsLoaded(true)) => after_settings(),
        (RefreshStep::FetchActivities, RefreshEvent::Fetched(true)) => RefreshStep::SaveActivities,
        (RefreshStep::FetchActivities, RefreshEvent::Fetched(false)) => after_activities(),
        (RefreshStep::SaveActivities, _) => after_activities(),
        (RefreshStep::FetchPositions, RefreshEvent::Fetched(true)) => RefreshStep::ClearPositions,
        (RefreshStep::FetchPositions, RefreshEvent::Fetched(false)) => after_positions(),
        (RefreshStep::ClearPositions, _) => RefreshStep::SavePositions,
        (RefreshStep::SavePositions, _) => after_positions(),
        (RefreshStep::FetchOrders, RefreshEvent::Fetched(true)) => RefreshStep::ClearOrders,
        (RefreshStep::ClearOrders, _) => RefreshStep::SaveOrders,
        _ => RefreshStep::Finished,
    }
}

/// One refresh cycle of the poller.
pub struct RefreshCycle {
    step: RefreshStep,
}

impl View for RefreshCycle {
    type V = RefreshStep;

    closed spec fn view(&self) -> RefreshStep {
        self.step
    }
}

impl RefreshCycle {
    /// A new cycle; its first step is to load the settings.
    pub fn new() -> (cycle: RefreshCycle)
        ensures
            cycle@ == RefreshStep::LoadSettings,
    {
        RefreshCycle { step: RefreshStep::LoadSettings }
    }

    /// The step in progress.
    pub fn current(&self) -> (step: RefreshStep)
        ensures
            step == self@,
    {
        self.step
    }

    /// Whether the current step awaits this outcome.
    pub fn accepts(&self, event: RefreshEvent) -> (ok: bool)
        ensures
            ok == refresh_accepts(self@, event),
    {
        match self.step {
            RefreshStep::LoadSettings => matches!(event, RefreshEvent::SettingsLoaded(_)),
            RefreshStep::FetchActivities | RefreshStep::FetchPositions
            | RefreshStep::FetchOrders => matches!(event, RefreshEvent::Fetched(_)),
            RefreshStep::SaveActivities | RefreshStep::ClearPositions
            | RefreshStep::SavePositions | RefreshStep::ClearOrders
            | RefreshStep::SaveOrders => matches!(event, RefreshEvent::Done),
            RefreshStep::Finished => false,
        }
    }

    /// Takes the outcome of the current step and gives the next step.
    pub fn advance(&mut self, event: RefreshEvent) -> (next: RefreshStep)
        requires
            refresh_accepts(old(self)@, event),
        ensures
            next == refresh_next(old(self)@, event),
            final(self)@ == next,
    {
        let after_settings = if ENABLE_REST_ACTIVITY {
            RefreshStep::FetchActivities
        } else {
            RefreshCycle::after_activities()
        };
        let next = match (self.step, event) {
            (RefreshStep::LoadSettings, RefreshEvent::SettingsLoaded(true)) => after_settings,
            (RefreshStep::FetchActivities, RefreshEvent::Fetched(true)) => RefreshStep::SaveActivities,
            (RefreshStep::FetchActivities, RefreshEvent::Fetched(false)) => RefreshCycle::after_activities(),
            (RefreshStep::SaveActivities, _) => RefreshCycle::after_activities(),
            (RefreshStep::FetchPositions, RefreshEvent::Fetched(true)) => RefreshStep::ClearPositions,
            (RefreshStep::FetchPositions, RefreshEvent::Fetched(false)) => RefreshCycle::after_positions(),
            (RefreshStep::ClearPositions, _) => RefreshStep::SavePositions,
            (RefreshStep::SavePositions, _) => RefreshCycle::after_positions(),
            (RefreshStep::FetchOrders, RefreshEvent::Fetched(true)) => RefreshStep::ClearOrders,
            (RefreshStep::ClearOrders, _) => RefreshStep::SaveOrders,
            _ => RefreshStep::Finished,
        };
        self.step = next;
        next
    }

    fn after_activities() -> (step: RefreshStep)
        ensures
            step == after_activities(),
    {
        if ENABLE_REST_POSITION {
            RefreshStep::FetchPositions
        } else {
            RefreshCycle::after_positions()
        }
    }

    fn after_positions() -> (step: RefreshStep)
        ensures
            step == after_positions(),
    {
        if ENABLE_REST_ORDER {
            RefreshStep::FetchOrders
        } else {
            RefreshStep::Finished
        }
    }
}

/// The steps a cycle takes for a sequence of outcomes.
pub open spec fn refresh_run(step: RefreshStep, events: Seq<RefreshEvent>) -> Seq<RefreshStep>
    decreases events.len(),
{
    if events.len() == 0 {
        seq![]
    } else {
        let next = refresh_next(step, events[0]);
        seq![next] + refresh_run(next, events.drop_first())
    }
}

/// Each outcome of the sequence is one its step awaits.
pub open spec fn refresh_accepts_run(step: RefreshStep, events: Seq<RefreshEvent>) -> bool
    decreases events.len(),
{
    events.len() == 0 || (refresh_accepts(step, events[0]) && refresh_accepts_run(
        refresh_next(step, events[0]),
        events.drop_first(),
    ))
}

/// The outcomes of one part of the API: the fetch, then, when it succeeded,
/// one `Done` for each database step (`saves` of them).
pub open spec fn part_events(fetched: bool, saves: nat) -> Seq<RefreshEvent> {
    if fetched {
        seq![RefreshEvent::Fetched(true)] + Seq::new(saves, |i: int| RefreshEvent::Done)
    } else {
        seq![RefreshEvent::Fetched(false)]
    }
}

/// The outcomes of a full cycle whose settings load.
pub open spec fn cycle_events(activities: bool, positions: bool, orders: bool) -> Seq<RefreshEvent> {
    seq![RefreshEvent::SettingsLoaded(true)] + part_events(activities, 1) + part_events(positions, 2)
        + part_events(orders, 2)
}

/// The steps of a full cycle whose settings load.
pub open spec fn cycle_steps(activities: bool, positions: bool, orders: bool) -> Seq<RefreshStep> {
    seq![RefreshStep::FetchActivities] + (if activities {
        seq![RefreshStep::SaveActivities]
    } else {
        seq![]
    }) + seq![RefreshStep::FetchPositions] + (if positions {
        seq![RefreshStep::ClearPositions, RefreshStep::SavePositions]
    } else {
        seq![]
    }) + seq![RefreshStep::FetchOrders] + (if orders {
        seq![RefreshStep::ClearOrders, RefreshStep::SaveOrders]
    } else {
        seq![]
    }) + seq![RefreshStep::Finished]
}

/// A cycle whose settings do not load does nothing else.
pub proof fn law_no_settings_no_refresh()
    ensures
        refresh_accepts_run(RefreshStep::LoadSettings, seq![RefreshEvent::SettingsLoaded(false)]),
        refresh_run(RefreshStep::LoadSettings, seq![RefreshEvent::SettingsLoaded(false)]) == seq![
            RefreshStep::Finished,
        ],
{
    reveal_with_fuel(refresh_run, 2);
    reveal_with_fuel(refresh_accepts_run, 2);
    let events = seq![RefreshEvent::SettingsLoaded(false)];
    assert(events.drop_first() =~= Seq::<RefreshEvent>::empty());
    assert(refresh_run(RefreshStep::LoadSettings, events) =~= seq![RefreshStep::Finished]);
}

proof fn lemma_run_append(step: RefreshStep, a: Seq<RefreshEvent>, b: Seq<RefreshEvent>)
    ensures
        refresh_run(step, a + b) == refresh_run(step, a) + refresh_run(
            refresh_final(step, a),
            b,
        ),
        refresh_accepts_run(step, a + b) == (refresh_accepts_run(step, a) && refresh_accepts_run(
            refresh_final(step, a),
            b,
        )),
    decreases a.len(),
{
    if a.len() == 0 {
        assert(a + b =~= b);
        assert(refresh_run(step, a) =~= Seq::<RefreshStep>::empty());
        assert(refresh_run(step, a) + refresh_run(step, b) =~= refresh_run(step, b));
    } else {
        let next = refresh_next(step, a[0]);
        assert((a + b).drop_first() =~= a.drop_first() + b);
        assert((a + b)[0] == a[0]);
        lemma_run_append(next, a.drop_first(), b);
        assert(seq![next] + (refresh_run(next, a.drop_first()) + refresh_run(
            refresh_final(next, a.drop_first()),
            b,
        )) =~= (seq![next] + refresh_run(next, a.drop_first())) + refresh_run(
            refresh_final(next, a.drop_first()),
            b,
        ));
    }
}

/// The step a cycle stands at after a sequence of outcomes.
pub open spec fn refresh_final(step: RefreshStep, events: Seq<RefreshEvent>) -> RefreshStep
    decreases events.len(),
{
    if events.len() == 0 {
        step
    } else {
        refresh_final(refresh_next(step, events[0]), events.drop_first())
    }
}

/// Every cycle whose settings load refreshes the activities, then the
/// positions, then the orders, whatever each fetch gives; what a fetch
/// brought is saved, and the positions and orders tables are cleared first,
/// only when their fetch succeeded.
pub proof fn law_cycle_refreshes_every_part(activities: bool, positions: bool, orders: bool)
    ensures
        refresh_accepts_run(RefreshStep::LoadSettings, cycle_events(activities, positions, orders)),
        refresh_run(RefreshStep::LoadSettings, cycle_events(activities, positions, orders))
            == cycle_steps(activities, positions, orders),
{
    reveal_with_fuel(refresh_run, 4);
    reveal_with_fuel(refresh_accepts_run, 4);
    reveal_with_fuel(refresh_final, 4);
    let s0 = RefreshStep::LoadSettings;
    let e0 = seq![RefreshEvent::SettingsLoaded(true)];
    let ea = part_events(activities, 1);
    let ep = part_events(positions, 2);
    let eo = part_events(orders, 2);
    assert(e0.drop_first() =~= Seq::<RefreshEvent>::empty());
    assert(refresh_run(s0, e0) =~= seq![RefreshStep::FetchActivities]);
    let s1 = RefreshStep::FetchActivities;
    assert(refresh_final(s0, e0) == s1);
    if activities {
        assert(ea.drop_first() =~= seq![RefreshEvent::Done]);
        assert(ea.drop_first().drop_first() =~= Seq::<RefreshEvent>::empty());
        assert(refresh_run(s1, ea) =~= seq![RefreshStep::SaveActivities, RefreshStep::FetchPositions]);
    } else {
        assert(ea.drop_first() =~= Seq::<RefreshEvent>::empty());
        assert(refresh_run(s1, ea) =~= seq![RefreshStep::FetchPositions]);
    }
    let s2 = RefreshStep::FetchPositions;
    assert(refresh_final(s1, ea) == s2);
    if positions {
        assert(ep.drop_first() =~= seq![RefreshEvent::Done, RefreshEvent::Done]);
        assert(ep.drop_first().drop_first() =~= seq![RefreshEvent::Done]);
        assert(ep.drop_first().drop_first().drop_first() =~= Seq::<RefreshEvent>::empty());
        assert(refresh_run(s2, ep) =~= seq![
            RefreshStep::ClearPositions,
            RefreshStep::SavePositions,
            RefreshStep::FetchOrders,
        ]);
    } else {
        assert(ep.drop_first() =~= Seq::<RefreshEvent>::empty());
        assert(refresh_run(s2, ep) =~= seq![RefreshStep::FetchOrders]);
    }
    let s3 = RefreshStep::FetchOrders;
    assert(refresh_final(s2, ep) == s3);
    if orders {
        assert(eo.drop_first() =~= seq![RefreshEvent::Done, RefreshEvent::Done]);
        assert(eo.drop_first().drop_first() =~= seq![RefreshEvent::Done]);
        assert(eo.drop_first().drop_first().drop_first() =~= Seq::<RefreshEvent>::empty());
        assert(refresh_run(s3, eo) =~= seq![
            RefreshStep::ClearOrders,
            RefreshStep::SaveOrders,
            RefreshStep::Finished,
        ]);
    } else {
        assert(eo.drop_first() =~= Seq::<RefreshEvent>::empty());
        assert(refresh_run(s3, eo) =~= seq![RefreshStep::Finished]);
    }
    lemma_run_append(s0, e0, ea);
    lemma_run_append(s0, e0 + ea, ep);
    lemma_run_append(s0, e0 + ea + ep, eo);
    lemma_final_append(s0, e0, ea);
    lemma_final_append(s0, e0 + ea, ep);
    assert(refresh_run(s0, cycle_events(activities, positions, orders)) =~= cycle_steps(
        activities,
        positions,
        orders,
    ));
}

proof fn lemma_final_append(step: RefreshStep, a: Seq<RefreshEvent>, b: Seq<RefreshEvent>)
    ensures
        refresh_final(step, a + b) == refresh_final(refresh_final(step, a), b),
    decreases a.len(),
{
    if a.len() == 0 {
        assert(a + b =~= b);
    } else {
        assert((a + b).drop_first() =~= a.drop_first() + b);
        assert((a + b)[0] == a[0]);
        lemma_final_append(refresh_next(step, a[0]), a.drop_first(), b);
    }
}

/// A table is cleared only right after its part of the API was fetched
/// successfully.
pub proof fn law_clear_only_after_successful_fetch(step: RefreshStep, event: RefreshEvent)
    requires
        refresh_accepts(step, event),
    ensures
        refresh_next(step, event) == RefreshStep::ClearPositions ==> step
            == RefreshStep::FetchPositions && event == RefreshEvent::Fetched(true),
        refresh_next(step, event) == RefreshStep::ClearOrders ==> step == RefreshStep::FetchOrders
            && event == RefreshEvent::Fetched(true),
{
}

} // verus!
