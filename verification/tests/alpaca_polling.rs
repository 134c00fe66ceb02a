use trade::alpaca::{
    AlpacaRest, RefreshCycle, RefreshEvent, RefreshStep, TimeOfDay, REST_POLL_RATE_CLOSED_MILLIS,
    REST_POLL_RATE_OPEN_MILLIS,
};

fn hms(h: u32, m: u32, s: u32) -> TimeOfDay {
    TimeOfDay { secs: h * 3600 + m * 60 + s, nanos: 0 }
}

const OPEN: (u32, u32, u32) = (4, 0, 0);
const CLOSE: (u32, u32, u32) = (20, 0, 0);

fn open() -> TimeOfDay {
    hms(OPEN.0, OPEN.1, OPEN.2)
}

fn close() -> TimeOfDay {
    hms(CLOSE.0, CLOSE.1, CLOSE.2)
}

#[test]
fn poll_rate_while_open_uses_the_configured_interval() {
    assert_eq!(AlpacaRest::poll_rate_ms(hms(10, 0, 0), open(), close(), Some("2500")), 2500);
    assert_eq!(AlpacaRest::poll_rate_ms(hms(10, 0, 0), open(), close(), Some("+100")), 100);
}

#[test]
fn poll_rate_while_open_defaults_to_five_seconds() {
    assert_eq!(AlpacaRest::poll_rate_ms(hms(10, 0, 0), open(), close(), None), 5000);
    assert_eq!(AlpacaRest::poll_rate_ms(hms(10, 0, 0), open(), close(), Some("fast")), 5000);
    assert_eq!(AlpacaRest::poll_rate_ms(hms(10, 0, 0), open(), close(), Some("")), 5000);
    assert_eq!(AlpacaRest::poll_rate_ms(hms(10, 0, 0), open(), close(), Some("-5")), 5000);
    assert_eq!(REST_POLL_RATE_OPEN_MILLIS, 5000);
}

#[test]
fn poll_rate_while_closed_is_thirty_seconds() {
    assert_eq!(AlpacaRest::poll_rate_ms(hms(3, 59, 59), open(), close(), Some("2500")), 30000);
    assert_eq!(AlpacaRest::poll_rate_ms(hms(23, 0, 0), open(), close(), None), 30000);
    assert_eq!(REST_POLL_RATE_CLOSED_MILLIS, 30000);
}

#[test]
fn market_hours_include_both_ends() {
    assert_eq!(AlpacaRest::poll_rate_ms(open(), open(), close(), Some("1")), 1);
    assert_eq!(AlpacaRest::poll_rate_ms(close(), open(), close(), Some("1")), 1);
    let just_after = TimeOfDay { secs: close().secs, nanos: 1 };
    assert_eq!(AlpacaRest::poll_rate_ms(just_after, open(), close(), Some("1")), 30000);
    let leap = TimeOfDay { secs: open().secs - 1, nanos: 1_500_000_000 };
    assert!(leap.not_after(&open()));
    assert_eq!(AlpacaRest::poll_rate_ms(leap, open(), close(), Some("1")), 30000);
}

#[test]
fn poll_rate_reads_the_new_york_clock() {
    // 2023-05-31 22:00:00 UTC is 18:00 in New York (EDT): open.
    assert_eq!(AlpacaRest::poll_rate_at(1685570400, 0, open(), close(), Some("1234")), Some(1234));
    // 2023-01-10 13:00:00 UTC is 08:00 in New York (EST): open.
    assert_eq!(AlpacaRest::poll_rate_at(1673355600, 0, open(), close(), None), Some(5000));
    // 2023-01-10 03:00:00 UTC is 22:00 the day before in New York: closed.
    assert_eq!(AlpacaRest::poll_rate_at(1673319600, 0, open(), close(), Some("1")), Some(30000));
    // A window of one minute around 18:00 New York time.
    let window_open = hms(17, 59, 30);
    let window_close = hms(18, 0, 30);
    assert_eq!(AlpacaRest::poll_rate_at(1685570400, 0, window_open, window_close, Some("7")), Some(7));
    assert_eq!(AlpacaRest::poll_rate_at(1685570460, 0, window_open, window_close, Some("7")), Some(30000));
}

#[test]
fn poll_rate_at_an_instant_chrono_cannot_represent() {
    assert_eq!(AlpacaRest::poll_rate_at(i64::MAX, 0, open(), close(), None), None);
    assert_eq!(AlpacaRest::poll_rate_at(0, 2_000_000_000, open(), close(), None), None);
}

fn advance(cycle: &mut RefreshCycle, event: RefreshEvent) -> RefreshStep {
    assert!(cycle.accepts(event));
    cycle.advance(event)
}

#[test]
fn cycle_without_settings_ends_at_once() {
    let mut cycle = RefreshCycle::new();
    assert_eq!(cycle.current(), RefreshStep::LoadSettings);
    assert_eq!(advance(&mut cycle, RefreshEvent::SettingsLoaded(false)), RefreshStep::Finished);
    assert!(!cycle.accepts(RefreshEvent::Done));
}

#[test]
fn cycle_with_every_fetch_succeeding() {
    let mut cycle = RefreshCycle::new();
    let mut steps = vec![advance(&mut cycle, RefreshEvent::SettingsLoaded(true))];
    steps.push(advance(&mut cycle, RefreshEvent::Fetched(true)));
    steps.push(advance(&mut cycle, RefreshEvent::Done));
    steps.push(advance(&mut cycle, RefreshEvent::Fetched(true)));
    steps.push(advance(&mut cycle, RefreshEvent::Done));
    steps.push(advance(&mut cycle, RefreshEvent::Done));
    steps.push(advance(&mut cycle, RefreshEvent::Fetched(true)));
    steps.push(advance(&mut cycle, RefreshEvent::Done));
    steps.push(advance(&mut cycle, RefreshEvent::Done));
    assert_eq!(
        steps,
        vec![
            RefreshStep::FetchActivities,
            RefreshStep::SaveActivities,
            RefreshStep::FetchPositions,
            RefreshStep::ClearPositions,
            RefreshStep::SavePositions,
            RefreshStep::FetchOrders,
            RefreshStep::ClearOrders,
            RefreshStep::SaveOrders,
            RefreshStep::Finished,
        ]
    );
}

#[test]
fn failed_fetches_skip_to_the_next_part() {
    let mut cycle = RefreshCycle::new();
    let mut steps = vec![advance(&mut cycle, RefreshEvent::SettingsLoaded(true))];
    steps.push(advance(&mut cycle, RefreshEvent::Fetched(false)));
    steps.push(advance(&mut cycle, RefreshEvent::Fetched(false)));
    steps.push(advance(&mut cycle, RefreshEvent::Fetched(false)));
    assert_eq!(
        steps,
        vec![
            RefreshStep::FetchActivities,
            RefreshStep::FetchPositions,
            RefreshStep::FetchOrders,
            RefreshStep::Finished,
        ]
    );
}

#[test]
fn positions_failing_does_not_stop_orders() {
    let mut cycle = RefreshCycle::new();
    advance(&mut cycle, RefreshEvent::SettingsLoaded(true));
    advance(&mut cycle, RefreshEvent::Fetched(true));
    advance(&mut cycle, RefreshEvent::Done);
    assert_eq!(advance(&mut cycle, RefreshEvent::Fetched(false)), RefreshStep::FetchOrders);
    assert_eq!(advance(&mut cycle, RefreshEvent::Fetched(true)), RefreshStep::ClearOrders);
    assert!(!cycle.accepts(RefreshEvent::Fetched(true)));
}
