use trade::collector::{
    read_switch, DataCollector, FeedService, ServicePlan, Startup, StartupEvent, StartupStep,
    Switches,
};

#[test]
fn switches_follow_their_defaults() {
    assert!(read_switch(None, true, false));
    assert!(!read_switch(None, false, true));
    assert!(read_switch(Some("true"), false, false));
    assert!(!read_switch(Some("false"), true, true));
    assert!(read_switch(Some("yes"), false, true));
    assert!(!read_switch(Some("TRUE"), true, false));
}

#[test]
fn default_plan_runs_both_feeds() {
    assert_eq!(
        DataCollector::plan(None, None, None),
        ServicePlan { alpaca_websocket: true, finnhub: true, alpaca_rest: false }
    );
}

#[test]
fn unreadable_switches() {
    assert_eq!(
        DataCollector::plan(Some("on"), Some("on"), Some("on")),
        ServicePlan { alpaca_websocket: false, finnhub: true, alpaca_rest: false }
    );
    assert_eq!(
        DataCollector::plan(Some("false"), Some("false"), Some("true")),
        ServicePlan { alpaca_websocket: false, finnhub: false, alpaca_rest: true }
    );
}

fn switches(ws: Option<&str>, finnhub: Option<&str>, rest: Option<&str>) -> Switches {
    Switches {
        alpaca_websocket: ws.map(|s| s.to_string()),
        finnhub: finnhub.map(|s| s.to_string()),
        alpaca_rest: rest.map(|s| s.to_string()),
    }
}

fn advance(startup: &mut Startup, event: StartupEvent) -> StartupStep {
    assert!(startup.accepts(&event));
    startup.advance(event)
}

#[test]
fn database_starts_before_the_switches_are_read() {
    let mut startup = Startup::new();
    assert_eq!(startup.current(), StartupStep::StartDatabase);
    assert_eq!(startup.plan(), None);
    assert!(!startup.accepts(&StartupEvent::SwitchesRead(switches(None, None, None))));
    assert_eq!(advance(&mut startup, StartupEvent::DatabaseStarted), StartupStep::ReadSwitches);
    assert_eq!(startup.plan(), None);
    assert!(!startup.accepts(&StartupEvent::DatabaseStarted));
    advance(&mut startup, StartupEvent::SwitchesRead(switches(None, None, None)));
    assert_eq!(
        startup.plan(),
        Some(ServicePlan { alpaca_websocket: true, finnhub: true, alpaca_rest: false })
    );
}

#[test]
fn startup_with_everything_on() {
    let mut startup = Startup::new();
    let steps = vec![
        advance(&mut startup, StartupEvent::DatabaseStarted),
        advance(&mut startup, StartupEvent::SwitchesRead(switches(None, Some("true"), Some("true")))),
        advance(&mut startup, StartupEvent::SymbolsLoaded(true)),
        advance(&mut startup, StartupEvent::Spawned),
        advance(&mut startup, StartupEvent::SymbolsLoaded(true)),
        advance(&mut startup, StartupEvent::Spawned),
        advance(&mut startup, StartupEvent::RestStarted),
    ];
    assert_eq!(
        steps,
        vec![
            StartupStep::ReadSwitches,
            StartupStep::LoadSymbols(FeedService::AlpacaWebsocket),
            StartupStep::Spawn(FeedService::AlpacaWebsocket),
            StartupStep::LoadSymbols(FeedService::Finnhub),
            StartupStep::Spawn(FeedService::Finnhub),
            StartupStep::RunRest,
            StartupStep::KeepAlive,
        ]
    );
    assert!(!startup.accepts(&StartupEvent::Spawned));
}

#[test]
fn failed_symbols_skip_only_that_feed() {
    let mut startup = Startup::new();
    let steps = vec![
        advance(&mut startup, StartupEvent::DatabaseStarted),
        advance(&mut startup, StartupEvent::SwitchesRead(switches(None, None, None))),
        advance(&mut startup, StartupEvent::SymbolsLoaded(false)),
        advance(&mut startup, StartupEvent::SymbolsLoaded(true)),
        advance(&mut startup, StartupEvent::Spawned),
    ];
    assert_eq!(
        steps,
        vec![
            StartupStep::ReadSwitches,
            StartupStep::LoadSymbols(FeedService::AlpacaWebsocket),
            StartupStep::LoadSymbols(FeedService::Finnhub),
            StartupStep::Spawn(FeedService::Finnhub),
            StartupStep::KeepAlive,
        ]
    );
}

#[test]
fn startup_with_everything_off() {
    let mut startup = Startup::new();
    advance(&mut startup, StartupEvent::DatabaseStarted);
    assert_eq!(
        advance(&mut startup, StartupEvent::SwitchesRead(switches(Some("false"), Some("false"), None))),
        StartupStep::KeepAlive
    );
}

#[test]
fn unreadable_switches_in_startup() {
    let mut startup = Startup::new();
    advance(&mut startup, StartupEvent::DatabaseStarted);
    assert_eq!(
        advance(&mut startup, StartupEvent::SwitchesRead(switches(Some("on"), Some("on"), Some("on")))),
        StartupStep::LoadSymbols(FeedService::Finnhub)
    );
}
