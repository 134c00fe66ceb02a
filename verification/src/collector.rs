//! The data collector's start-up: which services the environment switches
//! on, and the order in which they are started.

use vstd::prelude::*;
use crate::text::{bool_from_text, parse_bool};

verus! {

/// Starts the database writer and the configured market-data services.
pub struct DataCollector {}

/// A switch read from the environment: unset means `default`; a value that
/// is not `true` or `false` means `on_error`.
pub open spec fn env_switch(value: Option<Seq<char>>, default: bool, on_error: bool) -> bool {
    match value {
        Some(text) => match bool_from_text(text) {
            Some(on) => on,
            None => on_error,
        },
        None => default,
    }
}

pub open spec fn opt_view(value: Option<&str>) -> Option<Seq<char>> {
    match value {
        Some(t) => Some(t@),
        None => None,
    }
}

/// Reads a switch as `env_switch` says.
pub fn read_switch(value: Option<&str>, default: bool, on_error: bool) -> (on: bool)
    ensures
        on == env_switch(opt_view(value), default, on_error),
{
    match value {
        Some(text) => match parse_bool(text) {
            Some(on) => on,
            None => on_error,
        },
        None => default,
    }
}

/// The services the collector runs.
#[derive(PartialEq, Eq, Structural, Clone, Copy, Debug)]
pub struct ServicePlan {
    /// The Alpaca websocket feed (`ALPACA_WEBSOCKET_ON`).
    pub alpaca_websocket: bool,
    /// The Finnhub websocket feed (`FINNHUB_ON`).
    pub finnhub: bool,
    /// The Alpaca REST poller (`ALPACA_REST_ON`).
    pub alpaca_rest: bool,
}

/// The plan the three switches give: the Alpaca websocket is on unless
/// switched off (an unreadable value switches it off), Finnhub is on unless
/// switched off (an unreadable value leaves it on), and the REST poller is
/// off unless switched on.
pub open spec fn service_plan(
    alpaca_websocket: Option<Seq<char>>,
    finnhub: Option<Seq<char>>,
    alpaca_rest: Option<Seq<char>>,
) -> ServicePlan {
    ServicePlan {
        alpaca_websocket: env_switch(alpaca_websocket, true, false),
        finnhub: env_switch(finnhub, true, true),
        alpaca_rest: env_switch(alpaca_rest, false, false),
    }
}

/// A websocket service that needs the active symbols.
#[derive(PartialEq, Eq, Structural, Clone, Copy, Debug)]
pub enum FeedService {
    AlpacaWebsocket,
    Finnhub,
}

/// A start-up step: the action the collector is to perform.
#[derive(PartialEq, Eq, Structural, Clone, Copy, Debug)]
pub enum StartupStep {
    /// Start the database writer.
    StartDatabase,
    /// Read the three switches from the environment.
    ReadSwitches,
    /// Load the active symbols for a feed.
    LoadSymbols(FeedService),
    /// Start a feed on the loaded symbols.
    Spawn(FeedService),
    /// Start the REST poller.
    RunRest,
    /// Keep the process alive for the services' threads.
    KeepAlive,
}

/// The values of `ALPACA_WEBSOCKET_ON`, `FINNHUB_ON` and `ALPACA_REST_ON`
/// (`None` when unset).
#[derive(Debug)]
pub struct Switches {
    pub alpaca_websocket: Option<String>,
    pub finnhub: Option<String>,
    pub alpaca_rest: Option<String>,
}

/// The outcome of a start-up step.
#[derive(Debug)]
pub enum StartupEvent {
    DatabaseStarted,
    SwitchesRead(Switches),
    /// The symbols were loaded (`true`) or the query failed (`false`).
    SymbolsLoaded(bool),
    Spawned,
    RestStarted,
}

pub open spec fn opt_string_view(value: Option<String>) -> Option<Seq<char>> {
    match value {
        Some(t) => Some(t@),
        None => None,
    }
}

/// The plan the switches give.
pub open spec fn switches_plan(switches: Switches) -> ServicePlan {
    service_plan(
        opt_string_view(switches.alpaca_websocket),
        opt_string_view(switches.finnhub),
        opt_string_view(switches.alpaca_rest),
    )
}

/// The step after the Alpaca websocket was dealt with.
pub open spec fn after_alpaca(plan: ServicePlan) -> StartupStep {
    if plan.finnhub {
        StartupStep::LoadSymbols(FeedService::Finnhub)
    } else {
        after_finnhub(plan)
    }
}

/// The step after the Finnhub feed was dealt with.
pub open spec fn after_finnhub(plan: ServicePlan) -> StartupStep {
    if plan.alpaca_rest {
        StartupStep::RunRest
    } else {
        StartupStep::KeepAlive
    }
}

/// The step after the switches were read.
pub open spec fn after_switches(plan: ServicePlan) -> StartupStep {
    if plan.alpaca_websocket {
        StartupStep::LoadSymbols(FeedService::AlpacaWebsocket)
    } else {
        after_alpaca(plan)
    }
}

/// The step after a feed service was dealt with.
pub open spec fn after_service(plan: ServicePlan, service: FeedService) -> StartupStep {
    match service {
        FeedService::AlpacaWebsocket => after_alpaca(plan),
        FeedService::Finnhub => after_finnhub(plan),
    }
}

/// The outcomes each step awaits.
pub open spec fn startup_accepts(step: StartupStep, event: StartupEvent) -> bool {
    match step {
        StartupStep::StartDatabase => event is DatabaseStarted,
        StartupStep::ReadSwitches => event is SwitchesRead,
        StartupStep::LoadSymbols(_) => event is SymbolsLoaded,
        StartupStep::Spawn(_) => event is Spawned,
        StartupStep::RunRest => event is RestStarted,
        StartupStep::KeepAlive => false,
    }
}

/// The abstract state of a start-up: the plan, once the switches were read,
/// and the step in progress.
pub struct StartupView {
    pub plan: Option<ServicePlan>,
    pub step: StartupStep,
}

/// The start-up before anything was done.
pub open spec fn startup_initial() -> StartupView {
    StartupView { plan: None, step: StartupStep::StartDatabase }
}

/// The next state: the switches are read once the database writer started;
/// then a feed whose symbols loaded is started, one whose query failed is
/// skipped, and each switched-on service is dealt with in turn.
pub open spec fn startup_next(v: StartupView, event: StartupEvent) -> StartupView {
    match v.step {
        StartupStep::StartDatabase => StartupView { plan: v.plan, step: StartupStep::ReadSwitches },
        StartupStep::ReadSwitches => match event {
            StartupEvent::SwitchesRead(switches) => StartupView {
                plan: Some(switches_plan(switches)),
                step: after_switches(switches_plan(switches)),
            },
            _ => StartupView { plan: v.plan, step: StartupStep::KeepAlive },
        },
        StartupStep::LoadSymbols(service) => match event {
            StartupEvent::SymbolsLoaded(true) => StartupView {
                plan: v.plan,
                step: StartupStep::Spawn(service),
            },
            _ => StartupView { plan: v.plan, step: after_service(v.plan->0, service) },
        },
        StartupStep::Spawn(service) => StartupView {
            plan: v.plan,
            step: after_service(v.plan->0, service),
        },
        _ => StartupView { plan: v.plan, step: StartupStep::KeepAlive },
    }
}

fn opt_str(value: &Option<String>) -> (text: Option<&str>)
    ensures
        opt_view(text) == opt_string_view(*value),
{
    match value {
        Some(t) => Some(t.as_str()),
        None => None,
    }
}

impl DataCollector {
    /// The services to run, from the values of `ALPACA_WEBSOCKET_ON`,
    /// `FINNHUB_ON` and `ALPACA_REST_ON` (`None` when unset).
    pub fn plan(
        alpaca_websocket: Option<&str>,
        finnhub: Option<&str>,
        alpaca_rest: Option<&str>,
    ) -> (plan: ServicePlan)
        ensures
            plan == service_plan(opt_view(alpaca_websocket), opt_view(finnhub), opt_view(alpaca_rest)),
    {
        ServicePlan {
            alpaca_websocket: read_switch(alpaca_websocket, true, false),
            finnhub: read_switch(finnhub, true, true),
            alpaca_rest: read_switch(alpaca_rest, false, false),
        }
    }
}

/// The start-up of a collector.
pub struct Startup {
    plan: Option<ServicePlan>,
    step: StartupStep,
}

impl View for Startup {
    type V = StartupView;

    closed spec fn view(&self) -> StartupView {
        StartupView { plan: self.plan, step: self.step }
    }
}

impl Startup {
    #[verifier::type_invariant]
    closed spec fn inv(self) -> bool {
        !(self.step is StartDatabase || self.step is ReadSwitches) ==> self.plan is Some
    }

    /// The start-up; its first step starts the database writer.
    pub fn new() -> (startup: Startup)
        ensures
            startup@ == startup_initial(),
    {
        Startup { plan: None, step: StartupStep::StartDatabase }
    }

    /// The step in progress.
    pub fn current(&self) -> (step: StartupStep)
        ensures
            step == self@.step,
    {
        self.step
    }

    /// The plan, once the switches were read.
    pub fn plan(&self) -> (plan: Option<ServicePlan>)
        ensures
            plan == self@.plan,
    {
        self.plan
    }

    /// Whether the current step awaits this outcome.
    pub fn accepts(&self, event: &StartupEvent) -> (ok: bool)
        ensures
            ok == startup_accepts(self@.step, *event),
    {
        match self.step {
            StartupStep::StartDatabase => matches!(event, StartupEvent::DatabaseStarted),
            StartupStep::ReadSwitches => matches!(event, StartupEvent::SwitchesRead(_)),
            StartupStep::LoadSymbols(_) => matches!(event, StartupEvent::SymbolsLoaded(_)),
            StartupStep::Spawn(_) => matches!(event, StartupEvent::Spawned),
            StartupStep::RunRest => matches!(event, StartupEvent::RestStarted),
            StartupStep::KeepAlive => false,
        }
    }

    /// Takes the outcome of the current step and gives the next step.
    pub fn advance(&mut self, event: StartupEvent) -> (next: StartupStep)
        requires
            startup_accepts(old(self)@.step, event),
        ensures
            final(self)@ == startup_next(old(self)@, event),
            next == final(self)@.step,
    {
        proof {
            use_type_invariant(&*self);
        }
        let next = match self.step {
            StartupStep::StartDatabase => StartupStep::ReadSwitches,
            StartupStep::ReadSwitches => match event {
                StartupEvent::SwitchesRead(switches) => {
                    let plan = DataCollector::plan(
                        opt_str(&switches.alpaca_websocket),
                        opt_str(&switches.finnhub),
                        opt_str(&switches.alpaca_rest),
                    );
                    self.plan = Some(plan);
                    Startup::after_switches(plan)
                },
                _ => StartupStep::KeepAlive,
            },
            StartupStep::LoadSymbols(service) => match event {
                StartupEvent::SymbolsLoaded(true) => StartupStep::Spawn(service),
                _ => self.after_service(service),
            },
            StartupStep::Spawn(service) => self.after_service(service),
            _ => StartupStep::KeepAlive,
        };
        self.step = next;
        next
    }

    fn after_switches(plan: ServicePlan) -> (step: StartupStep)
        ensures
            step == after_switches(plan),
    {
        if plan.alpaca_websocket {
            StartupStep::LoadSymbols(FeedService::AlpacaWebsocket)
        } else if plan.finnhub {
            StartupStep::LoadSymbols(FeedService::Finnhub)
        } else if plan.alpaca_rest {
            StartupStep::RunRest
        } else {
            StartupStep::KeepAlive
        }
    }

    fn after_service(&self, service: FeedService) -> (step: StartupStep)
        requires
            self.plan is Some,
        ensures
            step == after_service(self.plan->0, service),
    {
        let plan = match self.plan {
            Some(p) => p,
            None => ServicePlan { alpaca_websocket: false, finnhub: false, alpaca_rest: false },
        };
        match service {
            FeedService::AlpacaWebsocket => if plan.finnhub {
                StartupStep::LoadSymbols(FeedService::Finnhub)
            } else if plan.alpaca_rest {
                StartupStep::RunRest
            } else {
                StartupStep::KeepAlive
            },
            FeedService::Finnhub => if plan.alpaca_rest {
                StartupStep::RunRest
            } else {
                StartupStep::KeepAlive
            },
        }
    }
}

/// With none of the switches set, the collector runs both websocket feeds
/// and not the REST poller.
pub proof fn law_default_plan()
    ensures
        service_plan(None, None, None) == (ServicePlan {
            alpaca_websocket: true,
            finnhub: true,
            alpaca_rest: false,
        }),
{
}

/// Each service follows its own switch and no other: the Alpaca websocket
/// runs unless `ALPACA_WEBSOCKET_ON` is set to anything but `true`; Finnhub
/// runs unless `FINNHUB_ON` is exactly `false`; the REST poller runs only
/// when `ALPACA_REST_ON` is exactly `true`.
pub proof fn law_each_service_follows_its_own_switch(
    alpaca_websocket: Option<Seq<char>>,
    finnhub: Option<Seq<char>>,
    alpaca_rest: Option<Seq<char>>,
)
    ensures
        service_plan(alpaca_websocket, finnhub, alpaca_rest).alpaca_websocket <==> (alpaca_websocket
            is None || alpaca_websocket == Some(seq!['t', 'r', 'u', 'e'])),
        service_plan(alpaca_websocket, finnhub, alpaca_rest).finnhub <==> finnhub != Some(
            seq!['f', 'a', 'l', 's', 'e'],
        ),
        service_plan(alpaca_websocket, finnhub, alpaca_rest).alpaca_rest <==> alpaca_rest == Some(
            seq!['t', 'r', 'u', 'e'],
        ),
{
    if finnhub == Some(seq!['t', 'r', 'u', 'e']) {
        assert(seq!['t', 'r', 'u', 'e'] != seq!['f', 'a', 'l', 's', 'e']) by {
            assert(seq!['t', 'r', 'u', 'e'].len() != seq!['f', 'a', 'l', 's', 'e'].len());
        }
    }
    if alpaca_websocket == Some(seq!['f', 'a', 'l', 's', 'e']) {
        assert(seq!['t', 'r', 'u', 'e'] != seq!['f', 'a', 'l', 's', 'e']) by {
            assert(seq!['t', 'r', 'u', 'e'].len() != seq!['f', 'a', 'l', 's', 'e'].len());
        }
    }
    if alpaca_rest == Some(seq!['f', 'a', 'l', 's', 'e']) {
        assert(seq!['t', 'r', 'u', 'e'] != seq!['f', 'a', 'l', 's', 'e']) by {
            assert(seq!['t', 'r', 'u', 'e'].len() != seq!['f', 'a', 'l', 's', 'e'].len());
        }
    }
}

/// The steps a start-up takes for a sequence of outcomes.
pub open spec fn startup_run(v: StartupView, events: Seq<StartupEvent>) -> Seq<StartupStep>
    decreases events.len(),
{
    if events.len() == 0 {
        seq![]
    } else {
        let next = startup_next(v, events[0]);
        seq![next.step] + startup_run(next, events.drop_first())
    }
}

/// The state a start-up stands at after a sequence of outcomes.
pub open spec fn startup_final(v: StartupView, events: Seq<StartupEvent>) -> StartupView
    decreases events.len(),
{
    if events.len() == 0 {
        v
    } else {
        startup_final(startup_next(v, events[0]), events.drop_first())
    }
}

/// Each outcome of the sequence is one its step awaits.
pub open spec fn startup_accepts_run(v: StartupView, events: Seq<StartupEvent>) -> bool
    decreases events.len(),
{
    events.len() == 0 || (startup_accepts(v.step, events[0]) && startup_accepts_run(
        startup_next(v, events[0]),
        events.drop_first(),
    ))
}

proof fn lemma_startup_append(v: StartupView, a: Seq<StartupEvent>, b: Seq<StartupEvent>)
    ensures
        startup_run(v, a + b) == startup_run(v, a) + startup_run(startup_final(v, a), b),
        startup_accepts_run(v, a + b) == (startup_accepts_run(v, a) && startup_accepts_run(
            startup_final(v, a),
            b,
        )),
        startup_final(v, a + b) == startup_final(startup_final(v, a), b),
    decreases a.len(),
{
    if a.len() == 0 {
        assert(a + b =~= b);
        assert(startup_run(v, a) + startup_run(v, b) =~= startup_run(v, b));
    } else {
        let next = startup_next(v, a[0]);
        assert((a + b).drop_first() =~= a.drop_first() + b);
        assert((a + b)[0] == a[0]);
        lemma_startup_append(next, a.drop_first(), b);
        assert(seq![next.step] + (startup_run(next, a.drop_first()) + startup_run(
            startup_final(next, a.drop_first()),
            b,
        )) =~= (seq![next.step] + startup_run(next, a.drop_first())) + startup_run(
            startup_final(next, a.drop_first()),
            b,
        ));
    }
}

/// The outcomes of dealing with one feed: whether its symbols loaded, and
/// the spawn when they did; nothing when the feed is switched off.
pub open spec fn feed_events(on: bool, loaded: bool) -> Seq<StartupEvent> {
    if !on {
        seq![]
    } else if loaded {
        seq![StartupEvent::SymbolsLoaded(true), StartupEvent::Spawned]
    } else {
        seq![StartupEvent::SymbolsLoaded(false)]
    }
}

/// The steps of dealing with one feed.
pub open spec fn feed_steps(on: bool, loaded: bool, service: FeedService) -> Seq<StartupStep> {
    if !on {
        seq![]
    } else if loaded {
        seq![StartupStep::LoadSymbols(service), StartupStep::Spawn(service)]
    } else {
        seq![StartupStep::LoadSymbols(service)]
    }
}

/// The outcomes of a whole start-up.
pub open spec fn startup_events(switches: Switches, alpaca_loaded: bool, finnhub_loaded: bool) -> Seq<
    StartupEvent,
> {
    let plan = switches_plan(switches);
    seq![StartupEvent::DatabaseStarted, StartupEvent::SwitchesRead(switches)] + feed_events(
        plan.alpaca_websocket,
        alpaca_loaded,
    ) + feed_events(plan.finnhub, finnhub_loaded) + (if plan.alpaca_rest {
        seq![StartupEvent::RestStarted]
    } else {
        seq![]
    })
}

/// The steps of a whole start-up, after the first.
pub open spec fn startup_steps(switches: Switches, alpaca_loaded: bool, finnhub_loaded: bool) -> Seq<
    StartupStep,
> {
    let plan = switches_plan(switches);
    seq![StartupStep::ReadSwitches] + feed_steps(
        plan.alpaca_websocket,
        alpaca_loaded,
        FeedService::AlpacaWebsocket,
    ) + feed_steps(plan.finnhub, finnhub_loaded, FeedService::Finnhub) + (if plan.alpaca_rest {
        seq![StartupStep::RunRest]
    } else {
        seq![]
    }) + seq![StartupStep::KeepAlive]
}

/// Every start-up starts the database writer, once and first, then reads
/// the switches, then starts each switched-on feed in turn (the Alpaca
/// websocket, then Finnhub), each on its own symbols and only when they
/// loaded, then the REST poller when it is on, and then keeps the process
/// alive: a feed whose symbols fail to load does not hold back the others.
#[verifier::rlimit(60)]
pub proof fn law_startup_order(switches: Switches, alpaca_loaded: bool, finnhub_loaded: bool)
    ensures
        startup_initial().step == StartupStep::StartDatabase,
        startup_accepts_run(startup_initial(), startup_events(switches, alpaca_loaded, finnhub_loaded)),
        startup_run(startup_initial(), startup_events(switches, alpaca_loaded, finnhub_loaded))
            == startup_steps(switches, alpaca_loaded, finnhub_loaded),
        startup_final(startup_initial(), startup_events(switches, alpaca_loaded, finnhub_loaded)).plan
            == Some(switches_plan(switches)),
{
    reveal_with_fuel(startup_run, 3);
    reveal_with_fuel(startup_accepts_run, 3);
    reveal_with_fuel(startup_final, 3);
    let plan = switches_plan(switches);
    let v0 = startup_initial();
    let e0 = seq![StartupEvent::DatabaseStarted, StartupEvent::SwitchesRead(switches)];
    let ea = feed_events(plan.alpaca_websocket, alpaca_loaded);
    let ef = feed_events(plan.finnhub, finnhub_loaded);
    let er = if plan.alpaca_rest {
        seq![StartupEvent::RestStarted]
    } else {
        seq![]
    };
    assert(e0.drop_first() =~= seq![StartupEvent::SwitchesRead(switches)]);
    assert(e0.drop_first().drop_first() =~= Seq::<StartupEvent>::empty());
    let v1 = StartupView { plan: Some(plan), step: after_switches(plan) };
    assert(startup_run(v0, e0) =~= seq![StartupStep::ReadSwitches, v1.step]);
    assert(startup_final(v0, e0) == v1);
    // the Alpaca websocket
    let v2 = StartupView { plan: Some(plan), step: after_alpaca(plan) };
    if plan.alpaca_websocket {
        if alpaca_loaded {
            assert(ea.drop_first() =~= seq![StartupEvent::Spawned]);
            assert(ea.drop_first().drop_first() =~= Seq::<StartupEvent>::empty());
            assert(startup_run(v1, ea) =~= seq![
                StartupStep::Spawn(FeedService::AlpacaWebsocket),
                v2.step,
            ]);
        } else {
            assert(ea.drop_first() =~= Seq::<StartupEvent>::empty());
            assert(startup_run(v1, ea) =~= seq![v2.step]);
        }
    } else {
        assert(v1 == v2);
        assert(startup_run(v1, ea) =~= Seq::<StartupStep>::empty());
    }
    assert(startup_final(v1, ea) == v2);
    // the Finnhub feed
    let v3 = StartupView { plan: Some(plan), step: after_finnhub(plan) };
    if plan.finnhub {
        if finnhub_loaded {
            assert(ef.drop_first() =~= seq![StartupEvent::Spawned]);
            assert(ef.drop_first().drop_first() =~= Seq::<StartupEvent>::empty());
            assert(startup_run(v2, ef) =~= seq![StartupStep::Spawn(FeedService::Finnhub), v3.step]);
        } else {
            assert(ef.drop_first() =~= Seq::<StartupEvent>::empty());
            assert(startup_run(v2, ef) =~= seq![v3.step]);
        }
    } else {
        assert(v2 == v3);
        assert(startup_run(v2, ef) =~= Seq::<StartupStep>::empty());
    }
    assert(startup_final(v2, ef) == v3);
    // the REST poller
    if plan.alpaca_rest {
        assert(er.drop_first() =~= Seq::<StartupEvent>::empty());
        assert(startup_run(v3, er) =~= seq![StartupStep::KeepAlive]);
    } else {
        assert(startup_run(v3, er) =~= Seq::<StartupStep>::empty());
    }
    lemma_startup_append(v0, e0, ea);
    lemma_startup_append(v0, e0 + ea, ef);
    lemma_startup_append(v0, e0 + ea + ef, er);
    assert(e0 + ea + ef + er =~= startup_events(switches, alpaca_loaded, finnhub_loaded));
    let expected = startup_steps(switches, alpaca_loaded, finnhub_loaded);
    assert(startup_run(v0, startup_events(switches, alpaca_loaded, finnhub_loaded)) =~= expected);
}

} // verus!
