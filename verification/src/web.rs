//! The web front end's server: where it listens, how its sessions are kept,
//! and which page answers each request.

use vstd::prelude::*;

verus! {

/// The web front end's HTTP server.
pub struct WebServer {}

/// How the server runs.
#[derive(Clone, Copy, Debug)]
pub struct ServerSettings {
    /// The interface the server binds to.
    pub host: &'static str,
    /// The port it listens on.
    pub port: u16,
    /// The number of worker threads.
    pub workers: usize,
    /// Whether session cookies are marked secure (HTTPS only).
    pub cookie_secure: bool,
}

/// An HTTP method a route answers.
#[derive(PartialEq, Eq, Structural, Clone, Copy, Debug)]
pub enum HttpMethod {
    Get,
    Post,
}

/// The pages of the front end.
#[derive(PartialEq, Eq, Structural, Clone, Copy, Debug)]
pub enum Page {
    Home,
    Login,
    LoginSubmit,
    Ping,
    Profit,
    ProfitSummary,
    Account,
    Logout,
    Symbols,
    SymbolsSubmit,
    Activities,
    ActivityForSymbol,
    Settings,
    Positions,
    SettingsButton,
    Dashboard,
    DashboardForSymbol,
    Order,
}

/// A route: requests with this method and path pattern go to this page.
#[derive(Clone, Copy, Debug)]
pub struct Route {
    pub method: HttpMethod,
    pub path: &'static str,
    pub page: Page,
}

/// A route as plain values.
pub open spec fn route_view(route: Route) -> (HttpMethod, Seq<char>, Page) {
    (route.method, route.path@, route.page)
}

/// The front end's routes, in the order the server registers them.
pub open spec fn route_table() -> Seq<(HttpMethod, Seq<char>, Page)> {
    seq![
        (HttpMethod::Get, "/"@, Page::Home),
        (HttpMethod::Get, "/login"@, Page::Login),
        (HttpMethod::Post, "/login"@, Page::LoginSubmit),
        (HttpMethod::Get, "/ping"@, Page::Ping),
        (HttpMethod::Get, "/profit"@, Page::Profit),
        (HttpMethod::Get, "/profit_summary"@, Page::ProfitSummary),
        (HttpMethod::Get, "/account"@, Page::Account),
        (HttpMethod::Get, "/logout"@, Page::Logout),
        (HttpMethod::Get, "/symbols"@, Page::Symbols),
        (HttpMethod::Post, "/symbols"@, Page::SymbolsSubmit),
        (HttpMethod::Get, "/activity"@, Page::Activities),
        (HttpMethod::Get, "/activity/{symbol}"@, Page::ActivityForSymbol),
        (HttpMethod::Get, "/settings"@, Page::Settings),
        (HttpMethod::Get, "/positions"@, Page::Positions),
        (HttpMethod::Get, "/settings/button/{name}"@, Page::SettingsButton),
        (HttpMethod::Get, "/dashboard"@, Page::Dashboard),
        (HttpMethod::Get, "/dashboard/{symbol}"@, Page::DashboardForSymbol),
        (HttpMethod::Get, "/order"@, Page::Order),
    ]
}

/// The method and path by which each page is reached.
pub open spec fn page_address(page: Page) -> (HttpMethod, Seq<char>) {
    match page {
        Page::Home => (HttpMethod::Get, "/"@),
        Page::Login => (HttpMethod::Get, "/login"@),
        Page::LoginSubmit => (HttpMethod::Post, "/login"@),
        Page::Ping => (HttpMethod::Get, "/ping"@),
        Page::Profit => (HttpMethod::Get, "/profit"@),
        Page::ProfitSummary => (HttpMethod::Get, "/profit_summary"@),
        Page::Account => (HttpMethod::Get, "/account"@),
        Page::Logout => (HttpMethod::Get, "/logout"@),
        Page::Symbols => (HttpMethod::Get, "/symbols"@),
        Page::SymbolsSubmit => (HttpMethod::Post, "/symbols"@),
        Page::Activities => (HttpMethod::Get, "/activity"@),
        Page::ActivityForSymbol => (HttpMethod::Get, "/activity/{symbol}"@),
        Page::Settings => (HttpMethod::Get, "/settings"@),
        Page::Positions => (HttpMethod::Get, "/positions"@),
        Page::SettingsButton => (HttpMethod::Get, "/settings/button/{name}"@),
        Page::Dashboard => (HttpMethod::Get, "/dashboard"@),
        Page::DashboardForSymbol => (HttpMethod::Get, "/dashboard/{symbol}"@),
        Page::Order => (HttpMethod::Get, "/order"@),
    }
}

/// Every route leads to the page its method and path are for, and every
/// page has a route.
pub proof fn law_each_page_has_its_own_address(page: Page)
    ensures
        forall|i: int|
            0 <= i < route_table().len() ==> (#[trigger] route_table()[i]).0 == page_address(
                route_table()[i].2,
            ).0 && route_table()[i].1 == page_address(route_table()[i].2).1,
        exists|i: int| 0 <= i < route_table().len() && (#[trigger] route_table()[i]).2 == page,
{
    let t = route_table();
    assert(t.len() == 18);
    assert forall|i: int| 0 <= i < t.len() implies (#[trigger] t[i]).0 == page_address(t[i].2).0
        && t[i].1 == page_address(t[i].2).1 by {
        if i == 0 {} else if i == 1 {} else if i == 2 {} else if i == 3 {} else if i == 4 {}
        else if i == 5 {} else if i == 6 {} else if i == 7 {} else if i == 8 {} else if i == 9 {}
        else if i == 10 {} else if i == 11 {} else if i == 12 {} else if i == 13 {}
        else if i == 14 {} else if i == 15 {} else if i == 16 {} else {}
    }
    let k: int = match page {
        Page::Home => 0,
        Page::Login => 1,
        Page::LoginSubmit => 2,
        Page::Ping => 3,
        Page::Profit => 4,
        Page::ProfitSummary => 5,
        Page::Account => 6,
        Page::Logout => 7,
        Page::Symbols => 8,
        Page::SymbolsSubmit => 9,
        Page::Activities => 10,
        Page::ActivityForSymbol => 11,
        Page::Settings => 12,
        Page::Positions => 13,
        Page::SettingsButton => 14,
        Page::Dashboard => 15,
        Page::DashboardForSymbol => 16,
        Page::Order => 17,
    };
    assert(t[k].2 == page);
}

impl WebServer {
    /// How the server runs on `port`: bound to every interface, with two
    /// workers, and session cookies allowed over plain HTTP.
    pub fn settings(port: u16) -> (settings: ServerSettings)
        ensures
            settings.host@ == "0.0.0.0"@,
            settings.port == port,
            settings.workers == 2,
            !settings.cookie_secure,
    {
        ServerSettings { host: "0.0.0.0", port, workers: 2, cookie_secure: false }
    }

    /// The routes of the front end.
    pub fn routes() -> (routes: Vec<Route>)
        ensures
            routes@.len() == route_table().len(),
            forall|i: int| 0 <= i < routes@.len() ==> route_view(#[trigger] routes@[i]) == route_table()[i],
    {
        let mut routes: Vec<Route> = Vec::new();
        routes.push(Route { method: HttpMethod::Get, path: "/", page: Page::Home });
        routes.push(Route { method: HttpMethod::Get, path: "/login", page: Page::Login });
        routes.push(Route { method: HttpMethod::Post, path: "/login", page: Page::LoginSubmit });
        routes.push(Route { method: HttpMethod::Get, path: "/ping", page: Page::Ping });
        routes.push(Route { method: HttpMethod::Get, path: "/profit", page: Page::Profit });
        routes.push(
            Route { method: HttpMethod::Get, path: "/profit_summary", page: Page::ProfitSummary },
        );
        routes.push(Route { method: HttpMethod::Get, path: "/account", page: Page::Account });
        routes.push(Route { method: HttpMethod::Get, path: "/logout", page: Page::Logout });
        routes.push(Route { method: HttpMethod::Get, path: "/symbols", page: Page::Symbols });
        routes.push(Route { method: HttpMethod::Post, path: "/symbols", page: Page::SymbolsSubmit });
        routes.push(Route { method: HttpMethod::Get, path: "/activity", page: Page::Activities });
        routes.push(
            Route {
                method: HttpMethod::Get,
                path: "/activity/{symbol}",
                page: Page::ActivityForSymbol,
            },
        );
        routes.push(Route { method: HttpMethod::Get, path: "/settings", page: Page::Settings });
        routes.push(Route { method: HttpMethod::Get, path: "/positions", page: Page::Positions });
        routes.push(
            Route {
                method: HttpMethod::Get,
                path: "/settings/button/{name}",
                page: Page::SettingsButton,
            },
        );
        routes.push(Route { method: HttpMethod::Get, path: "/dashboard", page: Page::Dashboard });
        routes.push(
            Route {
                method: HttpMethod::Get,
                path: "/dashboard/{symbol}",
                page: Page::DashboardForSymbol,
            },
        );
        routes.push(Route { method: HttpMethod::Get, path: "/order", page: Page::Order });
        assert(routes@.map_values(|r: Route| route_view(r)) =~= route_table());
        assert forall|i: int| 0 <= i < routes@.len() implies route_view(#[trigger] routes@[i])
            == route_table()[i] by {
            assert(routes@.map_values(|r: Route| route_view(r))[i] == route_view(routes@[i]));
        }
        routes
    }
}

} // verus!
