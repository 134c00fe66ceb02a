use trade::config::{config_location, dot_env_path, env_file_version, templates_path};
use trade::order::{OrderPage, OrderPageAction, OrderPageEvent, OrderPageStep, SessionError};
use trade::web::{HttpMethod, Page, WebServer};

#[test]
fn config_location_defaults_to_not_docker() {
    assert_eq!(config_location(None), "not_docker");
    assert_eq!(config_location(Some("docker")), "docker");
}

#[test]
fn dot_env_path_in_and_out_of_docker() {
    assert_eq!(dot_env_path("docker", "backend"), ".env");
    assert_eq!(dot_env_path("not_docker", "backend"), "backend/.env");
    assert_eq!(dot_env_path("elsewhere", "frontend"), "frontend/.env");
}

#[test]
fn env_file_version_defaults() {
    assert_eq!(env_file_version(None), ".env not loaded");
    assert_eq!(env_file_version(Some("7")), "7");
}

#[test]
fn templates_path_in_and_out_of_docker() {
    assert_eq!(templates_path("docker", "/src/trade/frontend"), "./static/templates");
    assert_eq!(
        templates_path("not_docker", "/src/trade/frontend"),
        "/src/trade/frontend/static/templates"
    );
}

#[test]
fn server_settings() {
    let s = WebServer::settings(8080);
    assert_eq!(s.host, "0.0.0.0");
    assert_eq!(s.port, 8080);
    assert_eq!(s.workers, 2);
    assert!(!s.cookie_secure);
}

#[test]
fn route_table() {
    let routes = WebServer::routes();
    assert_eq!(routes.len(), 18);
    assert_eq!(routes[0].path, "/");
    assert_eq!(routes[0].page, Page::Home);
    let order = routes.iter().find(|r| r.page == Page::Order).unwrap();
    assert_eq!(order.path, "/order");
    assert_eq!(order.method, HttpMethod::Get);
    let posts: Vec<&str> = routes.iter().filter(|r| r.method == HttpMethod::Post).map(|r| r.path).collect();
    assert_eq!(posts, vec!["/login", "/symbols"]);
    for (i, a) in routes.iter().enumerate() {
        for b in routes.iter().skip(i + 1) {
            assert!(a.method != b.method || a.path != b.path);
        }
    }
}

fn step(page: &mut OrderPage, event: OrderPageEvent) -> OrderPageAction {
    assert!(page.accepts(&event));
    page.step(event)
}

#[test]
fn order_page_for_a_logged_in_user() {
    let mut page = OrderPage::new();
    assert_eq!(page.current(), OrderPageStep::ReadSession);
    assert!(matches!(
        step(&mut page, OrderPageEvent::SessionRead(Ok(Some("alice".to_string())))),
        OrderPageAction::LoadSettings
    ));
    assert!(matches!(step(&mut page, OrderPageEvent::SettingsLoaded(true)), OrderPageAction::LoadOrders));
    match step(&mut page, OrderPageEvent::OrdersLoaded(true)) {
        OrderPageAction::Render(data) => {
            assert_eq!(data.template, "order_table");
            assert_eq!(data.title, "Settings");
            assert_eq!(data.parent, "base0");
            assert!(data.is_logged_in);
            assert_eq!(data.session_username, "alice");
            assert_eq!(data.message, "Got orders");
            assert!(data.show_orders);
            assert_eq!(data.cache_control, "no-store");
        }
        _ => panic!("expected the page"),
    }
    assert_eq!(page.current(), OrderPageStep::Answered);
}

#[test]
fn order_page_when_orders_cannot_be_read() {
    let mut page = OrderPage::new();
    step(&mut page, OrderPageEvent::SessionRead(Ok(Some("bob".to_string()))));
    step(&mut page, OrderPageEvent::SettingsLoaded(true));
    match step(&mut page, OrderPageEvent::OrdersLoaded(false)) {
        OrderPageAction::Render(data) => {
            assert_eq!(data.message, "Error getting orders from database");
            assert!(!data.show_orders);
            assert_eq!(data.session_username, "bob");
        }
        _ => panic!("expected the page"),
    }
}

#[test]
fn order_page_redirects_visitors_without_a_user() {
    for read in vec![Ok(None), Err(SessionError::Unreadable)] {
        let mut page = OrderPage::new();
        assert!(matches!(step(&mut page, OrderPageEvent::SessionRead(read)), OrderPageAction::RedirectHome));
        assert_eq!(page.current(), OrderPageStep::Answered);
        assert!(!page.accepts(&OrderPageEvent::SettingsLoaded(true)));
    }
}

#[test]
fn order_page_redirects_without_settings() {
    let mut page = OrderPage::new();
    step(&mut page, OrderPageEvent::SessionRead(Ok(Some("carol".to_string()))));
    assert!(!page.accepts(&OrderPageEvent::OrdersLoaded(true)));
    assert!(matches!(step(&mut page, OrderPageEvent::SettingsLoaded(false)), OrderPageAction::RedirectHome));
}
