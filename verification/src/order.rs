//! The open-orders page (`GET /order`): only a logged-in user sees it; the
//! page shows the stored open orders, or an error message when they cannot
//! be read.
//!
//! The page's logic is a small state machine; its caller reads the session
//! and the database as each action asks and hands back the outcome.

use vstd::prelude::*;

verus! {

/// The session could not be read.
#[derive(PartialEq, Eq, Structural, Clone, Copy, Debug)]
pub enum SessionError {
    Unreadable,
}

/// What the page shows.
pub struct OrderPageData {
    /// The template that renders the page.
    pub template: &'static str,
    pub title: &'static str,
    /// The layout the template extends.
    pub parent: &'static str,
    pub is_logged_in: bool,
    pub session_username: String,
    pub message: &'static str,
    /// Whether the stored orders are shown; when not, the list is empty.
    pub show_orders: bool,
    /// The `cache-control` header of the response.
    pub cache_control: &'static str,
}

/// What the caller is to do next.
pub enum OrderPageAction {
    /// Load the settings (without secrets) from the database.
    LoadSettings,
    /// Load the unfilled orders from the database.
    LoadOrders,
    /// Answer with the rendered page.
    Render(OrderPageData),
    /// Answer with a redirect to the home page.
    RedirectHome,
}

/// What happened since the page's last action.
pub enum OrderPageEvent {
    /// The user name stored in the session, if any.
    SessionRead(Result<Option<String>, SessionError>),
    SettingsLoaded(bool),
    OrdersLoaded(bool),
}

/// Where a request for the page stands.
#[derive(PartialEq, Eq, Structural, Clone, Copy, Debug)]
pub enum OrderPageStep {
    ReadSession,
    LoadSettings,
    LoadOrders,
    Answered,
}

/// The message shown above the orders.
pub open spec fn orders_message(loaded: bool) -> Seq<char> {
    if loaded {
        "Got orders"@
    } else {
        "Error getting orders from database"@
    }
}

/// The page shown to `username` once the orders were, or were not, loaded.
pub open spec fn order_page_data_ok(data: OrderPageData, username: String, loaded: bool) -> bool {
    &&& data.template@ == "order_table"@
    &&& data.title@ == "Settings"@
    &&& data.parent@ == "base0"@
    &&& data.is_logged_in
    &&& data.session_username == username
    &&& data.message@ == orders_message(loaded)
    &&& data.show_orders == loaded
    &&& data.cache_control@ == "no-store"@
}

/// The abstract state of a request for the page.
pub struct OrderPageView {
    pub step: OrderPageStep,
    pub username: Option<String>,
}

/// The events each step awaits.
pub open spec fn order_page_accepts(step: OrderPageStep, event: OrderPageEvent) -> bool {
    match step {
        OrderPageStep::ReadSession => event is SessionRead,
        OrderPageStep::LoadSettings => event is SettingsLoaded,
        OrderPageStep::LoadOrders => event is OrdersLoaded,
        OrderPageStep::Answered => false,
    }
}

/// What the page does after an event: without a user name in the session,
/// or without settings, the visitor is sent home; otherwise the page is
/// rendered for the session's user, with the orders when they loaded.
pub open spec fn order_page_next(v: OrderPageView, event: OrderPageEvent, action: OrderPageAction) -> (
    OrderPageView,
    bool,
) {
    match event {
        OrderPageEvent::SessionRead(Ok(Some(name))) => (
            OrderPageView { step: OrderPageStep::LoadSettings, username: Some(name) },
            action is LoadSettings,
        ),
        OrderPageEvent::SessionRead(_) => (
            OrderPageView { step: OrderPageStep::Answered, ..v },
            action is RedirectHome,
        ),
        OrderPageEvent::SettingsLoaded(true) => (
            OrderPageView { step: OrderPageStep::LoadOrders, ..v },
            action is LoadOrders,
        ),
        OrderPageEvent::SettingsLoaded(false) => (
            OrderPageView { step: OrderPageStep::Answered, ..v },
            action is RedirectHome,
        ),
        OrderPageEvent::OrdersLoaded(loaded) => (
            OrderPageView { step: OrderPageStep::Answered, ..v },
            v.username is Some && (action matches OrderPageAction::Render(data)
                && order_page_data_ok(data, v.username->0, loaded)),
        ),
    }
}

/// A request for the open-orders page.
pub struct OrderPage {
    step: OrderPageStep,
    username: Option<String>,
}

impl View for OrderPage {
    type V = OrderPageView;

    closed spec fn view(&self) -> OrderPageView {
        OrderPageView { step: self.step, username: self.username }
    }
}

impl OrderPage {
    #[verifier::type_invariant]
    closed spec fn inv(self) -> bool {
        self.step is LoadSettings || self.step is LoadOrders ==> self.username is Some
    }

    /// A new request; its first step reads the user name from the session.
    pub fn new() -> (page: OrderPage)
        ensures
            page@.step == OrderPageStep::ReadSession,
            page@.username is None,
    {
        OrderPage { step: OrderPageStep::ReadSession, username: None }
    }

    /// The step in progress.
    pub fn current(&self) -> (step: OrderPageStep)
        ensures
            step == self@.step,
    {
        self.step
    }

    /// Whether the current step awaits this event.
    pub fn accepts(&self, event: &OrderPageEvent) -> (ok: bool)
        ensures
            ok == order_page_accepts(self@.step, *event),
    {
        match self.step {
            OrderPageStep::ReadSession => matches!(event, OrderPageEvent::SessionRead(_)),
            OrderPageStep::LoadSettings => matches!(event, OrderPageEvent::SettingsLoaded(_)),
            OrderPageStep::LoadOrders => matches!(event, OrderPageEvent::OrdersLoaded(_)),
            OrderPageStep::Answered => false,
        }
    }

    /// Takes in what happened and gives the next action.
    pub fn step(&mut self, event: OrderPageEvent) -> (action: OrderPageAction)
        requires
            order_page_accepts(old(self)@.step, event),
        ensures
            final(self)@ == order_page_next(old(self)@, event, action).0,
            order_page_next(old(self)@, event, action).1,
    {
        proof {
            use_type_invariant(&*self);
        }
        match event {
            OrderPageEvent::SessionRead(read) => match read {
                Ok(Some(name)) => {
                    self.username = Some(name);
                    self.step = OrderPageStep::LoadSettings;
                    OrderPageAction::LoadSettings
                },
                _ => {
                    self.step = OrderPageStep::Answered;
                    OrderPageAction::RedirectHome
                },
            },
            OrderPageEvent::SettingsLoaded(loaded) => {
                if loaded {
                    self.step = OrderPageStep::LoadOrders;
                    OrderPageAction::LoadOrders
                } else {
                    self.step = OrderPageStep::Answered;
                    OrderPageAction::RedirectHome
                }
            },
            OrderPageEvent::OrdersLoaded(loaded) => {
                let username = match &self.username {
                    Some(name) => name.clone(),
                    None => String::new(),
                };
                self.step = OrderPageStep::Answered;
                let message = if loaded {
                    "Got orders"
                } else {
                    "Error getting orders from database"
                };
                OrderPageAction::Render(
                    OrderPageData {
                        template: "order_table",
                        title: "Settings",
                        parent: "base0",
                        is_logged_in: true,
                        session_username: username,
                        message,
                        show_orders: loaded,
                        cache_control: "no-store",
                    },
                )
            },
        }
    }
}

/// The page is rendered only once the orders were asked for, which happens
/// only after a user name was read from the session; it is rendered for that
/// user, as logged in.
pub proof fn law_only_logged_in_users_see_orders(
    v: OrderPageView,
    event: OrderPageEvent,
    action: OrderPageAction,
)
    requires
        order_page_accepts(v.step, event),
        order_page_next(v, event, action).1,
        action is Render,
    ensures
        v.step == OrderPageStep::LoadOrders,
        v.username is Some,
        action->Render_0.session_username == v.username->0,
        action->Render_0.is_logged_in,
{
}

/// A visitor whose session holds no user name, or cannot be read, is sent
/// to the home page and the request ends there.
pub proof fn law_visitor_without_user_is_sent_home(
    v: OrderPageView,
    read: Result<Option<String>, SessionError>,
    action: OrderPageAction,
)
    requires
        v.step == OrderPageStep::ReadSession,
        !(read matches Ok(Some(_))),
        order_page_next(v, OrderPageEvent::SessionRead(read), action).1,
    ensures
        action is RedirectHome,
        order_page_next(v, OrderPageEvent::SessionRead(read), action).0.step
            == OrderPageStep::Answered,
{
}

/// When the settings cannot be loaded the visitor is sent home; when the
/// orders cannot be loaded the page is still shown, with an error message
/// and no orders.
pub proof fn law_database_failures(v: OrderPageView, action: OrderPageAction)
    requires
        v.username is Some,
    ensures
        v.step == OrderPageStep::LoadSettings && order_page_next(
            v,
            OrderPageEvent::SettingsLoaded(false),
            action,
        ).1 ==> action is RedirectHome,
        v.step == OrderPageStep::LoadOrders && order_page_next(
            v,
            OrderPageEvent::OrdersLoaded(false),
            action,
        ).1 ==> action is Render && !action->Render_0.show_orders
            && action->Render_0.message@ == "Error getting orders from database"@,
{
}

} // verus!
