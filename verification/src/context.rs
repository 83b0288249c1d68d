//! What the host gives the provider: the page that asks, and the callbacks
//! through which the user is asked and the page is told.

use crate::encoding::{all_lower_hex, hex_decode_text};
use crate::protocol::{Action, Event};
use crate::session::DappApprovalParams;
use vstd::prelude::*;

verus! {

/// The callbacks of the host.
pub trait CoreInPageCallbackI: Send + Sync {
    /// Request a dapp approval from the user through the UI.
    /// After the user has approved the dapp for the first time, it'll be allowed to
    /// connect and execute transactions automatically.
    fn approve_dapp(&self, dapp_approval: DappApprovalParams) -> bool;

    /// Notify the in-page provider of an event. The event is hex and nothing
    /// else: the host may place it in a script as it is.
    fn notify(&self, event_hex: String)
        requires
            all_lower_hex(event_hex@),
    ;
}

/// The page on whose behalf requests come in.
pub trait InPageRequestContextI: Send + Sync {
    type Callbacks: CoreInPageCallbackI;

    /// The address of the page.
    spec fn page_url_text(&self) -> Seq<char>;

    fn page_url(&self) -> (url: String)
        ensures
            url@ == self.page_url_text(),
    ;

    fn callbacks(&self) -> Self::Callbacks;
}

/// Callbacks that approve every dapp and drop every event.
#[derive(Debug, Clone)]
pub struct CoreInPageCallbackMock {}

impl CoreInPageCallbackMock {
    pub fn new() -> Self {
        Self {  }
    }
}

impl CoreInPageCallbackI for CoreInPageCallbackMock {
    fn approve_dapp(&self, dapp_approval: DappApprovalParams) -> (approved: bool)
        ensures
            approved,
    {
        true
    }

    fn notify(&self, event_hex: String) {
        let _event = hex_decode_text(event_hex.as_str());
    }
}

/// A page at a fixed address, with callbacks that approve everything.
#[derive(Debug)]
pub struct InPageRequestContextMock {
    pub page_url: String,
    pub callbacks: Box<CoreInPageCallbackMock>,
}

impl InPageRequestContextMock {
    pub fn new(page_url: &str) -> (context: Self)
        ensures
            context.page_url@ == page_url@,
    {
        Self { page_url: page_url.to_owned(), callbacks: Box::new(CoreInPageCallbackMock::new()) }
    }

    pub fn default_boxed() -> (context: Box<Self>)
        ensures
            context.page_url@ == "https://example.com"@,
    {
        Box::new(InPageRequestContextMock::new("https://example.com"))
    }
}

impl InPageRequestContextI for InPageRequestContextMock {
    type Callbacks = CoreInPageCallbackMock;

    open spec fn page_url_text(&self) -> Seq<char> {
        self.page_url@
    }

    fn page_url(&self) -> (url: String) {
        self.page_url.clone()
    }

    fn callbacks(&self) -> CoreInPageCallbackMock {
        CoreInPageCallbackMock::new()
    }
}

/// Carries out the two actions that are the callbacks' to carry out: asking the
/// user, and pushing an event to the page. Any other action is left to the host.
pub fn answer_callback<C: CoreInPageCallbackI>(callbacks: &C, action: Action) -> (event: Option<Event>)
    requires
        action@.is_safe(),
    ensures
        action is ApproveDapp ==> event matches Some(Event::DappApproval(_)),
        action is Notify ==> event == Some(Event::Notified),
        !(action is ApproveDapp) && !(action is Notify) ==> event is None,
{
    match action {
        Action::ApproveDapp { dapp_approval } => Some(
            Event::DappApproval(callbacks.approve_dapp(dapp_approval)),
        ),
        Action::Notify { event_hex } => {
            callbacks.notify(event_hex);
            Some(Event::Notified)
        },
        _ => None,
    }
}

} // verus!
