//! The in-page provider of a self-custody wallet: the bridge over which a web
//! page asks the wallet for accounts, signatures, transactions and chain
//! switches, and over which the wallet answers.
//!
//! The page is not trusted. Every request goes through the dispatcher of
//! [`provider`], which lets nothing but the request for accounts through
//! without a session, and every answer and every event leaves as hex. What
//! the dispatcher does is stated in [`model`], and what holds of it on every
//! request is proved in [`laws`].

pub mod chain;
pub mod config;
pub mod context;
pub mod encoding;
pub mod error;
pub mod ethereum;
pub mod json;
pub mod keychain;
pub mod laws;
pub mod methods;
pub mod model;
pub mod notification;
pub mod params;
pub mod protocol;
pub mod provider;
pub mod script;
pub mod session;

pub use crate::chain::ChainId;
pub use crate::context::{
    CoreInPageCallbackI, CoreInPageCallbackMock, InPageRequestContextI, InPageRequestContextMock,
};
pub use crate::error::{Error, ErrorCode, InPageErrorCode};
pub use crate::keychain::InMemoryKeychain;
pub use crate::protocol::{Action, Event, Pending, Progress, Step};
pub use crate::provider::InPageProvider;
pub use crate::script::load_in_page_provider_script;
pub use crate::session::{DappApprovalParams, LocalDappSession};
