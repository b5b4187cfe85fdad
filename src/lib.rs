//! Typed client library for the arikedb variable-management service: domain
//! types and their wire coding, the wire messages of each call, the session
//! token carried on every call, and the decisions of a live subscription.

pub mod client;
pub mod requests;
pub mod subscription;
pub mod types;
pub mod wire;

pub use client::{endpoint_url, ArikedbClient, AuthError, AuthStatus};
pub use subscription::{StreamAction, StreamEvent, SubscriptionRunner, SubscriptionState};
pub use types::{Collection, DataPoint, Epoch, Event, VarEvent, Variable, VariableType};
