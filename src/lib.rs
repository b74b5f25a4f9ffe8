//! Edge agent that pairs local things with a cloud platform.
//!
//! The library holds the decisions of the agent: the registry of paired
//! things with its two indexes, the per-thing state machine that drives a
//! thing from local creation to a live MQTT session, the per-thing message
//! queues, the credentials record and the token refresher's policy, and the
//! routing of the local REST interface. Everything that talks to the
//! network or the disk is done by the caller, which hands the outcomes back.

pub mod auth_manager;
mod error;
pub mod hub_thing;
pub mod message;
pub mod model;
pub mod rest_ipc;
pub mod runner;
pub mod sdk;
pub mod state;
pub mod store;
pub mod things_db;

pub use auth_manager::ServiceCredentials;
pub use error::HubError;
pub use hub_thing::{HubModem, HubThing};
pub use message::PartialThingMessage;
pub use model::{Resource, ResourceMethod, Thing, ThingCertificates, ThingRequest};
pub use rest_ipc::{IncomingMessages, RestConfig, RocketConfig, TokenCheckResponse};
pub use runner::{CarePackage, RunnerConfig};
pub use sdk::HubSDK;
pub use state::{Command, MetaThing, MqttOutcome, MqttPlan, Outcome, Teardown, ThingSyncState};
pub use things_db::ThingDb;
