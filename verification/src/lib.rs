//! Per-client session core of an MQTT bridge onto a key-expression based
//! publish/subscribe overlay network.
//!
//! The crate holds the decisions of one client session: which visibility a
//! topic gets, how topics and keys are translated, which subscriptions are
//! live, what is handed to the outbound queue and how the delivery task
//! reacts to what it observes. Network and transport calls are left to the
//! embedding program, which feeds their outcomes back as plain values.

pub mod channel;
pub mod delivery;
pub mod key_expr;
pub mod locality;
pub mod registry;
pub mod session;
pub mod translate;
