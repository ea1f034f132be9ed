//! The decisions of a bridge between a chat message stream and an automation
//! service.
//!
//! The bridge keeps the content of the latest message of one channel in a
//! current-state artifact and, where automation is enabled, triggers one of
//! two rules of the automation service for each such message. This crate
//! decides; it performs no input or output. Its caller loads the settings,
//! browses the network, fetches the rule table, writes the artifact and calls
//! the service, and reports back how each of these ended.
//!
//! - [`startup`] leads from the settings to a complete [`config::BridgeConfig`],
//!   or to the [`error::StartupError`] that startup is abandoned with.
//! - [`dispatch`] decides what to do with one message.
//! - [`channel`], [`sentinel`], [`rules`] and [`endpoint`] hold the rules that
//!   both rest on: how the channel text is read, which content asks for the
//!   hide rule, how rule names resolve, and where requests go.
//! - [`world`] follows the artifact and the calls through startup and
//!   messages, and proves what always holds of them.

pub mod channel;
pub mod config;
pub mod dispatch;
pub mod endpoint;
pub mod error;
pub mod rules;
pub mod sentinel;
pub mod startup;
pub mod world;
