//! Client-side protocol layer for a turn-based conversation with a remote
//! agent service.
//!
//! The layer never touches the network. It says which request to send
//! ([`session`], [`request`]), reads what came back ([`response`]) and keeps
//! the one session that a client has ([`session::SessionManager`]). What
//! travels is described over a structured value, [`json::Json`]: [`part`],
//! [`message`], [`event`], [`grounding`], [`actions`] and [`auth`] each give
//! their records a model, a wire form, and a decoder and an encoder proved
//! against both. [`text`] reads JSON text into a structured value, and
//! [`record`] holds what the decoders and encoders are built from.
//! [`story`] is the rule of a small branching story.

pub mod json;
pub mod error;
pub mod text;
pub mod record;
pub mod part;
pub mod message;
pub mod grounding;
pub mod auth;
pub mod actions;
pub mod event;
pub mod response;
pub mod session;
pub mod request;
pub mod story;
