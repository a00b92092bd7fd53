//! A relay from the unread entries of a feed source to a chat destination.
//!
//! The library decides and formats; it sends nothing itself. Its core is the
//! [`pipeline`], a state machine that is told what the last action brought
//! and answers with the next one. The clients say which request carries out
//! an action, and [`exchange`] turns what came back into the pipeline's next
//! event. What holds of every run is stated in [`laws`], over the runs and
//! cycles that [`run`] and [`cycle`] define.
//!
//! JSON is read and written by `serde_json`, and a name is percent-encoded by
//! `urlencoding`; see [`json`] and [`text`] for what is taken on trust there.

pub mod config;
pub mod cycle;
pub mod digest;
pub mod entry;
pub mod exchange;
pub mod http;
pub mod json;
pub mod laws;
pub mod markup;
pub mod matrix;
pub mod miniflux;
pub mod model;
pub mod pipeline;
pub mod run;
pub mod target;
pub mod telegram;
pub mod text;

pub use digest::{DigestError, DigestItem, SummaryInput};
pub use entry::Entry;
pub use exchange::Adapters;
pub use http::{HttpError, Method, Request, Response};
pub use json::Json;
pub use markup::Markup;
pub use matrix::MatrixClient;
pub use miniflux::MinifluxClient;
pub use model::Model;
pub use pipeline::{
    Action, Directive, Event, Incident, Mode, Phase, Pipeline, Settings, Severity,
};
pub use target::DeliveryTarget;
pub use telegram::{default_thread_id, TelegramClient};
