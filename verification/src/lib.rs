//! A transport-free core for the Sarufi chatbot-management API.
//!
//! The crate builds every request the service understands and interprets
//! every reply it can send back; moving the bytes over the network is left
//! to the caller. A caller makes a [`SarufiAPI`], asks it for the
//! [`Request`] of an operation, sends it by whatever means it has, and hands
//! the [`Response`] that came back to the function that bears the
//! operation's name.

pub mod api;
pub mod bot;
pub mod client;
pub mod entries;
pub mod errors;
pub mod fields;
pub mod http;
pub mod json;
pub mod laws;
pub mod metrics;
pub mod numeral;
pub mod payload;
pub mod reply;
pub mod utils;

pub use api::SarufiApiError;
pub use bot::Bot;
pub use client::SarufiAPI;
pub use errors::ApiError;
pub use http::{Method, Request, Response};
pub use metrics::{
    ClassificationMetrics, ClassificationReport, EvaluationMetrics, Metrics, ModelMetrics,
};
pub use numeral::Numeral;
pub use utils::{api_url, validate_keys};
