//! Report errors and panics as structured alerts to an external alerting
//! service, without blocking the caller and without crashing on delivery
//! failure.
//!
//! The crate turns an error, a panic or a manual trigger into an [`Alert`],
//! routes it through a chain of [`middleware::Middleware`] transformations,
//! deduplicates near-duplicate alerts inside a short time window, and hands
//! it to a pluggable [`backends::Backend`] on a dedicated delivery worker.

use vstd::prelude::*;

pub mod alert;
pub mod backends;
pub mod dedup;
pub mod hub;
pub mod hash;
pub mod json;
pub mod middleware;
mod receipt;
pub mod result;
pub mod retry;

pub use alert::Alert;
pub use alert::AlertBuilder;
pub use alert::Priority;
pub use alert::Severity;
pub use hub::configure;
pub use hub::resolve_dispatch;
pub use hub::ConfiguredHubGuard;
pub use hub::DeliveryWorker;
pub use hub::Dispatch;
pub use hub::Hub;
pub use hub::HubMessage;
pub use receipt::ProcessingReceipt;
pub use result::AirbagResult;
