//! The delivery contract and the vendor backends implementing it.

use vstd::prelude::*;

use crate::alert::Alert;

pub mod pagerduty;
pub mod squadcast;

pub use pagerduty::PagerDuty;
pub use squadcast::SquadCast;

verus! {

#[verifier::external_type_specification]
#[verifier::external_body]
pub struct ExAnyhowError(anyhow::Error);

/// The delivery contract: turn one alert into one delivery attempt.
///
/// A backend is owned exclusively by one delivery worker, so `send` is
/// never called concurrently on one instance. It must be safe to call
/// repeatedly; an error is reported to the worker, which drops neither the
/// backend nor the process. What a backend does with the alert is the
/// implementor's business, so nothing is promised of `send` at the trait.
pub trait Backend {
    fn send(&mut self, alert: Alert) -> Result<(), anyhow::Error>;
}

} // verus!
