//! Shortcuts for reporting the error of a `Result` as an alert while
//! passing the result through untouched: report-and-continue instead of
//! unwrap-and-crash.

use vstd::prelude::*;

use crate::alert::Alert;
use crate::hub::Dispatch;

verus! {

/// Relies on std's `Debug` formatting: the debug representation of the
/// value, for the alert's title, description and content hash.
#[verifier::external_body]
fn debug_string<E: core::fmt::Debug>(e: &E) -> String {
    format!("{:?}", e)
}

/// Relies on `<dyn Any>::downcast_ref` and anyhow's `Display`: the
/// top-level message when the value is an `anyhow::Error` — an error type
/// exposing a rich chain — and nothing otherwise.
#[verifier::external_body]
fn rich_chain_message<E: core::fmt::Debug + 'static>(e: &E) -> Option<String> {
    let any: &dyn std::any::Any = e;
    any.downcast_ref::<anyhow::Error>().map(|err| err.to_string())
}

/// Report the error of a `Result` as an alert, keeping the result itself
/// untouched. An `Ok` passes through silently; an `Err` is turned into an
/// error alert and triggered through the given dispatch target.
pub trait AirbagResult<E>: Sized {
    /// Report the error, if any, and hand the result back unchanged.
    fn airbag(self, dispatch: Option<&Dispatch>) -> (r: Self)
        ensures
            r == self,
    ;

    /// Report the error, if any, only where `predicate` accepts it; the
    /// result comes back unchanged either way.
    fn airbag_if<F: Fn(&E) -> bool>(self, dispatch: Option<&Dispatch>, predicate: F) -> (r: Self)
        requires
            forall|e: &E| #[trigger] call_requires(predicate, (e,)),
        ensures
            r == self,
    ;

    /// Report the error, if any, under the dedup key the factory makes;
    /// the result comes back unchanged either way.
    fn airbag_with_dedup_key<F: Fn() -> String>(
        self,
        dispatch: Option<&Dispatch>,
        dedup_key_factory: F,
    ) -> (r: Self)
        requires
            call_requires(dedup_key_factory, ()),
        ensures
            r == self,
    ;

    /// Report the error, if any, and drop the result.
    fn airbag_drop(self, dispatch: Option<&Dispatch>);

    /// Report the error, if any, under the dedup key the factory makes,
    /// and drop the result.
    fn airbag_drop_with_dedup_key<F: Fn() -> String>(
        self,
        dispatch: Option<&Dispatch>,
        dedup_key_factory: F,
    )
        requires
            call_requires(dedup_key_factory, ()),
    ;
}

impl<T, E: core::fmt::Debug + 'static> AirbagResult<E> for Result<T, E> {
    fn airbag(self, dispatch: Option<&Dispatch>) -> (r: Self) {
        match &self {
            Err(e) => {
                let detail = debug_string(e);
                let short = rich_chain_message(e);
                let _ = crate::hub::trigger(dispatch, Alert::build_error_alert(short, detail).build());
            },
            Ok(_) => {},
        }
        self
    }

    fn airbag_if<F: Fn(&E) -> bool>(self, dispatch: Option<&Dispatch>, predicate: F) -> (r: Self) {
        let report = match &self {
            Err(e) => predicate(e),
            Ok(_) => false,
        };
        if report {
            self.airbag(dispatch)
        } else {
            self
        }
    }

    fn airbag_with_dedup_key<F: Fn() -> String>(
        self,
        dispatch: Option<&Dispatch>,
        dedup_key_factory: F,
    ) -> (r: Self) {
        match &self {
            Err(e) => {
                let detail = debug_string(e);
                let short = rich_chain_message(e);
                let key = dedup_key_factory();
                let _ = crate::hub::trigger(
                    dispatch,
                    Alert::build_error_alert(short, detail).dedup_key_owned(key).build(),
                );
            },
            Ok(_) => {},
        }
        self
    }

    fn airbag_drop(self, dispatch: Option<&Dispatch>) {
        let _ = self.airbag(dispatch);
    }

    fn airbag_drop_with_dedup_key<F: Fn() -> String>(
        self,
        dispatch: Option<&Dispatch>,
        dedup_key_factory: F,
    ) {
        let _ = self.airbag_with_dedup_key(dispatch, dedup_key_factory);
    }
}

} // verus!
