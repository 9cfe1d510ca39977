//! Middleware: pure transformations `Alert -> Alert`, chained in
//! registration order and applied once per trigger, on the calling thread,
//! before the alert crosses into the delivery worker.

use vstd::prelude::*;

use crate::alert::Alert;
use crate::alert::AlertView;

verus! {

/// A transformation applied to every triggered alert before delivery.
///
/// `process` must be total; what it returns is the implementor's business,
/// so nothing is promised of it at the trait.
pub trait Middleware: Send + Sync {
    fn process(&self, alert: Alert) -> Alert;
}

/// An alert with its title prefixed; an absent title counts as empty.
pub open spec fn spec_title_prefixed(prefix: Seq<char>, a: AlertView) -> AlertView {
    AlertView {
        title: Some(
            prefix + (match a.title {
                Some(t) => t,
                None => Seq::empty(),
            }),
        ),
        ..a
    }
}

/// Prefixes alert titles with a fixed string, so titles can carry instance
/// or context information.
pub struct TitlePrefix {
    prefix: String,
}

impl TitlePrefix {
    /// The prefix this middleware was built with.
    pub closed spec fn spec_prefix(&self) -> Seq<char> {
        self.prefix@
    }

    /// A middleware that prepends `prefix` to every title.
    pub fn new(prefix: &str) -> (r: Self)
        ensures
            r.spec_prefix() == prefix@,
    {
        TitlePrefix { prefix: prefix.to_owned() }
    }
}

impl Middleware for TitlePrefix {
    /// Prepend the prefix, treating an absent title as empty.
    fn process(&self, alert: Alert) -> (r: Alert)
        ensures
            r@ == spec_title_prefixed(self.spec_prefix(), alert@),
    {
        let mut title = self.prefix.clone();
        match alert.title() {
            Some(t) => {
                let t_str: &str = t.as_str();
                title.append(t_str);
            },
            None => {},
        }
        alert.replace_title(title)
    }
}

/// An alert with its dedup key prefixed where one is present; an alert
/// without a dedup key is left untouched, so it never dedup-merges with
/// prefixed ones.
pub open spec fn spec_dedup_key_prefixed(prefix: Seq<char>, a: AlertView) -> AlertView {
    match a.dedup_key {
        Some(k) => AlertView { dedup_key: Some(prefix + k), ..a },
        None => a,
    }
}

/// Prefixes dedup keys with a fixed string, so keys of one instance of an
/// application do not interfere with keys of another.
pub struct DedupKeyPrefix {
    prefix: String,
}

impl DedupKeyPrefix {
    /// The prefix this middleware was built with.
    pub closed spec fn spec_prefix(&self) -> Seq<char> {
        self.prefix@
    }

    /// A middleware that prepends `prefix` to every present dedup key.
    pub fn new(prefix: &str) -> (r: Self)
        ensures
            r.spec_prefix() == prefix@,
    {
        DedupKeyPrefix { prefix: prefix.to_owned() }
    }
}

impl Middleware for DedupKeyPrefix {
    /// Prepend the prefix to a present dedup key; leave an absent one absent.
    fn process(&self, alert: Alert) -> (r: Alert)
        ensures
            r@ == spec_dedup_key_prefixed(self.spec_prefix(), alert@),
    {
        match alert.dedup_key() {
            Some(k) => {
                let mut key = self.prefix.clone();
                let k_str: &str = k.as_str();
                key.append(k_str);
                alert.replace_dedup_key(key)
            },
            None => alert,
        }
    }
}

/// Wraps an arbitrary `Alert -> Alert` function as a middleware, for ad hoc
/// transformations.
pub struct MapFn<F: Fn(Alert) -> Alert + Send + Sync> {
    f: F,
}

impl<F: Fn(Alert) -> Alert + Send + Sync> MapFn<F> {
    #[verifier::type_invariant]
    spec fn callable(self) -> bool {
        forall|a: Alert| #[trigger] call_requires(self.f, (a,))
    }

    /// The wrapped function.
    pub closed spec fn spec_f(&self) -> F {
        self.f
    }

    /// A middleware that applies `f` to every alert; `f` must be callable
    /// on any alert.
    pub fn new(f: F) -> (r: Self)
        requires
            forall|a: Alert| #[trigger] call_requires(f, (a,)),
    {
        MapFn { f }
    }
}

impl<F: Fn(Alert) -> Alert + Send + Sync> Middleware for MapFn<F> {
    /// Apply the wrapped function: the result is exactly one of its
    /// possible returns for this alert.
    fn process(&self, alert: Alert) -> (r: Alert)
        ensures
            call_ensures(self.spec_f(), (alert,), r),
    {
        proof {
            use_type_invariant(self);
        }
        (self.f)(alert)
    }
}

/// Apply a middleware chain in registration order: the first registered
/// stage runs first, so the last registered stage is outermost and its
/// effect shows first in a prefixed title.
pub fn apply_chain(chain: &Vec<Box<dyn Middleware>>, alert: Alert) -> Alert {
    let mut current = alert;
    let n = chain.len();
    let mut i: usize = 0;
    while i < n
        invariant
            n == chain@.len(),
            i <= n,
        decreases n - i,
    {
        current = chain[i].process(current);
        i = i + 1;
    }
    current
}

/// Registering `TitlePrefix(a)` then `TitlePrefix(b)` and applying the
/// chain in registration order yields a title that reads `b`, then `a`,
/// then the original title: the last registered stage is outermost.
pub proof fn lemma_title_prefix_chain_order(a: Seq<char>, b: Seq<char>, alert: AlertView)
    ensures
        spec_title_prefixed(b, spec_title_prefixed(a, alert)).title == Some(
            b + a + (match alert.title {
                Some(t) => t,
                None => Seq::<char>::empty(),
            }),
        ),
{
    let after_a = spec_title_prefixed(a, alert);
    let t0 = match alert.title {
        Some(t) => t,
        None => Seq::<char>::empty(),
    };
    assert(after_a.title == Some(a + t0));
    assert(spec_title_prefixed(b, after_a).title == Some(b + (a + t0)));
    assert(b + (a + t0) =~= b + a + t0);
}

} // verus!
