//! The PagerDuty backend: turns an alert into an Events v2 payload.
//!
//! Building the payload is verified here; the HTTP delivery around it is
//! the caller's unverified shell.

use vstd::prelude::*;

use crate::alert::severity_of_priority;
use crate::alert::Alert;
use crate::alert::AlertView;
use crate::alert::Priority;
use crate::alert::Severity;
use crate::json::spec_lookup;
use crate::json::spec_path_view;
use crate::json::spec_set;
use crate::json::spec_set_path_entries;
use crate::json::JsonObject;
use crate::json::JsonValue;
use crate::json::JsonView;

verus! {

/// The longest summary the vendor accepts, in characters.
pub const MAX_SUMMARY_LENGTH: usize = 1000;

/// The vendor's name for a severity.
pub open spec fn spec_severity_label(s: Severity) -> Seq<char> {
    match s {
        Severity::Critical => "critical"@,
        Severity::Error => "error"@,
        Severity::Warning => "warning"@,
        Severity::Info => "info"@,
    }
}

/// The severity an alert is delivered under: its own severity where set,
/// else the one its priority stands for, else critical.
pub open spec fn spec_effective_severity(a: AlertView) -> Severity {
    match a.severity {
        Some(s) => s,
        None => severity_of_priority(
            match a.priority {
                Some(p) => p,
                None => Priority::P1,
            },
        ),
    }
}

/// A summary over the vendor maximum is cut to three characters under the
/// maximum and closed with an ellipsis; anything else is left alone.
pub open spec fn spec_truncated_entries(entries: Seq<(Seq<char>, JsonView)>) -> Seq<
    (Seq<char>, JsonView),
> {
    match spec_lookup(entries, "payload"@) {
        Some(JsonView::Obj(p)) => match spec_lookup(p, "summary"@) {
            Some(JsonView::Str(s)) => if s.len() > MAX_SUMMARY_LENGTH {
                spec_set(
                    entries,
                    "payload"@,
                    JsonView::Obj(
                        spec_set(
                            p,
                            "summary"@,
                            JsonView::Str(s.take(MAX_SUMMARY_LENGTH - 3) + "..."@),
                        ),
                    ),
                )
            } else {
                entries
            },
            _ => entries,
        },
        _ => entries,
    }
}

/// The Events v2 payload for an alert: the alert's own fields, with the
/// routing key and event action written over them, the dedup key copied
/// where the alert has one, vendor defaults filled only where the fields
/// did not already set them, and an over-long summary truncated.
pub open spec fn spec_pagerduty_payload(a: AlertView, token: Seq<char>) -> Seq<
    (Seq<char>, JsonView),
> {
    let source_path = seq!["payload"@, "source"@];
    let severity_path = seq!["payload"@, "severity"@];
    let summary_path = seq!["payload"@, "summary"@];
    let details_path = seq!["payload"@, "custom_details"@];
    let v1 = spec_set_path_entries(a.fields, source_path, 0, "airbag"@);
    let v2 = spec_set(v1, "routing_key"@, JsonView::Str(token));
    let v3 = spec_set_path_entries(
        v2,
        severity_path,
        0,
        spec_severity_label(spec_effective_severity(a)),
    );
    let v4 = spec_set_path_entries(
        v3,
        summary_path,
        0,
        match a.title {
            Some(t) => t,
            None => "Airbag alert"@,
        },
    );
    let v5 = match a.description {
        Some(d) => spec_set_path_entries(v4, details_path, 0, d),
        None => v4,
    };
    let v6 = match a.dedup_key {
        Some(k) => spec_set(v5, "dedup_key"@, JsonView::Str(k)),
        None => v5,
    };
    let v7 = spec_set(v6, "event_action"@, JsonView::Str("trigger"@));
    spec_truncated_entries(v7)
}

/// The vendor's name for a severity.
fn severity_label(s: Severity) -> (r: &'static str)
    ensures
        r@ == spec_severity_label(s),
{
    match s {
        Severity::Critical => "critical",
        Severity::Error => "error",
        Severity::Warning => "warning",
        Severity::Info => "info",
    }
}

/// Cut an over-long summary down to the vendor maximum, as
/// `spec_truncated_entries` says.
fn truncate_summary(root: &mut JsonObject)
    ensures
        final(root)@ == spec_truncated_entries(old(root)@),
{
    let truncated: Option<(JsonObject, String)> = match root.get("payload") {
        Some(JsonValue::Obj(p)) => match p.get("summary") {
            Some(JsonValue::Str(s)) => {
                let s_str: &str = s.as_str();
                if s_str.unicode_len() > MAX_SUMMARY_LENGTH {
                    let mut cut: String = s_str.substring_char(0, MAX_SUMMARY_LENGTH - 3).to_owned();
                    cut.append("...");
                    Some((p.deep_clone(), cut))
                } else {
                    None
                }
            },
            _ => None,
        },
        _ => None,
    };
    match truncated {
        Some((mut p, cut)) => {
            p.set("summary", JsonValue::Str(cut));
            root.set("payload", JsonValue::Obj(p));
        },
        None => {},
    }
}

/// A backend for the PagerDuty service, emitting alerts through its
/// Events v2 integration API.
pub struct PagerDuty {
    token: String,
    base_url: Option<String>,
}

/// Step-by-step construction of a [`PagerDuty`] backend; the token must be
/// set before `build`.
pub struct PagerDutyBuilder {
    token: Option<String>,
    base_url: Option<String>,
}

impl PagerDuty {
    /// The integration token the backend was built with.
    pub closed spec fn spec_token(&self) -> Seq<char> {
        self.token@
    }

    /// The base URL override, if one was set.
    pub closed spec fn spec_base_url(&self) -> Option<Seq<char>> {
        match self.base_url {
            Some(u) => Some(u@),
            None => None,
        }
    }

    /// A builder with nothing set.
    pub fn builder() -> (b: PagerDutyBuilder)
        ensures
            b@ == (PagerDutyBuilderView { token: None, base_url: None }),
    {
        PagerDutyBuilder { token: None, base_url: None }
    }

    /// The base URL alerts are posted to: the configured override, or the
    /// vendor's event endpoint.
    pub fn base(&self) -> (r: String)
        ensures
            r@ == (match self.spec_base_url() {
                Some(u) => u,
                None => "https://events.pagerduty.com"@,
            }),
    {
        match &self.base_url {
            Some(u) => u.clone(),
            None => "https://events.pagerduty.com".to_owned(),
        }
    }

    /// The path under the base URL that the Events v2 API accepts.
    pub fn endpoint_path(&self) -> (r: &'static str)
        ensures
            r@ == "/v2/enqueue"@,
    {
        "/v2/enqueue"
    }

    /// The payload for one alert, as `spec_pagerduty_payload` says.
    pub fn payload_for(&self, alert: &Alert) -> (r: JsonObject)
        ensures
            r@ == spec_pagerduty_payload(alert@, self.spec_token()),
    {
        let mut root: JsonObject = alert.get_fields().deep_clone();

        let source_path: Vec<&str> = vec!["payload", "source"];
        proof {
            assert(spec_path_view(source_path@) =~= seq!["payload"@, "source"@]);
        }
        root.set_path_from(source_path.as_slice(), 0, "airbag");

        root.set("routing_key", JsonValue::Str(self.token.clone()));

        let severity = match alert.severity() {
            Some(s) => s,
            None => match alert.priority() {
                Some(p) => p.to_severity(),
                None => Priority::P1.to_severity(),
            },
        };
        let severity_path: Vec<&str> = vec!["payload", "severity"];
        proof {
            assert(spec_path_view(severity_path@) =~= seq!["payload"@, "severity"@]);
        }
        root.set_path_from(severity_path.as_slice(), 0, severity_label(severity));

        let summary_path: Vec<&str> = vec!["payload", "summary"];
        proof {
            assert(spec_path_view(summary_path@) =~= seq!["payload"@, "summary"@]);
        }
        match alert.title() {
            Some(t) => root.set_path_from(summary_path.as_slice(), 0, t.as_str()),
            None => root.set_path_from(summary_path.as_slice(), 0, "Airbag alert"),
        }

        match alert.description() {
            Some(d) => {
                let details_path: Vec<&str> = vec!["payload", "custom_details"];
                proof {
                    assert(spec_path_view(details_path@) =~= seq![
                        "payload"@,
                        "custom_details"@,
                    ]);
                }
                root.set_path_from(details_path.as_slice(), 0, d.as_str());
            },
            None => {},
        }

        match alert.dedup_key() {
            Some(k) => {
                root.set("dedup_key", JsonValue::Str(k.clone()));
            },
            None => {},
        }

        root.set("event_action", JsonValue::Str("trigger".to_owned()));

        truncate_summary(&mut root);
        root
    }
}

/// The mathematical value of a [`PagerDutyBuilder`].
pub struct PagerDutyBuilderView {
    pub token: Option<Seq<char>>,
    pub base_url: Option<Seq<char>>,
}

impl View for PagerDutyBuilder {
    type V = PagerDutyBuilderView;

    closed spec fn view(&self) -> PagerDutyBuilderView {
        PagerDutyBuilderView {
            token: match self.token {
                Some(t) => Some(t@),
                None => None,
            },
            base_url: match self.base_url {
                Some(u) => Some(u@),
                None => None,
            },
        }
    }
}

impl PagerDutyBuilder {
    /// Set the integration token.
    pub fn token(self, token: &str) -> (r: Self)
        ensures
            r@ == (PagerDutyBuilderView { token: Some(token@), ..self@ }),
    {
        PagerDutyBuilder { token: Some(token.to_owned()), base_url: self.base_url }
    }

    /// Override the base URL, for pointing the backend at a test server.
    pub fn base_url(self, base_url: &str) -> (r: Self)
        ensures
            r@ == (PagerDutyBuilderView { base_url: Some(base_url@), ..self@ }),
    {
        PagerDutyBuilder { token: self.token, base_url: Some(base_url.to_owned()) }
    }

    /// Finish building; the token must have been set.
    pub fn build(self) -> (r: PagerDuty)
        requires
            self@.token is Some,
        ensures
            r.spec_token() == self@.token->0,
            r.spec_base_url() == self@.base_url,
    {
        match self.token {
            Some(token) => PagerDuty { token, base_url: self.base_url },
            None => {
                proof {
                    assert(false);
                }
                PagerDuty { token: String::new(), base_url: None }
            },
        }
    }
}

/// A summary over the vendor maximum is truncated to three characters
/// under the maximum plus an ellipsis before transmission, and so never
/// exceeds the maximum; every other part of the payload is left as it was.
pub proof fn lemma_long_summary_truncated(
    entries: Seq<(Seq<char>, JsonView)>,
    p: Seq<(Seq<char>, JsonView)>,
    s: Seq<char>,
)
    requires
        spec_lookup(entries, "payload"@) == Some(JsonView::Obj(p)),
        spec_lookup(p, "summary"@) == Some(JsonView::Str(s)),
        s.len() > MAX_SUMMARY_LENGTH,
    ensures
        ({
            let t = spec_truncated_entries(entries);
            let cut = s.take(MAX_SUMMARY_LENGTH - 3) + "..."@;
            &&& spec_lookup(t, "payload"@) == Some(
                JsonView::Obj(spec_set(p, "summary"@, JsonView::Str(cut))),
            )
            &&& spec_lookup(spec_set(p, "summary"@, JsonView::Str(cut)), "summary"@) == Some(
                JsonView::Str(cut),
            )
            &&& cut.len() == MAX_SUMMARY_LENGTH
            &&& forall|k: Seq<char>|
                k != "payload"@ ==> spec_lookup(t, k) == spec_lookup(entries, k)
        }),
{
    let cut = s.take(MAX_SUMMARY_LENGTH - 3) + "..."@;
    crate::json::lemma_lookup_after_set_same(
        entries,
        "payload"@,
        JsonView::Obj(spec_set(p, "summary"@, JsonView::Str(cut))),
    );
    crate::json::lemma_lookup_after_set_same(p, "summary"@, JsonView::Str(cut));
    proof_ellipsis_len();
    assert(cut.len() == MAX_SUMMARY_LENGTH - 3 + 3);
    assert forall|k: Seq<char>| k != "payload"@ implies spec_lookup(
        spec_truncated_entries(entries),
        k,
    ) == spec_lookup(entries, k) by {
        crate::json::lemma_lookup_after_set_other(
            entries,
            "payload"@,
            JsonView::Obj(spec_set(p, "summary"@, JsonView::Str(cut))),
            k,
        );
    }
}

/// The ellipsis is three characters long.
proof fn proof_ellipsis_len()
    ensures
        "..."@.len() == 3,
{
    reveal_strlit("...");
}

} // verus!
