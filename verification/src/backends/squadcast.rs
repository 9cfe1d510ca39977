//! The SquadCast backend: turns an alert into an incidents v2 payload.
//!
//! Building the payload is verified here; the HTTP delivery around it is
//! the caller's unverified shell.

use vstd::prelude::*;

use crate::alert::priority_of_severity;
use crate::alert::Alert;
use crate::alert::AlertView;
use crate::alert::Priority;
use crate::alert::Severity;
use crate::json::spec_path_view;
use crate::json::spec_set;
use crate::json::spec_set_path_entries;
use crate::json::JsonObject;
use crate::json::JsonValue;
use crate::json::JsonView;

verus! {

/// The vendor's name for a priority.
pub open spec fn spec_priority_label(p: Priority) -> Seq<char> {
    match p {
        Priority::P1 => "P1"@,
        Priority::P2 => "P2"@,
        Priority::P3 => "P3"@,
        Priority::P4 => "P4"@,
        Priority::P5 => "P5"@,
    }
}

/// The priority an alert is delivered under: its own priority where set,
/// else the one its severity stands for, else the one standing for an
/// error.
pub open spec fn spec_effective_priority(a: AlertView) -> Priority {
    match a.priority {
        Some(p) => p,
        None => priority_of_severity(
            match a.severity {
                Some(s) => s,
                None => Severity::Error,
            },
        ),
    }
}

/// The incidents v2 payload for an alert: the alert's own fields, with the
/// dedup key copied over them where the alert has one, and the vendor's
/// priority, message and description filled only where the fields did not
/// already set them.
pub open spec fn spec_squadcast_payload(a: AlertView) -> Seq<(Seq<char>, JsonView)> {
    let v1 = spec_set_path_entries(
        a.fields,
        seq!["priority"@],
        0,
        spec_priority_label(spec_effective_priority(a)),
    );
    let v2 = spec_set_path_entries(
        v1,
        seq!["message"@],
        0,
        match a.title {
            Some(t) => t,
            None => "Airbag alert"@,
        },
    );
    let v3 = match a.description {
        Some(d) => spec_set_path_entries(v2, seq!["description"@], 0, d),
        None => v2,
    };
    match a.dedup_key {
        Some(k) => spec_set(v3, "dedup_key"@, JsonView::Str(k)),
        None => v3,
    }
}

/// The vendor's name for a priority.
fn priority_label(p: Priority) -> (r: &'static str)
    ensures
        r@ == spec_priority_label(p),
{
    match p {
        Priority::P1 => "P1",
        Priority::P2 => "P2",
        Priority::P3 => "P3",
        Priority::P4 => "P4",
        Priority::P5 => "P5",
    }
}

/// A backend for the SquadCast service, emitting alerts through its
/// incidents v2 webhook.
///
/// The webhook token is the end component of the incidents v2 webhook URL,
/// and the region its subdomain component.
pub struct SquadCast {
    token: String,
    region: String,
    base_url: Option<String>,
}

/// Step-by-step construction of a [`SquadCast`] backend; token and region
/// must be set before `build`.
pub struct SquadCastBuilder {
    token: Option<String>,
    region: Option<String>,
    base_url: Option<String>,
}

/// The mathematical value of a [`SquadCastBuilder`].
pub struct SquadCastBuilderView {
    pub token: Option<Seq<char>>,
    pub region: Option<Seq<char>>,
    pub base_url: Option<Seq<char>>,
}

impl View for SquadCastBuilder {
    type V = SquadCastBuilderView;

    closed spec fn view(&self) -> SquadCastBuilderView {
        SquadCastBuilderView {
            token: match self.token {
                Some(t) => Some(t@),
                None => None,
            },
            region: match self.region {
                Some(t) => Some(t@),
                None => None,
            },
            base_url: match self.base_url {
                Some(u) => Some(u@),
                None => None,
            },
        }
    }
}

impl SquadCast {
    /// The webhook token the backend was built with.
    pub closed spec fn spec_token(&self) -> Seq<char> {
        self.token@
    }

    /// The region the backend was built with.
    pub closed spec fn spec_region(&self) -> Seq<char> {
        self.region@
    }

    /// The base URL override, if one was set.
    pub closed spec fn spec_base_url(&self) -> Option<Seq<char>> {
        match self.base_url {
            Some(u) => Some(u@),
            None => None,
        }
    }

    /// A builder with nothing set.
    pub fn builder() -> (b: SquadCastBuilder)
        ensures
            b@ == (SquadCastBuilderView { token: None, region: None, base_url: None }),
    {
        SquadCastBuilder { token: None, region: None, base_url: None }
    }

    /// The base URL incidents are posted to: the configured override, or
    /// the vendor's API host for the configured region.
    pub fn base(&self) -> (r: String)
        ensures
            r@ == (match self.spec_base_url() {
                Some(u) => u,
                None => "https://api."@ + self.spec_region() + ".squadcast.com"@,
            }),
    {
        match &self.base_url {
            Some(u) => u.clone(),
            None => {
                let mut url = String::from_str("https://api.");
                url.append(self.region.as_str());
                url.append(".squadcast.com");
                url
            },
        }
    }

    /// The path under the base URL that the incidents v2 webhook accepts:
    /// the API route closed with the webhook token.
    pub fn endpoint_path(&self) -> (r: String)
        ensures
            r@ == "/v2/incidents/api/"@ + self.spec_token(),
    {
        let mut path = String::from_str("/v2/incidents/api/");
        path.append(self.token.as_str());
        path
    }

    /// The payload for one alert, as `spec_squadcast_payload` says.
    pub fn payload_for(&self, alert: &Alert) -> (r: JsonObject)
        ensures
            r@ == spec_squadcast_payload(alert@),
    {
        let mut root: JsonObject = alert.get_fields().deep_clone();

        let priority = match alert.priority() {
            Some(p) => p,
            None => match alert.severity() {
                Some(s) => s.to_priority(),
                None => Severity::Error.to_priority(),
            },
        };
        let priority_path: Vec<&str> = vec!["priority"];
        proof {
            assert(spec_path_view(priority_path@) =~= seq!["priority"@]);
        }
        root.set_path_from(priority_path.as_slice(), 0, priority_label(priority));

        let message_path: Vec<&str> = vec!["message"];
        proof {
            assert(spec_path_view(message_path@) =~= seq!["message"@]);
        }
        match alert.title() {
            Some(t) => root.set_path_from(message_path.as_slice(), 0, t.as_str()),
            None => root.set_path_from(message_path.as_slice(), 0, "Airbag alert"),
        }

        match alert.description() {
            Some(d) => {
                let description_path: Vec<&str> = vec!["description"];
                proof {
                    assert(spec_path_view(description_path@) =~= seq!["description"@]);
                }
                root.set_path_from(description_path.as_slice(), 0, d.as_str());
            },
            None => {},
        }

        match alert.dedup_key() {
            Some(k) => {
                root.set("dedup_key", JsonValue::Str(k.clone()));
            },
            None => {},
        }

        root
    }
}

impl SquadCastBuilder {
    /// Set the webhook token.
    pub fn token(self, token: &str) -> (r: Self)
        ensures
            r@ == (SquadCastBuilderView { token: Some(token@), ..self@ }),
    {
        SquadCastBuilder {
            token: Some(token.to_owned()),
            region: self.region,
            base_url: self.base_url,
        }
    }

    /// Set the region.
    pub fn region(self, region: &str) -> (r: Self)
        ensures
            r@ == (SquadCastBuilderView { region: Some(region@), ..self@ }),
    {
        SquadCastBuilder {
            token: self.token,
            region: Some(region.to_owned()),
            base_url: self.base_url,
        }
    }

    /// Override the base URL, for pointing the backend at a test server.
    pub fn base_url(self, base_url: &str) -> (r: Self)
        ensures
            r@ == (SquadCastBuilderView { base_url: Some(base_url@), ..self@ }),
    {
        SquadCastBuilder {
            token: self.token,
            region: self.region,
            base_url: Some(base_url.to_owned()),
        }
    }

    /// Finish building; the token must have been set, and the region too
    /// unless a base URL override stands in for it.
    pub fn build(self) -> (r: SquadCast)
        requires
            self@.token is Some,
            self@.region is Some || self@.base_url is Some,
        ensures
            r.spec_token() == self@.token->0,
            r.spec_base_url() == self@.base_url,
            self@.region is Some ==> r.spec_region() == self@.region->0,
    {
        match self.token {
            Some(token) => SquadCast {
                token,
                region: match self.region {
                    Some(region) => region,
                    None => String::new(),
                },
                base_url: self.base_url,
            },
            None => {
                proof {
                    assert(false);
                }
                SquadCast { token: String::new(), region: String::new(), base_url: None }
            },
        }
    }
}

} // verus!
