//! The alert data model: an immutable-after-build record with structured
//! metadata, an open field bag, and derivation paths from errors and panics.

use vstd::prelude::*;

use crate::hash::sha256_of;
use crate::hash::spec_hex_of;
use crate::json::spec_lookup;
use crate::json::spec_set;
use crate::json::JsonObject;
use crate::json::JsonValue;
use crate::json::JsonView;

verus! {

/// How severe an alert is, from most to least urgent.
///
/// At most one of severity and priority is authoritative on an alert; each
/// can be derived from the other through a fixed, lossy mapping.
#[derive(Clone, Copy, Debug, PartialEq, Eq, Structural)]
pub enum Severity {
    Critical,
    Error,
    Warning,
    Info,
}

/// An incident priority scale, from most to least urgent.
#[derive(Clone, Copy, Debug, PartialEq, Eq, Structural)]
pub enum Priority {
    P1,
    P2,
    P3,
    P4,
    P5,
}

/// The fixed mapping from a severity to the priority that stands for it.
pub open spec fn priority_of_severity(s: Severity) -> Priority {
    match s {
        Severity::Critical => Priority::P1,
        Severity::Error => Priority::P2,
        Severity::Warning => Priority::P3,
        Severity::Info => Priority::P4,
    }
}

/// The fixed mapping from a priority to the severity that stands for it.
/// The mapping is lossy: both `P4` and `P5` stand for `Info`.
pub open spec fn severity_of_priority(p: Priority) -> Severity {
    match p {
        Priority::P1 => Severity::Critical,
        Priority::P2 => Severity::Error,
        Priority::P3 => Severity::Warning,
        Priority::P4 | Priority::P5 => Severity::Info,
    }
}

impl Severity {
    /// The priority this severity maps to.
    pub fn to_priority(self) -> (r: Priority)
        ensures
            r == priority_of_severity(self),
    {
        match self {
            Severity::Critical => Priority::P1,
            Severity::Error => Priority::P2,
            Severity::Warning => Priority::P3,
            Severity::Info => Priority::P4,
        }
    }
}

impl Priority {
    /// The severity this priority maps to.
    pub fn to_severity(self) -> (r: Severity)
        ensures
            r == severity_of_priority(self),
    {
        match self {
            Priority::P1 => Severity::Critical,
            Priority::P2 => Severity::Error,
            Priority::P3 => Severity::Warning,
            Priority::P4 | Priority::P5 => Severity::Info,
        }
    }
}

impl From<Severity> for Priority {
    /// The fixed severity-to-priority mapping, as `priority_of_severity` says.
    fn from(value: Severity) -> (r: Self)
        ensures
            r == priority_of_severity(value),
    {
        value.to_priority()
    }
}

impl vstd::std_specs::convert::FromSpecImpl<Severity> for Priority {
    open spec fn obeys_from_spec() -> bool {
        true
    }

    open spec fn from_spec(value: Severity) -> Priority {
        priority_of_severity(value)
    }
}

impl From<Priority> for Severity {
    /// The fixed priority-to-severity mapping, as `severity_of_priority` says.
    fn from(value: Priority) -> (r: Self)
        ensures
            r == severity_of_priority(value),
    {
        value.to_severity()
    }
}

impl vstd::std_specs::convert::FromSpecImpl<Priority> for Severity {
    open spec fn obeys_from_spec() -> bool {
        true
    }

    open spec fn from_spec(value: Priority) -> Severity {
        severity_of_priority(value)
    }
}

/// The view of an `Option<String>`.
pub open spec fn str_opt_view(o: Option<String>) -> Option<Seq<char>> {
    match o {
        Some(s) => Some(s@),
        None => None,
    }
}

/// The mathematical value of an alert or an alert under construction.
pub struct AlertView {
    pub id: u64,
    pub title: Option<Seq<char>>,
    pub description: Option<Seq<char>>,
    pub dedup_key: Option<Seq<char>>,
    pub severity: Option<Severity>,
    pub priority: Option<Priority>,
    pub fields: Seq<(Seq<char>, JsonView)>,
}

pub(crate) struct AlertMeta {
    pub(crate) title: Option<String>,
    pub(crate) description: Option<String>,
    pub(crate) dedup_key: Option<String>,
    pub(crate) severity: Option<Severity>,
    pub(crate) priority: Option<Priority>,
}

/// A structured unit of incident information: optional title, description,
/// dedup key, severity and priority, and an open bag of JSON-like fields.
///
/// An alert is immutable once built; the consuming transformations
/// [`Alert::with_field`] and [`Alert::with_field_if_missing`] yield a new
/// value.
pub struct Alert {
    pub(crate) id: u64,
    pub(crate) meta: AlertMeta,
    pub(crate) fields: JsonObject,
}

/// Fluent construction of an [`Alert`]; every setter is total and `build`
/// always succeeds.
pub struct AlertBuilder {
    pub(crate) id: u64,
    pub(crate) meta: AlertMeta,
    pub(crate) fields: JsonObject,
}

pub(crate) open spec fn meta_view(id: u64, meta: AlertMeta, fields: JsonObject) -> AlertView {
    AlertView {
        id: id,
        title: str_opt_view(meta.title),
        description: str_opt_view(meta.description),
        dedup_key: str_opt_view(meta.dedup_key),
        severity: meta.severity,
        priority: meta.priority,
        fields: fields@,
    }
}

impl View for Alert {
    type V = AlertView;

    closed spec fn view(&self) -> AlertView {
        meta_view(self.id, self.meta, self.fields)
    }
}

impl View for AlertBuilder {
    type V = AlertView;

    closed spec fn view(&self) -> AlertView {
        meta_view(self.id, self.meta, self.fields)
    }
}

/// The view of a fresh, empty alert under construction.
pub open spec fn spec_empty_alert(id: u64) -> AlertView {
    AlertView {
        id: id,
        title: None,
        description: None,
        dedup_key: None,
        severity: None,
        priority: None,
        fields: Seq::empty(),
    }
}

impl Alert {
    /// A fresh builder with empty metadata and fields.
    ///
    /// The id is an ordering and debugging aid, not a correctness
    /// primitive: it should be process-unique and increasing, assigned at
    /// builder creation. A process-wide counter cannot live in the
    /// verified library, so the builder promises only to hold whatever id
    /// [`AlertBuilder::id`] gives it, and the ambient shell stamps each
    /// builder it creates from a process-wide counter.
    pub fn builder() -> (b: AlertBuilder)
        ensures
            b@ == spec_empty_alert(b@.id),
    {
        let b = AlertBuilder {
            id: 0,
            meta: AlertMeta {
                title: None,
                description: None,
                dedup_key: None,
                severity: None,
                priority: None,
            },
            fields: JsonObject::new(),
        };
        proof {
            assert(b@.fields =~= spec_empty_alert(b@.id).fields);
        }
        b
    }

    /// The title, if one was set.
    pub fn title(&self) -> (r: &Option<String>)
        ensures
            str_opt_view(*r) == self@.title,
    {
        &self.meta.title
    }

    /// The description, if one was set.
    pub fn description(&self) -> (r: &Option<String>)
        ensures
            str_opt_view(*r) == self@.description,
    {
        &self.meta.description
    }

    /// The dedup key, if one was set.
    pub fn dedup_key(&self) -> (r: &Option<String>)
        ensures
            str_opt_view(*r) == self@.dedup_key,
    {
        &self.meta.dedup_key
    }

    /// The severity, if one was set.
    pub fn severity(&self) -> (r: Option<Severity>)
        ensures
            r == self@.severity,
    {
        self.meta.severity
    }

    /// The priority, if one was set.
    pub fn priority(&self) -> (r: Option<Priority>)
        ensures
            r == self@.priority,
    {
        self.meta.priority
    }

    /// The id this alert's builder was stamped with, or zero where it
    /// never was.
    pub fn id(&self) -> (r: u64)
        ensures
            r == self@.id,
    {
        self.id
    }

    /// The field under `name`, if one was set.
    pub fn get_field(&self, name: &str) -> (r: Option<&JsonValue>)
        ensures
            match r {
                Some(v) => spec_lookup(self@.fields, name@) == Some(v@),
                None => spec_lookup(self@.fields, name@) is None,
            },
    {
        self.fields.get(name)
    }

    /// The whole field bag.
    pub fn get_fields(&self) -> (r: &JsonObject)
        ensures
            r@ == self@.fields,
    {
        &self.fields
    }

    /// Consume this alert and return it with `name` set to `value`,
    /// overwriting any field already under that name.
    pub fn with_field(self, name: &str, value: JsonValue) -> (r: Alert)
        ensures
            r@ == (AlertView { fields: spec_set(self@.fields, name@, value@), ..self@ }),
    {
        let mut fields = self.fields;
        fields.set(name, value);
        Alert { id: self.id, meta: self.meta, fields }
    }

    /// Consume this alert and return it with `name` set to `value` only if
    /// no field under that name exists yet; an existing field is never
    /// overwritten.
    pub fn with_field_if_missing(self, name: &str, value: JsonValue) -> (r: Alert)
        ensures
            spec_lookup(self@.fields, name@) is Some ==> r@ == self@,
            spec_lookup(self@.fields, name@) is None ==> r@ == (AlertView {
                fields: spec_set(self@.fields, name@, value@),
                ..self@
            }),
    {
        let mut fields = self.fields;
        fields.set_if_missing(name, value);
        Alert { id: self.id, meta: self.meta, fields }
    }

    /// This alert with its title replaced.
    pub(crate) fn replace_title(self, title: String) -> (r: Alert)
        ensures
            r@ == (AlertView { title: Some(title@), ..self@ }),
    {
        Alert {
            id: self.id,
            meta: AlertMeta { title: Some(title), ..self.meta },
            fields: self.fields,
        }
    }

    /// This alert with its dedup key replaced.
    pub(crate) fn replace_dedup_key(self, dedup_key: String) -> (r: Alert)
        ensures
            r@ == (AlertView { dedup_key: Some(dedup_key@), ..self@ }),
    {
        Alert {
            id: self.id,
            meta: AlertMeta { dedup_key: Some(dedup_key), ..self.meta },
            fields: self.fields,
        }
    }

    /// An alert derived from a caught error, given the error's short
    /// message — present only when the error exposes a rich chain — and its
    /// full debug representation.
    ///
    /// The title is the short message where one exists, else the debug
    /// representation, which then doubles as the description in the rich
    /// case; the dedup key is the content hash of the debug representation,
    /// so identical recurring errors collapse inside the dedup window.
    pub fn build_error_alert(short_message: Option<String>, detail: String) -> (b: AlertBuilder)
        ensures
            b@.title == Some(
                match str_opt_view(short_message) {
                    Some(m) => m,
                    None => detail@,
                },
            ),
            b@.description == (if short_message is Some {
                Some(detail@)
            } else {
                None::<Seq<char>>
            }),
            b@.dedup_key == Some(spec_hex_of(sha256_of(detail@))),
            b@.dedup_key->0.len() == 64,
            b@.severity is None,
            b@.priority is None,
            b@.fields == Seq::<(Seq<char>, JsonView)>::empty(),
    {
        let key = crate::hash::sha256_hex(detail.as_str());
        let b = Self::builder();
        let b = match short_message {
            Some(m) => b.title_owned(m).description_owned(detail),
            None => b.title_owned(detail),
        };
        b.dedup_key_owned(key)
    }

    /// An alert derived from a captured panic, given the panic location and
    /// the panic payload where it was a string.
    ///
    /// Title and description are one summary built from both, with fixed
    /// stand-ins for a missing location or a non-string payload; the dedup
    /// key is the content hash of that summary, so repeated panics at the
    /// same site collapse inside the dedup window.
    pub fn build_panic_alert(location: Option<String>, payload: Option<String>) -> (b:
        AlertBuilder)
        ensures
            b@.title == Some(spec_panic_summary(str_opt_view(location), str_opt_view(payload))),
            b@.description == b@.title,
            b@.dedup_key == Some(
                spec_hex_of(
                    sha256_of(spec_panic_summary(str_opt_view(location), str_opt_view(payload))),
                ),
            ),
            b@.dedup_key->0.len() == 64,
            b@.severity is None,
            b@.priority is None,
            b@.fields == Seq::<(Seq<char>, JsonView)>::empty(),
    {
        let mut summary = String::from_str("Panic at ");
        match &location {
            Some(l) => summary.append(l.as_str()),
            None => summary.append("<unknown>"),
        }
        summary.append(": ");
        match &payload {
            Some(p) => summary.append(p.as_str()),
            None => summary.append("N/A"),
        }
        let key = crate::hash::sha256_hex(summary.as_str());
        let description = summary.clone();
        Self::builder().title_owned(summary).description_owned(description).dedup_key_owned(key)
    }
}

/// The one-line summary of a panic: its location and its payload, with
/// stand-ins where either is missing.
pub open spec fn spec_panic_summary(
    location: Option<Seq<char>>,
    payload: Option<Seq<char>>,
) -> Seq<char> {
    "Panic at "@ + (match location {
        Some(l) => l,
        None => "<unknown>"@,
    }) + ": "@ + (match payload {
        Some(p) => p,
        None => "N/A"@,
    })
}

impl AlertBuilder {
    /// Set the alert's id; the builder holds exactly the id it was given.
    ///
    /// The ambient shell stamps each builder it creates with a
    /// process-unique, increasing id from a process-wide counter, as the
    /// id's role as an ordering aid asks.
    pub fn id(self, id: u64) -> (r: Self)
        ensures
            r@ == (AlertView { id: id, ..self@ }),
    {
        AlertBuilder { id, meta: self.meta, fields: self.fields }
    }

    /// Set the title.
    pub fn title(self, title: &str) -> (r: Self)
        ensures
            r@ == (AlertView { title: Some(title@), ..self@ }),
    {
        self.title_owned(title.to_owned())
    }

    /// Set the title from an owned string.
    pub fn title_owned(self, title: String) -> (r: Self)
        ensures
            r@ == (AlertView { title: Some(title@), ..self@ }),
    {
        AlertBuilder {
            id: self.id,
            meta: AlertMeta { title: Some(title), ..self.meta },
            fields: self.fields,
        }
    }

    /// Set the description.
    pub fn description(self, description: &str) -> (r: Self)
        ensures
            r@ == (AlertView { description: Some(description@), ..self@ }),
    {
        self.description_owned(description.to_owned())
    }

    /// Set the description from an owned string.
    pub fn description_owned(self, description: String) -> (r: Self)
        ensures
            r@ == (AlertView { description: Some(description@), ..self@ }),
    {
        AlertBuilder {
            id: self.id,
            meta: AlertMeta { description: Some(description), ..self.meta },
            fields: self.fields,
        }
    }

    /// Set the dedup key.
    pub fn dedup_key(self, dedup_key: &str) -> (r: Self)
        ensures
            r@ == (AlertView { dedup_key: Some(dedup_key@), ..self@ }),
    {
        self.dedup_key_owned(dedup_key.to_owned())
    }

    /// Set the dedup key from an owned string.
    pub fn dedup_key_owned(self, dedup_key: String) -> (r: Self)
        ensures
            r@ == (AlertView { dedup_key: Some(dedup_key@), ..self@ }),
    {
        AlertBuilder {
            id: self.id,
            meta: AlertMeta { dedup_key: Some(dedup_key), ..self.meta },
            fields: self.fields,
        }
    }

    /// Set the severity.
    pub fn severity(self, severity: Severity) -> (r: Self)
        ensures
            r@ == (AlertView { severity: Some(severity), ..self@ }),
    {
        AlertBuilder {
            id: self.id,
            meta: AlertMeta { severity: Some(severity), ..self.meta },
            fields: self.fields,
        }
    }

    /// Set the priority.
    pub fn priority(self, priority: Priority) -> (r: Self)
        ensures
            r@ == (AlertView { priority: Some(priority), ..self@ }),
    {
        AlertBuilder {
            id: self.id,
            meta: AlertMeta { priority: Some(priority), ..self.meta },
            fields: self.fields,
        }
    }

    /// Set a field in the open field bag, overwriting any field already
    /// under that name.
    pub fn field(self, name: &str, value: JsonValue) -> (r: Self)
        ensures
            r@ == (AlertView { fields: spec_set(self@.fields, name@, value@), ..self@ }),
    {
        let mut fields = self.fields;
        fields.set(name, value);
        AlertBuilder { id: self.id, meta: self.meta, fields }
    }

    /// Finish building; total, and the alert holds exactly what was set.
    pub fn build(self) -> (r: Alert)
        ensures
            r@ == self@,
    {
        Alert { id: self.id, meta: self.meta, fields: self.fields }
    }
}

impl From<AlertBuilder> for Alert {
    /// Building an alert from a finished builder keeps every part.
    fn from(builder: AlertBuilder) -> (r: Alert)
        ensures
            r@ == builder@,
    {
        Alert { id: builder.id, meta: builder.meta, fields: builder.fields }
    }
}

impl vstd::std_specs::convert::FromSpecImpl<AlertBuilder> for Alert {
    open spec fn obeys_from_spec() -> bool {
        true
    }

    closed spec fn from_spec(builder: AlertBuilder) -> Alert {
        Alert { id: builder.id, meta: builder.meta, fields: builder.fields }
    }
}
} // verus!
