//! The webhook layer: turns one raw event into at most one outbound
//! payload, applying the configured filter chain.
//!
//! The formatter is pure with respect to the worker: it performs no I/O,
//! never panics, and either produces the inputs for a payload or reports
//! why the event was dropped.

use vstd::prelude::*;
use vstd::string::StringExecFns;

use crate::filters::opt_accepts;
use crate::filters::opt_process_result;
use crate::filters::pattern_matches;
use crate::filters::ConfigurationError;
use crate::filters::EventFilters;
use crate::filters::Filter;
use crate::filters::Rejected;
use crate::json::dedup_last_wins;
use crate::json::dedup_pairs;
use crate::json::json_object;
use crate::json::object_text;
use crate::json::pairs_view;
use crate::json::str_eq;
use crate::level::Level;
use crate::message::WebhookMessageInputs;

verus! {

/// Connection settings for the webhook endpoint, resolved by the caller.
pub struct WebhookConfig {
    pub webhook_url: String,
}

/// One event as handed in by the event source, reduced to plain values:
/// field values arrive as raw JSON text keyed by field name. The string
/// contents of the `message` and `error` fields, where those fields are
/// strings, are handed in alongside the full field list.
pub struct RawEvent {
    pub target: String,
    pub level: Level,
    pub message: Option<String>,
    pub error: Option<String>,
    pub fields: Vec<(String, String)>,
    pub file: Option<String>,
    pub line: Option<u32>,
}

/// The ambient span at the time an event fired: its name and its fields
/// as raw JSON text.
pub struct SpanContext {
    pub name: String,
    pub fields: Vec<(String, String)>,
}

/// Why the formatter produced no payload for an event.
#[derive(Clone, Copy, PartialEq, Eq, Structural, Debug)]
pub enum FormatRejection {
    /// The target filter rejected the event's target.
    Target(Rejected),
    /// The message filter rejected the selected message.
    Message(Rejected),
    /// The event's level is strictly below the configured threshold.
    Level,
}

/// Whether any filter in the list matches `key`.
pub open spec fn any_filter_matches(filters: Seq<Filter>, key: Seq<char>) -> bool {
    exists|i: int| 0 <= i < filters.len() && pattern_matches(filters[i].pattern(), key)
}

/// Whether any filter in the list matches `key`.
pub(crate) fn matched_by_any(filters: &Vec<Filter>, key: &str) -> (r: bool)
    ensures
        r == any_filter_matches(filters@, key@),
{
    let n = filters.len();
    let mut i: usize = 0;
    while i < n
        invariant
            i <= n,
            n == filters.len(),
            forall|j: int| 0 <= j < i ==> !pattern_matches(filters@[j].pattern(), key@),
        decreases n - i,
    {
        if filters[i].is_match(key) {
            return true;
        }
        i += 1;
    }
    false
}

/// The message selected for an event: its `message` field, else its
/// `error` field, else a fixed placeholder.
pub open spec fn selected_message(ev: RawEvent) -> Seq<char> {
    match ev.message {
        Some(m) => m@,
        None => match ev.error {
            Some(e) => e@,
            None => "No message"@,
        },
    }
}

/// The source file recorded for an event, or a fixed placeholder.
pub open spec fn file_or_unknown(ev: RawEvent) -> Seq<char> {
    match ev.file {
        Some(f) => f@,
        None => "Unknown"@,
    }
}

/// The source line recorded for an event, or zero.
pub open spec fn line_or_zero(ev: RawEvent) -> u32 {
    match ev.line {
        Some(l) => l,
        None => 0,
    }
}

/// The name of the ambient span, or the empty string without one.
pub open spec fn span_name(span: Option<&SpanContext>) -> Seq<char> {
    match span {
        Some(sc) => sc.name@,
        None => Seq::empty(),
    }
}

/// The ambient span's fields, or nothing without a span.
pub open spec fn span_pairs(span: Option<&SpanContext>) -> Seq<(Seq<char>, Seq<char>)> {
    match span {
        Some(sc) => pairs_view(sc.fields@),
        None => Seq::empty(),
    }
}

/// Layer for forwarding trace events to a webhook endpoint.
///
/// Target filters select events by the subsystem that emitted them, the
/// additive (inclusion) matcher keeping only matching targets and the
/// subtractive (exclusion) matcher dropping them. Message and field-key
/// filters read the other way round: their negative matcher is the
/// inclusion side and their positive matcher the exclusion side.
pub struct WebhookLayer {
    pub app_name: String,
    pub target_filters: EventFilters,
    pub message_filters: Option<EventFilters>,
    pub event_by_field_filters: Option<EventFilters>,
    pub field_exclusion_filters: Option<Vec<Filter>>,
    pub level_filter: Option<Level>,
    pub config: WebhookConfig,
}

impl WebhookLayer {
    /// Whether a field named `key` stays in the payload: the key is not
    /// one of the reserved message keywords, no field-exclusion pattern
    /// matches it, and the field-key filters accept it. A field that
    /// fails here is dropped on its own; the event itself survives.
    pub open spec fn field_kept(self, key: Seq<char>) -> bool {
        &&& key != "message"@
        &&& key != "error"@
        &&& !(self.field_exclusion_filters matches Some(fs) && any_filter_matches(fs@, key))
        &&& opt_accepts(self.event_by_field_filters, key)
    }

    /// `field_kept` as a predicate on a whole field pair.
    pub open spec fn field_pred(self) -> spec_fn((String, String)) -> bool {
        |kv: (String, String)| self.field_kept(kv.0@)
    }

    /// The entries of the payload's metadata object: the kept event
    /// fields in order, then the span's fields, unfiltered.
    pub open spec fn payload_entries(
        self,
        ev: RawEvent,
        span: Option<&SpanContext>,
    ) -> Seq<(Seq<char>, Seq<char>)> {
        pairs_view(ev.fields@.filter(self.field_pred())) + span_pairs(span)
    }

    /// Whether the event as a whole is forwarded, and if not, why: the
    /// target filter is consulted first, then the message filter on the
    /// selected message, then the level threshold.
    pub open spec fn format_decision(self, ev: RawEvent) -> Result<(), FormatRejection> {
        match self.target_filters.process_result(ev.target@) {
            Err(x) => Err(FormatRejection::Target(x)),
            Ok(_) => match opt_process_result(self.message_filters, selected_message(ev)) {
                Err(x) => Err(FormatRejection::Message(x)),
                Ok(_) => if self.level_filter matches Some(th) && ev.level.rank() < th.rank() {
                    Err(FormatRejection::Level)
                } else {
                    Ok(())
                },
            },
        }
    }

    /// Whether a field named `key` stays in the payload.
    pub fn field_kept_exec(&self, key: &str) -> (r: bool)
        ensures
            r == self.field_kept(key@),
    {
        if str_eq(key, "message") || str_eq(key, "error") {
            return false;
        }
        match &self.field_exclusion_filters {
            Some(fs) => {
                if matched_by_any(fs, key) {
                    return false;
                }
            },
            None => {},
        }
        match &self.event_by_field_filters {
            Some(ef) => ef.process(key).is_ok(),
            None => true,
        }
    }

    /// Transform one raw event, plus the ambient span, into the inputs of
    /// an outbound payload, or report why the event is dropped. No
    /// side effects either way.
    pub fn format_event(&self, ev: &RawEvent, span: Option<&SpanContext>) -> (r: Result<
        WebhookMessageInputs,
        FormatRejection,
    >)
        ensures
            r is Ok <==> self.format_decision(*ev) is Ok,
            r matches Err(e) ==> self.format_decision(*ev) == Err::<(), FormatRejection>(e),
            r matches Ok(m) ==> {
                &&& m.app_name@ == self.app_name@
                &&& m.message@ == selected_message(*ev)
                &&& m.event_level == ev.level
                &&& m.source_file@ == file_or_unknown(*ev)
                &&& m.source_line == line_or_zero(*ev)
                &&& m.target@ == ev.target@
                &&& m.span@ == span_name(span)
                &&& m.metadata@ == object_text(dedup_pairs(self.payload_entries(*ev, span)))
                &&& m.webhook_url@ == self.config.webhook_url@
            },
    {
        match self.target_filters.process(self.ev_target(ev)) {
            Ok(_) => {},
            Err(x) => {
                return Err(FormatRejection::Target(x));
            },
        }
        let message: String = match &ev.message {
            Some(m) => m.clone(),
            None => match &ev.error {
                Some(e) => e.clone(),
                None => String::from_str("No message"),
            },
        };
        match EventFilters::process_opt(&self.message_filters, message.as_str()) {
            Ok(_) => {},
            Err(x) => {
                return Err(FormatRejection::Message(x));
            },
        }
        match self.level_filter {
            Some(th) => {
                if !ev.level.passes(th) {
                    return Err(FormatRejection::Level);
                }
            },
            None => {},
        }
        let mut pairs: Vec<(String, String)> = Vec::new();
        let n = ev.fields.len();
        let mut i: usize = 0;
        while i < n
            invariant
                i <= n,
                n == ev.fields.len(),
                pairs@ == ev.fields@.take(i as int).filter(self.field_pred()),
            decreases n - i,
        {
            proof {
                ev.fields@.take(i as int).lemma_filter_push(ev.fields@[i as int], self.field_pred());
                assert(ev.fields@.take(i as int).push(ev.fields@[i as int]) =~= ev.fields@.take(
                    i as int + 1,
                ));
            }
            if self.field_kept_exec(ev.fields[i].0.as_str()) {
                pairs.push((ev.fields[i].0.clone(), ev.fields[i].1.clone()));
                assert(pairs@ =~= ev.fields@.take(i as int + 1).filter(self.field_pred()));
            }
            i += 1;
        }
        proof {
            assert(ev.fields@.take(n as int) =~= ev.fields@);
        }
        let span_label: String = match span {
            Some(sc) => {
                let m = sc.fields.len();
                let mut j: usize = 0;
                while j < m
                    invariant
                        j <= m,
                        m == sc.fields.len(),
                        pairs@ == ev.fields@.filter(self.field_pred()) + sc.fields@.take(j as int),
                    decreases m - j,
                {
                    pairs.push((sc.fields[j].0.clone(), sc.fields[j].1.clone()));
                    proof {
                        assert(sc.fields@.take(j as int).push(sc.fields@[j as int]) =~= sc.fields@
                            .take(j as int + 1));
                        assert(pairs@ =~= ev.fields@.filter(self.field_pred()) + sc.fields@.take(
                            j as int + 1,
                        ));
                    }
                    j += 1;
                }
                proof {
                    assert(sc.fields@.take(m as int) =~= sc.fields@);
                }
                sc.name.clone()
            },
            None => String::new(),
        };
        proof {
            assert(pairs_view(pairs@) =~= self.payload_entries(*ev, span));
        }
        let deduped = dedup_last_wins(&pairs);
        let metadata = json_object(&deduped);
        let source_file: String = match &ev.file {
            Some(f) => f.clone(),
            None => String::from_str("Unknown"),
        };
        let source_line: u32 = match ev.line {
            Some(l) => l,
            None => 0,
        };
        Ok(
            WebhookMessageInputs {
                app_name: self.app_name.clone(),
                message,
                event_level: ev.level,
                source_file,
                source_line,
                target: ev.target.clone(),
                span: span_label,
                metadata,
                webhook_url: self.config.webhook_url.clone(),
            },
        )
    }

    /// The event's target as a string slice.
    fn ev_target<'a>(&self, ev: &'a RawEvent) -> (r: &'a str)
        ensures
            r@ == ev.target@,
    {
        ev.target.as_str()
    }

    /// Create a new builder for the webhook layer.
    pub fn builder(app_name: String, target_filters: EventFilters) -> (r: WebhookLayerBuilder)
        ensures
            r.app_name == app_name,
            r.target_filters == target_filters,
            r.message_filters is None,
            r.event_by_field_filters is None,
            r.field_exclusion_filters is None,
            r.level_filters is None,
            r.config is None,
    {
        WebhookLayerBuilder {
            app_name,
            target_filters,
            message_filters: None,
            event_by_field_filters: None,
            field_exclusion_filters: None,
            level_filters: None,
            config: None,
        }
    }
}

/// With a level threshold configured, an event that the target and
/// message filters let through is dropped exactly when its level is
/// strictly below the threshold; an event at the threshold level itself
/// is kept.
pub proof fn lemma_level_threshold(layer: WebhookLayer, ev: RawEvent, threshold: Level)
    requires
        layer.level_filter == Some(threshold),
        layer.target_filters.accepts(ev.target@),
        opt_accepts(layer.message_filters, selected_message(ev)),
    ensures
        layer.format_decision(ev) == Err::<(), FormatRejection>(FormatRejection::Level) <==> ev.level.rank()
            < threshold.rank(),
        layer.format_decision(ev) is Ok <==> ev.level.rank() >= threshold.rank(),
        ev.level == threshold ==> layer.format_decision(ev) is Ok,
{
}

/// When a field is not dropped for being a message keyword and no
/// field-key filters are configured, field exclusion alone decides: the
/// field stays in the payload entries exactly when its key matches no
/// configured exclusion pattern, and the kept fields are otherwise
/// untouched and in order.
pub proof fn lemma_field_exclusion(
    layer: WebhookLayer,
    exclusions: Vec<Filter>,
    fields: Seq<(String, String)>,
    i: int,
)
    requires
        layer.field_exclusion_filters == Some(exclusions),
        layer.event_by_field_filters is None,
        0 <= i < fields.len(),
        fields[i].0@ != "message"@,
        fields[i].0@ != "error"@,
    ensures
        layer.field_kept(fields[i].0@) <==> !any_filter_matches(exclusions@, fields[i].0@),
        layer.field_kept(fields[i].0@) ==> fields.filter(layer.field_pred()).contains(fields[i]),
        !layer.field_kept(fields[i].0@) ==> !fields.filter(layer.field_pred()).contains(fields[i]),
{
    if layer.field_kept(fields[i].0@) {
        fields.lemma_filter_contains(layer.field_pred(), i);
    } else {
        let kept = fields.filter(layer.field_pred());
        assert forall|j: int| 0 <= j < kept.len() implies kept[j] != fields[i] by {
            fields.lemma_filter_pred(layer.field_pred(), j);
        }
        if kept.contains(fields[i]) {
            let j = choose|j: int| 0 <= j < kept.len() && kept[j] == fields[i];
        }
    }
}

/// A builder for the webhook layer. The target filter set is required;
/// the remaining filters and the connection settings are optional, and
/// `build` fails fast when the connection settings are missing.
pub struct WebhookLayerBuilder {
    pub app_name: String,
    pub target_filters: EventFilters,
    pub message_filters: Option<EventFilters>,
    pub event_by_field_filters: Option<EventFilters>,
    pub field_exclusion_filters: Option<Vec<Filter>>,
    pub level_filters: Option<Level>,
    pub config: Option<WebhookConfig>,
}

impl WebhookLayerBuilder {
    /// Filter events by their message.
    pub fn message_filters(self, filters: EventFilters) -> (r: Self)
        ensures
            r == (Self { message_filters: Some(filters), ..self }),
    {
        Self { message_filters: Some(filters), ..self }
    }

    /// Filter individual fields by their key.
    pub fn event_by_field_filters(self, filters: EventFilters) -> (r: Self)
        ensures
            r == (Self { event_by_field_filters: Some(filters), ..self }),
    {
        Self { event_by_field_filters: Some(filters), ..self }
    }

    /// Drop fields whose key matches any of the given patterns.
    pub fn field_exclusion_filters(self, filters: Vec<Filter>) -> (r: Self)
        ensures
            r == (Self { field_exclusion_filters: Some(filters), ..self }),
    {
        Self { field_exclusion_filters: Some(filters), ..self }
    }

    /// Configure the layer's connection to the webhook.
    pub fn config(self, config: WebhookConfig) -> (r: Self)
        ensures
            r == (Self { config: Some(config), ..self }),
    {
        Self { config: Some(config), ..self }
    }

    /// Drop events whose level is strictly below the given threshold.
    pub fn level_filters(self, level: Level) -> (r: Self)
        ensures
            r == (Self { level_filters: Some(level), ..self }),
    {
        Self { level_filters: Some(level), ..self }
    }

    /// Create the webhook layer; fails fast when no connection settings
    /// were given.
    pub fn build(self) -> (r: Result<WebhookLayer, ConfigurationError>)
        ensures
            r is Ok <==> self.config is Some,
            r matches Ok(layer) ==> {
                &&& layer.app_name == self.app_name
                &&& layer.target_filters == self.target_filters
                &&& layer.message_filters == self.message_filters
                &&& layer.event_by_field_filters == self.event_by_field_filters
                &&& layer.field_exclusion_filters == self.field_exclusion_filters
                &&& layer.level_filter == self.level_filters
                &&& Some(layer.config) == self.config
            },
            r is Err ==> r == Err::<WebhookLayer, ConfigurationError>(
                ConfigurationError::MissingConfig,
            ),
    {
        match self.config {
            Some(config) => Ok(
                WebhookLayer {
                    app_name: self.app_name,
                    target_filters: self.target_filters,
                    message_filters: self.message_filters,
                    event_by_field_filters: self.event_by_field_filters,
                    field_exclusion_filters: self.field_exclusion_filters,
                    level_filter: self.level_filters,
                    config,
                },
            ),
            None => Err(ConfigurationError::MissingConfig),
        }
    }
}

} // verus!
