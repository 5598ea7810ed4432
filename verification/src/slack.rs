//! The Slack-flavoured layer: the same filter chain, a span-annotated
//! message, and a payload shaped for Slack's webhook API.

use vstd::prelude::*;
use vstd::string::StringExecFns;

use crate::filters::opt_process_result;
use crate::filters::ConfigurationError;
use crate::filters::EventFilters;
use crate::filters::Filter;
use crate::filters::Rejected;
use crate::filters::opt_accepts;
use crate::json::dec_str;
use crate::json::dedup_last_wins;
use crate::json::dedup_pairs;
use crate::json::json_object;
use crate::json::object_text;
use crate::json::pairs_view;
use crate::json::quote_string;
use crate::json::quoted;
use crate::json::str_eq;
use crate::json::u32_to_dec;
use crate::layer::any_filter_matches;
use crate::layer::span_pairs;
use crate::layer::RawEvent;
use crate::layer::SpanContext;
use crate::message::OutboundPayload;

verus! {

/// The result of folding a string to upper case, a pure function of the
/// characters alone.
pub uninterp spec fn upper_of(s: Seq<char>) -> Seq<char>;

/// Relies on `str::to_uppercase`: the result depends on the characters
/// alone.
#[verifier::external_body]
pub(crate) fn to_uppercase(s: &str) -> (r: String)
    ensures
        r@ == upper_of(s@),
{
    s.to_uppercase()
}

/// Connection settings for the Slack webhook, resolved by the caller.
pub struct SlackConfig {
    pub webhook_url: String,
    pub channel_name: String,
    pub username: String,
    pub icon_emoji: String,
}

/// The message dropped for an event: the target filter rejected its
/// target, or the message filter its message.
#[derive(Clone, Copy, PartialEq, Eq, Structural, Debug)]
pub enum SlackRejection {
    Target(Rejected),
    Message(Rejected),
}

/// The richer payload shape of the Slack webhook API: where to post,
/// under which identity, and the formatted text.
#[derive(Debug, PartialEq, Eq)]
pub struct SlackPayload {
    pub channel: String,
    pub username: String,
    pub text: String,
    pub webhook_url: String,
    pub icon_emoji: String,
}

/// The JSON body Slack receives for a payload: its identity fields and
/// its text, each as a JSON string.
pub open spec fn slack_body(p: SlackPayload) -> Seq<char> {
    object_text(
        seq![
            ("channel"@, quoted(p.channel@)),
            ("username"@, quoted(p.username@)),
            ("text"@, quoted(p.text@)),
            ("icon_emoji"@, quoted(p.icon_emoji@)),
        ],
    )
}

impl SlackPayload {
    pub fn new(
        channel: String,
        username: String,
        text: String,
        webhook_url: String,
        icon_emoji: String,
    ) -> (r: SlackPayload)
        ensures
            r == (SlackPayload { channel, username, text, webhook_url, icon_emoji }),
    {
        SlackPayload { channel, username, text, webhook_url, icon_emoji }
    }

    /// Serialize for delivery: the body is the Slack JSON object and the
    /// destination the configured webhook URL.
    pub fn to_outbound(&self) -> (r: OutboundPayload)
        ensures
            r.destination_url@ == self.webhook_url@,
            r.body@ == slack_body(*self),
    {
        let mut pairs: Vec<(String, String)> = Vec::new();
        pairs.push((String::from_str("channel"), quote_string(self.channel.as_str())));
        pairs.push((String::from_str("username"), quote_string(self.username.as_str())));
        pairs.push((String::from_str("text"), quote_string(self.text.as_str())));
        pairs.push((String::from_str("icon_emoji"), quote_string(self.icon_emoji.as_str())));
        let body = json_object(&pairs);
        proof {
            assert(pairs_view(pairs@) =~= seq![
                ("channel"@, quoted(self.channel@)),
                ("username"@, quoted(self.username@)),
                ("text"@, quoted(self.text@)),
                ("icon_emoji"@, quoted(self.icon_emoji@)),
            ]);
        }
        OutboundPayload { destination_url: self.webhook_url.clone(), body }
    }
}

/// A command sent to the Slack worker: a payload to deliver, or the
/// order to stop consuming.
pub enum WorkerMessage {
    Data(SlackPayload),
    Shutdown,
}

impl WorkerMessage {
    /// Lower a Slack worker message to the delivery worker's own message
    /// kind, serializing the payload.
    pub fn into_delivery(self) -> (r: crate::worker::WorkerMessage)
        ensures
            self matches WorkerMessage::Shutdown ==> r is Shutdown,
            self matches WorkerMessage::Data(p) ==> (r matches crate::worker::WorkerMessage::Data(
                o,
            ) && o.destination_url@ == p.webhook_url@ && o.body@ == slack_body(p)),
    {
        match self {
            WorkerMessage::Data(p) => crate::worker::WorkerMessage::Data(p.to_outbound()),
            WorkerMessage::Shutdown => crate::worker::WorkerMessage::Shutdown,
        }
    }
}

/// The message selected for an event in the Slack layer: its `message`
/// field, else its target.
pub open spec fn slack_base_message(ev: RawEvent) -> Seq<char> {
    match ev.message {
        Some(m) => m@,
        None => ev.target@,
    }
}

/// A message annotated with the ambient span:
/// `[SPAN_NAME - EVENT] message`, the span's name folded to upper case.
pub open spec fn span_annotated(span_name: Seq<char>, message: Seq<char>) -> Seq<char> {
    seq!['['] + upper_of(span_name) + " - EVENT] "@ + message
}

/// The message as it appears in the payload: annotated with the span's
/// name when a span is active.
pub open spec fn slack_message(ev: RawEvent, span: Option<&SpanContext>) -> Seq<char> {
    match span {
        Some(sc) => span_annotated(sc.name@, slack_base_message(ev)),
        None => slack_base_message(ev),
    }
}

/// The raw JSON for an event's source line: a number, or null.
pub open spec fn line_raw(ev: RawEvent) -> Seq<char> {
    match ev.line {
        Some(l) => dec_str(l as int),
        None => "null"@,
    }
}

/// The raw JSON for an event's source file: a string, or null.
pub open spec fn file_raw(ev: RawEvent) -> Seq<char> {
    match ev.file {
        Some(f) => quoted(f@),
        None => "null"@,
    }
}

/// Layer for forwarding trace events to Slack. Filter semantics are
/// those of `WebhookLayer`; the Slack layer has no level threshold and
/// reserves only the `message` key.
pub struct SlackLayer {
    pub target_filters: EventFilters,
    pub message_filters: Option<EventFilters>,
    pub event_by_field_filters: Option<EventFilters>,
    pub field_exclusion_filters: Option<Vec<Filter>>,
    pub config: SlackConfig,
}

impl SlackLayer {
    /// Whether a field named `key` stays in the payload. A field dropped
    /// here is dropped on its own; the event itself survives.
    pub open spec fn field_kept(self, key: Seq<char>) -> bool {
        &&& key != "message"@
        &&& !(self.field_exclusion_filters matches Some(fs) && any_filter_matches(fs@, key))
        &&& opt_accepts(self.event_by_field_filters, key)
    }

    /// `field_kept` as a predicate on a whole field pair.
    pub open spec fn field_pred(self) -> spec_fn((String, String)) -> bool {
        |kv: (String, String)| self.field_kept(kv.0@)
    }

    /// The entries of the payload's text object: the annotated message,
    /// the event's origin, the kept event fields in order, then the
    /// span's fields, unfiltered.
    pub open spec fn text_entries(self, ev: RawEvent, span: Option<&SpanContext>) -> Seq<
        (Seq<char>, Seq<char>),
    > {
        seq![
            ("message"@, quoted(slack_message(ev, span))),
            ("target"@, quoted(ev.target@)),
            ("line"@, line_raw(ev)),
            ("file"@, file_raw(ev)),
        ] + pairs_view(ev.fields@.filter(self.field_pred())) + span_pairs(span)
    }

    /// Whether the event as a whole is forwarded, and if not, why: the
    /// target filter is consulted first, then the message filter on the
    /// unannotated message.
    pub open spec fn format_decision(self, ev: RawEvent) -> Result<(), SlackRejection> {
        match self.target_filters.process_result(ev.target@) {
            Err(x) => Err(SlackRejection::Target(x)),
            Ok(_) => match opt_process_result(self.message_filters, slack_base_message(ev)) {
                Err(x) => Err(SlackRejection::Message(x)),
                Ok(_) => Ok(()),
            },
        }
    }

    /// Whether a field named `key` stays in the payload.
    pub fn field_kept_exec(&self, key: &str) -> (r: bool)
        ensures
            r == self.field_kept(key@),
    {
        if str_eq(key, "message") {
            return false;
        }
        match &self.field_exclusion_filters {
            Some(fs) => {
                if crate::layer::matched_by_any(fs, key) {
                    return false;
                }
            },
            None => {},
        }
        match &self.event_by_field_filters {
            Some(ef) => ef.process(key).is_ok(),
            None => true,
        }
    }

    /// Transform one raw event, plus the ambient span, into a Slack
    /// payload, or report why the event is dropped. No side effects
    /// either way.
    pub fn format_event(&self, ev: &RawEvent, span: Option<&SpanContext>) -> (r: Result<
        SlackPayload,
        SlackRejection,
    >)
        ensures
            r is Ok <==> self.format_decision(*ev) is Ok,
            r matches Err(e) ==> self.format_decision(*ev) == Err::<(), SlackRejection>(e),
            r matches Ok(p) ==> {
                &&& p.channel@ == self.config.channel_name@
                &&& p.username@ == self.config.username@
                &&& p.text@ == object_text(dedup_pairs(self.text_entries(*ev, span)))
                &&& p.webhook_url@ == self.config.webhook_url@
                &&& p.icon_emoji@ == self.config.icon_emoji@
            },
    {
        match self.target_filters.process(self.ev_target(ev)) {
            Ok(_) => {},
            Err(x) => {
                return Err(SlackRejection::Target(x));
            },
        }
        let base: String = match &ev.message {
            Some(m) => m.clone(),
            None => ev.target.clone(),
        };
        match EventFilters::process_opt(&self.message_filters, base.as_str()) {
            Ok(_) => {},
            Err(x) => {
                return Err(SlackRejection::Message(x));
            },
        }
        let message: String = match span {
            Some(sc) => {
                proof {
                    reveal_strlit("[");
                    reveal_strlit(" - EVENT] ");
                }
                let mut m = String::from_str("[");
                let upper = to_uppercase(sc.name.as_str());
                m.append(upper.as_str());
                m.append(" - EVENT] ");
                m.append(base.as_str());
                proof {
                    assert(m@ =~= span_annotated(sc.name@, slack_base_message(*ev)));
                }
                m
            },
            None => base,
        };
        let mut pairs: Vec<(String, String)> = Vec::new();
        pairs.push((String::from_str("message"), quote_string(message.as_str())));
        pairs.push((String::from_str("target"), quote_string(self.ev_target(ev))));
        pairs.push(
            (
                String::from_str("line"),
                match ev.line {
                    Some(l) => u32_to_dec(l),
                    None => String::from_str("null"),
                },
            ),
        );
        pairs.push(
            (
                String::from_str("file"),
                match &ev.file {
                    Some(f) => quote_string(f.as_str()),
                    None => String::from_str("null"),
                },
            ),
        );
        let ghost head = pairs@;
        let n = ev.fields.len();
        let mut i: usize = 0;
        while i < n
            invariant
                i <= n,
                n == ev.fields.len(),
                pairs@ == head + ev.fields@.take(i as int).filter(self.field_pred()),
            decreases n - i,
        {
            proof {
                ev.fields@.take(i as int).lemma_filter_push(ev.fields@[i as int], self.field_pred());
                assert(ev.fields@.take(i as int).push(ev.fields@[i as int]) =~= ev.fields@.take(
                    i as int + 1,
                ));
            }
            if self.field_kept_exec(ev.fields[i].0.as_str()) {
                pairs.push((ev.fields[i].0.clone(), ev.fields[i].1.clone()));
                assert(pairs@ =~= head + ev.fields@.take(i as int + 1).filter(self.field_pred()));
            }
            i += 1;
        }
        proof {
            assert(ev.fields@.take(n as int) =~= ev.fields@);
            assert(ev.fields@.take(0int).filter(self.field_pred()) =~= Seq::<(
                String,
                String,
            )>::empty());
        }
        match span {
            Some(sc) => {
                let m = sc.fields.len();
                let mut j: usize = 0;
                while j < m
                    invariant
                        j <= m,
                        m == sc.fields.len(),
                        pairs@ == head + ev.fields@.filter(self.field_pred()) + sc.fields@.take(
                            j as int,
                        ),
                    decreases m - j,
                {
                    pairs.push((sc.fields[j].0.clone(), sc.fields[j].1.clone()));
                    proof {
                        assert(sc.fields@.take(j as int).push(sc.fields@[j as int]) =~= sc.fields@
                            .take(j as int + 1));
                        assert(pairs@ =~= head + ev.fields@.filter(self.field_pred()) + sc.fields@
                            .take(j as int + 1));
                    }
                    j += 1;
                }
                proof {
                    assert(sc.fields@.take(m as int) =~= sc.fields@);
                }
            },
            None => {},
        }
        proof {
            assert(pairs_view(pairs@) =~= self.text_entries(*ev, span));
        }
        let deduped = dedup_last_wins(&pairs);
        let text = json_object(&deduped);
        Ok(
            SlackPayload {
                channel: self.config.channel_name.clone(),
                username: self.config.username.clone(),
                text,
                webhook_url: self.config.webhook_url.clone(),
                icon_emoji: self.config.icon_emoji.clone(),
            },
        )
    }

    /// The event's target as a string slice.
    fn ev_target<'a>(&self, ev: &'a RawEvent) -> (r: &'a str)
        ensures
            r@ == ev.target@,
    {
        ev.target.as_str()
    }

    /// Create a new builder for the Slack layer.
    pub fn builder(target_filters: EventFilters) -> (r: SlackLayerBuilder)
        ensures
            r.target_filters == target_filters,
            r.message_filters is None,
            r.event_by_field_filters is None,
            r.field_exclusion_filters is None,
            r.config is None,
    {
        SlackLayerBuilder {
            target_filters,
            message_filters: None,
            event_by_field_filters: None,
            field_exclusion_filters: None,
            config: None,
        }
    }
}

/// A builder for the Slack layer. The target filter set is required; the
/// remaining filters and the connection settings are optional, and
/// `build` fails fast when the connection settings are missing.
pub struct SlackLayerBuilder {
    pub target_filters: EventFilters,
    pub message_filters: Option<EventFilters>,
    pub event_by_field_filters: Option<EventFilters>,
    pub field_exclusion_filters: Option<Vec<Filter>>,
    pub config: Option<SlackConfig>,
}

impl SlackLayerBuilder {
    /// Filter events by their message.
    pub fn message_filters(self, filters: EventFilters) -> (r: Self)
        ensures
            r == (Self { message_filters: Some(filters), ..self }),
    {
        Self { message_filters: Some(filters), ..self }
    }

    /// Filter individual fields by their key.
    pub fn event_by_field_filters(self, filters: EventFilters) -> (r: Self)
        ensures
            r == (Self { event_by_field_filters: Some(filters), ..self }),
    {
        Self { event_by_field_filters: Some(filters), ..self }
    }

    /// Drop fields whose key matches any of the given patterns.
    pub fn field_exclusion_filters(self, filters: Vec<Filter>) -> (r: Self)
        ensures
            r == (Self { field_exclusion_filters: Some(filters), ..self }),
    {
        Self { field_exclusion_filters: Some(filters), ..self }
    }

    /// Configure the layer's connection to the Slack webhook.
    pub fn slack_config(self, config: SlackConfig) -> (r: Self)
        ensures
            r == (Self { config: Some(config), ..self }),
    {
        Self { config: Some(config), ..self }
    }

    /// Create the Slack layer; fails fast when no connection settings
    /// were given.
    pub fn build(self) -> (r: Result<SlackLayer, ConfigurationError>)
        ensures
            r is Ok <==> self.config is Some,
            r matches Ok(layer) ==> {
                &&& layer.target_filters == self.target_filters
                &&& layer.message_filters == self.message_filters
                &&& layer.event_by_field_filters == self.event_by_field_filters
                &&& layer.field_exclusion_filters == self.field_exclusion_filters
                &&& Some(layer.config) == self.config
            },
            r is Err ==> r == Err::<SlackLayer, ConfigurationError>(
                ConfigurationError::MissingConfig,
            ),
    {
        match self.config {
            Some(config) => Ok(
                SlackLayer {
                    target_filters: self.target_filters,
                    message_filters: self.message_filters,
                    event_by_field_filters: self.event_by_field_filters,
                    field_exclusion_filters: self.field_exclusion_filters,
                    config,
                },
            ),
            None => Err(ConfigurationError::MissingConfig),
        }
    }
}

} // verus!
