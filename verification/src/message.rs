//! Outbound payloads: the unit of work handed from the formatter to the
//! delivery worker.

use vstd::prelude::*;
use vstd::string::StringExecFns;

use crate::json::dec_str;
use crate::json::json_object;
use crate::json::object_text;
use crate::json::pairs_view;
use crate::json::quote_string;
use crate::json::quoted;
use crate::json::u32_to_dec;
use crate::level::Level;

verus! {

/// The serialized, filtered representation of one event, ready for HTTP
/// delivery. Immutable once constructed; moved, never shared.
#[derive(Debug, PartialEq, Eq)]
pub struct OutboundPayload {
    /// Where the payload is to be posted.
    pub destination_url: String,
    /// The request body, a JSON object.
    pub body: String,
}

impl OutboundPayload {
    pub fn new(destination_url: String, body: String) -> (r: OutboundPayload)
        ensures
            r.destination_url == destination_url,
            r.body == body,
    {
        OutboundPayload { destination_url, body }
    }
}

impl Clone for OutboundPayload {
    fn clone(&self) -> (r: Self)
        ensures
            r == *self,
    {
        OutboundPayload {
            destination_url: self.destination_url.clone(),
            body: self.body.clone(),
        }
    }
}

/// Everything the formatter learned about one accepted event, from which
/// a concrete webhook payload is assembled.
#[derive(Debug, PartialEq, Eq)]
pub struct WebhookMessageInputs {
    pub app_name: String,
    pub message: String,
    pub event_level: Level,
    pub source_file: String,
    pub source_line: u32,
    pub target: String,
    pub span: String,
    /// JSON object text holding the kept event and span fields.
    pub metadata: String,
    pub webhook_url: String,
}

impl WebhookMessageInputs {
    /// The body of the generic webhook payload built from these inputs.
    pub open spec fn generic_body(self) -> Seq<char> {
        object_text(
            seq![
                ("message"@, quoted(self.message@)),
                ("target"@, quoted(self.target@)),
                ("span"@, quoted(self.span@)),
                ("file"@, quoted(self.source_file@)),
                ("line"@, dec_str(self.source_line as int)),
                ("level"@, quoted(self.event_level.spec_name())),
                ("app_name"@, quoted(self.app_name@)),
                ("metadata"@, self.metadata@),
            ],
        )
    }

    /// Assemble the generic webhook payload: a JSON object carrying the
    /// message, its origin, and the kept fields, addressed to the
    /// configured webhook URL.
    pub fn into_payload(self) -> (r: OutboundPayload)
        ensures
            r.destination_url == self.webhook_url,
            r.body@ == self.generic_body(),
    {
        let mut pairs: Vec<(String, String)> = Vec::new();
        pairs.push((String::from_str("message"), quote_string(self.message.as_str())));
        pairs.push((String::from_str("target"), quote_string(self.target.as_str())));
        pairs.push((String::from_str("span"), quote_string(self.span.as_str())));
        pairs.push((String::from_str("file"), quote_string(self.source_file.as_str())));
        pairs.push((String::from_str("line"), u32_to_dec(self.source_line)));
        pairs.push((String::from_str("level"), quote_string(self.event_level.name())));
        pairs.push((String::from_str("app_name"), quote_string(self.app_name.as_str())));
        pairs.push((String::from_str("metadata"), self.metadata.clone()));
        let body = json_object(&pairs);
        proof {
            assert(pairs_view(pairs@) =~= seq![
                ("message"@, quoted(self.message@)),
                ("target"@, quoted(self.target@)),
                ("span"@, quoted(self.span@)),
                ("file"@, quoted(self.source_file@)),
                ("line"@, dec_str(self.source_line as int)),
                ("level"@, quoted(self.event_level.spec_name())),
                ("app_name"@, quoted(self.app_name@)),
                ("metadata"@, self.metadata@),
            ]);
        }
        OutboundPayload { destination_url: self.webhook_url, body }
    }
}

} // verus!
