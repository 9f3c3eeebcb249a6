//! The message protocol between the dashboard and the agents: the envelope,
//! its JSON form, and the tagged line that carries it.

use crate::ambient::{date_time, random_number};
use crate::json::{json_parse, json_render, Json, JsonValue};
use crate::text::{
    decimal, decimal_string, is_whitespace, starts_with, str_eq, str_starts_with,
    str_strip_prefixes, strip_prefixes, trim, trim_start, trim_str,
};
use vstd::prelude::*;

verus! {

/// What a message is about.
#[derive(Debug, Clone, Copy, PartialEq, Eq, Structural)]
pub enum MessageType {
    WorkRequest,
    CodeOutput,
    RevisionReq,
    AsicRequest,
    AsicResponse,
    Options,
    Evaluation,
    Complete,
    Error,
    Status,
    Diagnostic,
    Abort,
    ForkliftRequest,
    ForkliftResponse,
    ToolRequest,
    ToolResponse,
    ToolConfirm,
    RemSleepStart,
    RemSleepComplete,
    ConsolidationRequest,
    ConsolidationResponse,
}

impl MessageType {
    /// The name of the type on the wire, in snake case.
    pub open spec fn wire_name(self) -> Seq<char> {
        match self {
            MessageType::WorkRequest => "work_request"@,
            MessageType::CodeOutput => "code_output"@,
            MessageType::RevisionReq => "revision_req"@,
            MessageType::AsicRequest => "asic_request"@,
            MessageType::AsicResponse => "asic_response"@,
            MessageType::Options => "options"@,
            MessageType::Evaluation => "evaluation"@,
            MessageType::Complete => "complete"@,
            MessageType::Error => "error"@,
            MessageType::Status => "status"@,
            MessageType::Diagnostic => "diagnostic"@,
            MessageType::Abort => "abort"@,
            MessageType::ForkliftRequest => "forklift_request"@,
            MessageType::ForkliftResponse => "forklift_response"@,
            MessageType::ToolRequest => "tool_request"@,
            MessageType::ToolResponse => "tool_response"@,
            MessageType::ToolConfirm => "tool_confirm"@,
            MessageType::RemSleepStart => "rem_sleep_start"@,
            MessageType::RemSleepComplete => "rem_sleep_complete"@,
            MessageType::ConsolidationRequest => "consolidation_request"@,
            MessageType::ConsolidationResponse => "consolidation_response"@,
        }
    }

    /// The type that a wire name stands for.
    pub open spec fn from_wire(name: Seq<char>) -> Option<MessageType> {
        if name == "work_request"@ {
            Some(MessageType::WorkRequest)
        } else if name == "code_output"@ {
            Some(MessageType::CodeOutput)
        } else if name == "revision_req"@ {
            Some(MessageType::RevisionReq)
        } else if name == "asic_request"@ {
            Some(MessageType::AsicRequest)
        } else if name == "asic_response"@ {
            Some(MessageType::AsicResponse)
        } else if name == "options"@ {
            Some(MessageType::Options)
        } else if name == "evaluation"@ {
            Some(MessageType::Evaluation)
        } else if name == "complete"@ {
            Some(MessageType::Complete)
        } else if name == "error"@ {
            Some(MessageType::Error)
        } else if name == "status"@ {
            Some(MessageType::Status)
        } else if name == "diagnostic"@ {
            Some(MessageType::Diagnostic)
        } else if name == "abort"@ {
            Some(MessageType::Abort)
        } else if name == "forklift_request"@ {
            Some(MessageType::ForkliftRequest)
        } else if name == "forklift_response"@ {
            Some(MessageType::ForkliftResponse)
        } else if name == "tool_request"@ {
            Some(MessageType::ToolRequest)
        } else if name == "tool_response"@ {
            Some(MessageType::ToolResponse)
        } else if name == "tool_confirm"@ {
            Some(MessageType::ToolConfirm)
        } else if name == "rem_sleep_start"@ {
            Some(MessageType::RemSleepStart)
        } else if name == "rem_sleep_complete"@ {
            Some(MessageType::RemSleepComplete)
        } else if name == "consolidation_request"@ {
            Some(MessageType::ConsolidationRequest)
        } else if name == "consolidation_response"@ {
            Some(MessageType::ConsolidationResponse)
        } else {
            None
        }
    }

    /// The name of the type on the wire.
    pub fn name(&self) -> (name: &'static str)
        ensures
            name@ == self.wire_name(),
    {
        match self {
            MessageType::WorkRequest => "work_request",
            MessageType::CodeOutput => "code_output",
            MessageType::RevisionReq => "revision_req",
            MessageType::AsicRequest => "asic_request",
            MessageType::AsicResponse => "asic_response",
            MessageType::Options => "options",
            MessageType::Evaluation => "evaluation",
            MessageType::Complete => "complete",
            MessageType::Error => "error",
            MessageType::Status => "status",
            MessageType::Diagnostic => "diagnostic",
            MessageType::Abort => "abort",
            MessageType::ForkliftRequest => "forklift_request",
            MessageType::ForkliftResponse => "forklift_response",
            MessageType::ToolRequest => "tool_request",
            MessageType::ToolResponse => "tool_response",
            MessageType::ToolConfirm => "tool_confirm",
            MessageType::RemSleepStart => "rem_sleep_start",
            MessageType::RemSleepComplete => "rem_sleep_complete",
            MessageType::ConsolidationRequest => "consolidation_request",
            MessageType::ConsolidationResponse => "consolidation_response",
        }
    }

    /// The type that a wire name stands for, or `None` for any other text.
    pub fn from_name(name: &str) -> (kind: Option<MessageType>)
        ensures
            kind == MessageType::from_wire(name@),
    {
        if str_eq(name, "work_request") {
            Some(MessageType::WorkRequest)
        } else if str_eq(name, "code_output") {
            Some(MessageType::CodeOutput)
        } else if str_eq(name, "revision_req") {
            Some(MessageType::RevisionReq)
        } else if str_eq(name, "asic_request") {
            Some(MessageType::AsicRequest)
        } else if str_eq(name, "asic_response") {
            Some(MessageType::AsicResponse)
        } else if str_eq(name, "options") {
            Some(MessageType::Options)
        } else if str_eq(name, "evaluation") {
            Some(MessageType::Evaluation)
        } else if str_eq(name, "complete") {
            Some(MessageType::Complete)
        } else if str_eq(name, "error") {
            Some(MessageType::Error)
        } else if str_eq(name, "status") {
            Some(MessageType::Status)
        } else if str_eq(name, "diagnostic") {
            Some(MessageType::Diagnostic)
        } else if str_eq(name, "abort") {
            Some(MessageType::Abort)
        } else if str_eq(name, "forklift_request") {
            Some(MessageType::ForkliftRequest)
        } else if str_eq(name, "forklift_response") {
            Some(MessageType::ForkliftResponse)
        } else if str_eq(name, "tool_request") {
            Some(MessageType::ToolRequest)
        } else if str_eq(name, "tool_response") {
            Some(MessageType::ToolResponse)
        } else if str_eq(name, "tool_confirm") {
            Some(MessageType::ToolConfirm)
        } else if str_eq(name, "rem_sleep_start") {
            Some(MessageType::RemSleepStart)
        } else if str_eq(name, "rem_sleep_complete") {
            Some(MessageType::RemSleepComplete)
        } else if str_eq(name, "consolidation_request") {
            Some(MessageType::ConsolidationRequest)
        } else if str_eq(name, "consolidation_response") {
            Some(MessageType::ConsolidationResponse)
        } else {
            None
        }
    }
}

/// Every type is read back from its own wire name, so no two types share one.
pub proof fn lemma_wire_name_round_trip(kind: MessageType)
    ensures
        MessageType::from_wire(kind.wire_name()) == Some(kind),
{
    // Length and first character tell the names apart; the sixth separates
    // the two `tool_` names of equal length.
    reveal_strlit("work_request");
    reveal_strlit("code_output");
    reveal_strlit("revision_req");
    reveal_strlit("asic_request");
    reveal_strlit("asic_response");
    reveal_strlit("options");
    reveal_strlit("evaluation");
    reveal_strlit("complete");
    reveal_strlit("error");
    reveal_strlit("status");
    reveal_strlit("diagnostic");
    reveal_strlit("abort");
    reveal_strlit("forklift_request");
    reveal_strlit("forklift_response");
    reveal_strlit("tool_request");
    reveal_strlit("tool_response");
    reveal_strlit("tool_confirm");
    reveal_strlit("rem_sleep_start");
    reveal_strlit("rem_sleep_complete");
    reveal_strlit("consolidation_request");
    reveal_strlit("consolidation_response");
    assert("work_request"@.len() == 12 && "work_request"@[0] == 'w');
    assert("code_output"@.len() == 11 && "code_output"@[0] == 'c');
    assert("revision_req"@.len() == 12 && "revision_req"@[0] == 'r');
    assert("asic_request"@.len() == 12 && "asic_request"@[0] == 'a');
    assert("asic_response"@.len() == 13 && "asic_response"@[0] == 'a');
    assert("options"@.len() == 7 && "options"@[0] == 'o');
    assert("evaluation"@.len() == 10 && "evaluation"@[0] == 'e');
    assert("complete"@.len() == 8 && "complete"@[0] == 'c');
    assert("error"@.len() == 5 && "error"@[0] == 'e');
    assert("status"@.len() == 6 && "status"@[0] == 's');
    assert("diagnostic"@.len() == 10 && "diagnostic"@[0] == 'd');
    assert("abort"@.len() == 5 && "abort"@[0] == 'a');
    assert("forklift_request"@.len() == 16 && "forklift_request"@[0] == 'f');
    assert("forklift_response"@.len() == 17 && "forklift_response"@[0] == 'f');
    assert("tool_request"@.len() == 12 && "tool_request"@[0] == 't' && "tool_request"@[5] == 'r');
    assert("tool_response"@.len() == 13 && "tool_response"@[0] == 't' && "tool_response"@[5]
        == 'r');
    assert("tool_confirm"@.len() == 12 && "tool_confirm"@[0] == 't' && "tool_confirm"@[5] == 'c');
    assert("rem_sleep_start"@.len() == 15 && "rem_sleep_start"@[0] == 'r');
    assert("rem_sleep_complete"@.len() == 18 && "rem_sleep_complete"@[0] == 'r');
    assert("consolidation_request"@.len() == 21 && "consolidation_request"@[0] == 'c');
    assert("consolidation_response"@.len() == 22 && "consolidation_response"@[0] == 'c');
}

/// The envelope of the protocol.
#[derive(Debug)]
pub struct Message {
    pub id: String,
    pub msg_type: MessageType,
    pub sender: String,
    pub receiver: String,
    pub payload: Json,
    pub timestamp: String,
    pub correlation_id: Option<String>,
    pub metadata: Json,
}

/// The mathematical content of a message.
pub ghost struct MessageView {
    pub id: Seq<char>,
    pub msg_type: MessageType,
    pub sender: Seq<char>,
    pub receiver: Seq<char>,
    pub payload: JsonValue,
    pub timestamp: Seq<char>,
    pub correlation_id: Option<Seq<char>>,
    pub metadata: JsonValue,
}

impl View for Message {
    type V = MessageView;

    open spec fn view(&self) -> MessageView {
        MessageView {
            id: self.id@,
            msg_type: self.msg_type,
            sender: self.sender@,
            receiver: self.receiver@,
            payload: self.payload@,
            timestamp: self.timestamp@,
            correlation_id: match self.correlation_id {
                Some(c) => Some(c@),
                None => None,
            },
            metadata: self.metadata@,
        }
    }
}

/// The correlation id that a member stands for: none where the member is
/// missing or `null`, the text where it is a string.  A member of any other
/// type is an error, shown as the outer `None`.
pub open spec fn correlation_of(member: Option<JsonValue>) -> Option<Option<Seq<char>>> {
    match member {
        None => Some(None),
        Some(JsonValue::Null) => Some(None),
        Some(JsonValue::Text(s)) => Some(Some(s)),
        Some(_) => None,
    }
}

/// The message that a document holds.
///
/// The document must be an object with string members `id`, `type`, `sender`,
/// `receiver` and `timestamp` and a member `payload` of any type, and `type`
/// must be one of the wire names.  `correlation_id` may be missing or `null`;
/// `metadata` may be missing and is then the empty object.  Other members are
/// ignored.
pub open spec fn envelope(doc: JsonValue) -> Option<MessageView> {
    match (
        doc.text_field("id"@),
        doc.text_field("type"@),
        doc.text_field("sender"@),
        doc.text_field("receiver"@),
        doc.field("payload"@),
        doc.text_field("timestamp"@),
    ) {
        (Some(id), Some(kind), Some(sender), Some(receiver), Some(payload), Some(timestamp)) => {
            match (MessageType::from_wire(kind), correlation_of(doc.field("correlation_id"@))) {
                (Some(msg_type), Some(correlation_id)) => Some(
                    MessageView {
                        id,
                        msg_type,
                        sender,
                        receiver,
                        payload,
                        timestamp,
                        correlation_id,
                        metadata: match doc.field("metadata"@) {
                            Some(metadata) => metadata,
                            None => JsonValue::empty_object(),
                        },
                    },
                ),
                _ => None,
            }
        },
        _ => None,
    }
}

/// The message that a text holds, given what the text parses to.
pub open spec fn decoded(parsed: Option<JsonValue>) -> Option<MessageView> {
    match parsed {
        Some(doc) => envelope(doc),
        None => None,
    }
}

/// The document that stands for a message: an object with the eight members
/// of the envelope, in their order.
pub open spec fn document_of(m: MessageView) -> JsonValue {
    JsonValue::Object(
        seq![
            ("id"@, JsonValue::Text(m.id)),
            ("type"@, JsonValue::Text(m.msg_type.wire_name())),
            ("sender"@, JsonValue::Text(m.sender)),
            ("receiver"@, JsonValue::Text(m.receiver)),
            ("payload"@, m.payload),
            ("timestamp"@, JsonValue::Text(m.timestamp)),
            (
                "correlation_id"@,
                match m.correlation_id {
                    Some(c) => JsonValue::Text(c),
                    None => JsonValue::Null,
                },
            ),
            ("metadata"@, m.metadata),
        ],
    )
}

/// The JSON text of a tagged line: what follows the tag `[MESSAGE]`, without
/// surrounding white space.  A line that does not begin with the tag is no
/// message line.
pub open spec fn tagged_body(line: Seq<char>) -> Option<Seq<char>> {
    if starts_with(line, "[MESSAGE]"@) {
        Some(trim(strip_prefixes(line, "[MESSAGE]"@)))
    } else {
        None
    }
}

/// The tagged line for a JSON text.
pub open spec fn framed(json: Seq<char>) -> Seq<char> {
    "[MESSAGE] "@ + json
}

/// A message that the dashboard sends: from `gui`, with no correlation id and
/// empty metadata.
pub open spec fn outgoing(
    id: Seq<char>,
    timestamp: Seq<char>,
    msg_type: MessageType,
    receiver: Seq<char>,
    payload: JsonValue,
) -> MessageView {
    MessageView {
        id,
        msg_type,
        sender: "gui"@,
        receiver,
        payload,
        timestamp,
        correlation_id: None,
        metadata: JsonValue::empty_object(),
    }
}

/// The payload of a status message: an object with the one member `status`.
pub open spec fn status_payload(status: Seq<char>) -> JsonValue {
    JsonValue::Object(seq![("status"@, JsonValue::Text(status))])
}

/// The tagged line that carries a JSON text.
pub fn frame(json: &str) -> (line: String)
    ensures
        line@ == framed(json@),
{
    let mut line = String::from_str("[MESSAGE] ");
    line.append(json);
    line
}

/// The JSON text of a tagged line, or `None` if the line has no message tag.
pub fn message_body<'a>(line: &'a str) -> (body: Option<&'a str>)
    ensures
        match body {
            Some(b) => tagged_body(line@) == Some(b@),
            None => tagged_body(line@) is None,
        },
{
    if str_starts_with(line, "[MESSAGE]") {
        Some(trim_str(str_strip_prefixes(line, "[MESSAGE]")))
    } else {
        None
    }
}

/// The message on a line of output: the line must carry the message tag and
/// the text after it must hold an envelope.  Any other line gives `None`.
pub fn decode_line(line: &str) -> (msg: Option<Message>)
    ensures
        match msg {
            Some(m) => tagged_body(line@) matches Some(body) && decoded(json_parse(body)) == Some(
                m@,
            ),
            None => tagged_body(line@) matches Some(body) ==> decoded(json_parse(body)) is None,
        },
{
    match message_body(line) {
        Some(body) => Message::decode(body),
        None => None,
    }
}

impl Message {
    /// The message that a document holds, or `None` if it holds none.
    pub fn from_json(doc: &Json) -> (msg: Option<Message>)
        ensures
            match msg {
                Some(m) => envelope(doc@) == Some(m@),
                None => envelope(doc@) is None,
            },
    {
        let id = match doc.text_field("id") {
            Some(s) => s,
            None => {
                return None;
            },
        };
        let kind = match doc.text_field("type") {
            Some(s) => s,
            None => {
                return None;
            },
        };
        let sender = match doc.text_field("sender") {
            Some(s) => s,
            None => {
                return None;
            },
        };
        let receiver = match doc.text_field("receiver") {
            Some(s) => s,
            None => {
                return None;
            },
        };
        let payload = match doc.get("payload") {
            Some(p) => p,
            None => {
                return None;
            },
        };
        let timestamp = match doc.text_field("timestamp") {
            Some(s) => s,
            None => {
                return None;
            },
        };
        let msg_type = match MessageType::from_name(kind) {
            Some(t) => t,
            None => {
                return None;
            },
        };
        let correlation_id = match doc.get("correlation_id") {
            None => None,
            Some(Json::Null) => None,
            Some(Json::Text(s)) => Some(s.clone()),
            Some(_) => {
                return None;
            },
        };
        let metadata = match doc.get("metadata") {
            Some(m) => m.duplicate(),
            None => Json::empty_object(),
        };
        Some(
            Message {
                id: String::from_str(id),
                msg_type,
                sender: String::from_str(sender),
                receiver: String::from_str(receiver),
                payload: payload.duplicate(),
                timestamp: String::from_str(timestamp),
                correlation_id,
                metadata,
            },
        )
    }

    /// The message that a JSON text holds, or `None` if the text is not JSON
    /// or holds no envelope.
    pub fn decode(text: &str) -> (msg: Option<Message>)
        ensures
            match msg {
                Some(m) => decoded(json_parse(text@)) == Some(m@),
                None => decoded(json_parse(text@)) is None,
            },
    {
        match Json::parse(text) {
            Some(doc) => Message::from_json(&doc),
            None => None,
        }
    }

    /// The document that stands for the message.
    pub fn to_json(&self) -> (doc: Json)
        ensures
            doc@ == document_of(self@),
    {
        let correlation = match &self.correlation_id {
            Some(c) => Json::Text(c.clone()),
            None => Json::Null,
        };
        let mut members: Vec<(String, Json)> = Vec::new();
        members.push((String::from_str("id"), Json::Text(self.id.clone())));
        let kind = String::from_str(self.msg_type.name());
        members.push((String::from_str("type"), Json::Text(kind)));
        members.push((String::from_str("sender"), Json::Text(self.sender.clone())));
        members.push((String::from_str("receiver"), Json::Text(self.receiver.clone())));
        members.push((String::from_str("payload"), self.payload.duplicate()));
        members.push((String::from_str("timestamp"), Json::Text(self.timestamp.clone())));
        members.push((String::from_str("correlation_id"), correlation));
        members.push((String::from_str("metadata"), self.metadata.duplicate()));
        let doc = Json::Object(members);
        proof {
            crate::json::lemma_view_members(members@);
            assert(doc@->Object_0 =~= document_of(self@)->Object_0);
        }
        doc
    }

    /// The tagged line that carries the message: the tag, a space and the
    /// message as compact JSON.  The line holds no line break.
    pub fn encode(&self) -> (line: String)
        ensures
            line@ == framed(json_render(document_of(self@))),
            forall|i: int| 0 <= i < line@.len() ==> line@[i] != '\n',
    {
        let json = self.to_json().to_text();
        proof {
            reveal_strlit("[MESSAGE] ");
        }
        frame(json.as_str())
    }

    /// A message from the dashboard with the given identifier and time.
    pub fn compose(
        id: String,
        timestamp: String,
        msg_type: MessageType,
        receiver: &str,
        payload: Json,
    ) -> (msg: Message)
        ensures
            msg@ == outgoing(id@, timestamp@, msg_type, receiver@, payload@),
    {
        Message {
            id,
            msg_type,
            sender: String::from_str("gui"),
            receiver: String::from_str(receiver),
            payload,
            timestamp,
            correlation_id: None,
            metadata: Json::empty_object(),
        }
    }

    /// A message from the dashboard, sent now, under a random identifier: the
    /// decimal numeral of a 32-bit number.
    fn fresh(msg_type: MessageType, receiver: &str, payload: Json) -> (msg: Message)
        ensures
            msg@ == outgoing(msg.id@, msg.timestamp@, msg_type, receiver@, payload@),
            exists|n: u32| msg.id@ == decimal(n as nat),
    {
        let n: u32 = random_number();
        let id = decimal_string(n);
        assert(id@ == decimal(n as nat));
        Message::compose(id, date_time(), msg_type, receiver, payload)
    }

    /// The request to the orchestrator to abort the run.
    pub fn abort() -> (msg: Message)
        ensures
            msg@ == outgoing(
                msg.id@,
                msg.timestamp@,
                MessageType::Abort,
                "orchestrator"@,
                JsonValue::empty_object(),
            ),
            exists|n: u32| msg.id@ == decimal(n as nat),
    {
        Message::fresh(MessageType::Abort, "orchestrator", Json::empty_object())
    }

    /// A status report to the system.
    pub fn status(status: &str) -> (msg: Message)
        ensures
            msg@ == outgoing(
                msg.id@,
                msg.timestamp@,
                MessageType::Status,
                "system"@,
                status_payload(status@),
            ),
            exists|n: u32| msg.id@ == decimal(n as nat),
    {
        let mut members: Vec<(String, Json)> = Vec::new();
        members.push((String::from_str("status"), Json::Text(String::from_str(status))));
        let payload = Json::Object(members);
        proof {
            crate::json::lemma_view_members(members@);
            assert(payload@->Object_0 =~= status_payload(status@)->Object_0);
        }
        Message::fresh(MessageType::Status, "system", payload)
    }
}

/// A message is read back from its own document: encoding loses nothing.
pub proof fn lemma_envelope_round_trip(m: MessageView)
    ensures
        envelope(document_of(m)) == Some(m),
{
    reveal_strlit("id");
    reveal_strlit("type");
    reveal_strlit("sender");
    reveal_strlit("receiver");
    reveal_strlit("payload");
    reveal_strlit("timestamp");
    reveal_strlit("correlation_id");
    reveal_strlit("metadata");
    assert("id"@.len() == 2);
    assert("type"@.len() == 4);
    assert("sender"@.len() == 6);
    assert("receiver"@.len() == 8 && "receiver"@[0] == 'r');
    assert("payload"@.len() == 7);
    assert("timestamp"@.len() == 9);
    assert("correlation_id"@.len() == 14);
    assert("metadata"@.len() == 8 && "metadata"@[0] == 'm');
    lemma_wire_name_round_trip(m.msg_type);
    let doc = document_of(m);
    let members = doc->Object_0;
    reveal_with_fuel(crate::json::lookup_upto, 9);
    assert(doc.field("id"@) == Some(members[0].1));
    assert(doc.field("type"@) == Some(members[1].1));
    assert(doc.field("sender"@) == Some(members[2].1));
    assert(doc.field("receiver"@) == Some(members[3].1));
    assert(doc.field("payload"@) == Some(members[4].1));
    assert(doc.field("timestamp"@) == Some(members[5].1));
    assert(doc.field("correlation_id"@) == Some(members[6].1));
    assert(doc.field("metadata"@) == Some(members[7].1));
}

/// The line that `frame` builds is a message line, and its body is the JSON
/// text it was built from, without surrounding white space.
pub proof fn lemma_framed_is_tagged(json: Seq<char>)
    ensures
        tagged_body(framed(json)) == Some(trim(json)),
{
    reveal_strlit("[MESSAGE] ");
    reveal_strlit("[MESSAGE]");
    let tag = "[MESSAGE]"@;
    let line = framed(json);
    assert(line.subrange(0, 9) =~= tag);
    let rest = line.skip(9);
    assert(rest =~= seq![' '] + json);
    assert(rest[0] == ' ');
    assert(!starts_with(rest, tag)) by {
        if starts_with(rest, tag) {
            assert(rest.subrange(0, 9)[0] == tag[0]);
        }
    }
    assert(strip_prefixes(line, tag) == rest) by {
        reveal_with_fuel(strip_prefixes, 2);
    }
    assert(is_whitespace(' '));
    assert(rest.drop_first() =~= json);
    assert(trim_start(rest) == trim_start(json));
}

} // verus!
