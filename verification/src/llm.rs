//! The completion protocols that the extraction stage can speak: what is sent
//! to the service and where its answer holds the text of the model.

use crate::json::{items_view, members_view, Json, JsonValue, Member, MemberValue};
use vstd::prelude::*;
use vstd::string::StringExecFns;

verus! {

/// Which wire protocol the completion service speaks.
#[derive(Clone, Copy, Debug, PartialEq, Eq, Structural)]
pub enum LlmMethod {
    /// A chat-completion endpoint: one user message in, choices out.
    GenericOpenAI,
    /// A generate endpoint in JSON mode: one prompt in, one response string out.
    OllamaJson,
    /// Tool calling, chat style. No adapter exists for it.
    OpenAITools,
    /// Tool calling, messages style. No adapter exists for it.
    AnthropicTools,
}

impl LlmMethod {
    /// Whether an adapter exists for the protocol.
    pub open spec fn supported(self) -> bool {
        self is GenericOpenAI || self is OllamaJson
    }

    /// Tells whether an adapter exists for the protocol.
    pub fn is_supported(&self) -> (yes: bool)
        ensures
            yes == self.supported(),
    {
        match self {
            LlmMethod::GenericOpenAI => true,
            LlmMethod::OllamaJson => true,
            LlmMethod::OpenAITools => false,
            LlmMethod::AnthropicTools => false,
        }
    }
}

/// The member `key` with the value `value`.
pub open spec fn pair(key: Seq<char>, value: JsonValue) -> MemberValue {
    MemberValue { key, value }
}

/// What a chat-completion endpoint is sent: the model and one message of the
/// user, which is the prompt.
pub open spec fn chat_request(model: Seq<char>, prompt: Seq<char>) -> JsonValue {
    JsonValue::Object(
        seq![
            pair("model"@, JsonValue::Str(model)),
            pair(
                "messages"@,
                JsonValue::Array(
                    seq![
                        JsonValue::Object(
                            seq![
                                pair("role"@, JsonValue::Str("user"@)),
                                pair("content"@, JsonValue::Str(prompt)),
                            ],
                        ),
                    ],
                ),
            ),
        ],
    )
}

/// What a generate endpoint is sent: the model, the prompt, the request for
/// JSON and for one answer in one piece.
pub open spec fn generate_request(model: Seq<char>, prompt: Seq<char>) -> JsonValue {
    JsonValue::Object(
        seq![
            pair("model"@, JsonValue::Str(model)),
            pair("prompt"@, JsonValue::Str(prompt)),
            pair("format"@, JsonValue::Str("json"@)),
            pair("stream"@, JsonValue::Bool(false)),
        ],
    )
}

/// What the service is sent under a protocol; `None` for a protocol without
/// an adapter.
pub open spec fn request_body(method: LlmMethod, model: Seq<char>, prompt: Seq<char>) -> Option<
    JsonValue,
> {
    match method {
        LlmMethod::GenericOpenAI => Some(chat_request(model, prompt)),
        LlmMethod::OllamaJson => Some(generate_request(model, prompt)),
        _ => None,
    }
}

/// Where a chat-completion answer holds the text of the model: in the string
/// `content` of the `message` of the first of its `choices`.
pub open spec fn chat_content(body: JsonValue) -> Option<Seq<char>> {
    match body.member("choices"@) {
        Some(JsonValue::Array(choices)) => if choices.len() > 0 {
            match choices[0].member("message"@) {
                Some(message) => match message.member("content"@) {
                    Some(JsonValue::Str(text)) => Some(text),
                    _ => None,
                },
                None => None,
            }
        } else {
            None
        },
        _ => None,
    }
}

/// Where a generate answer holds the text of the model: in its string
/// `response`.
pub open spec fn generate_content(body: JsonValue) -> Option<Seq<char>> {
    match body.member("response"@) {
        Some(JsonValue::Str(text)) => Some(text),
        _ => None,
    }
}

/// The text of the model in an answer of the service; `None` where the
/// answer does not hold it, and for a protocol without an adapter.
pub open spec fn completion_content(method: LlmMethod, body: JsonValue) -> Option<Seq<char>> {
    match method {
        LlmMethod::GenericOpenAI => chat_content(body),
        LlmMethod::OllamaJson => generate_content(body),
        _ => None,
    }
}

/// Makes one member of an object.
pub fn member(key: &str, value: Json) -> (made: Member)
    ensures
        made@ == pair(key@, value@),
{
    Member { key: String::from_str(key), value }
}

/// Builds what the service is sent under a protocol; `None` for a protocol
/// without an adapter.
pub fn build_request(method: LlmMethod, model: &str, prompt: String) -> (out: Option<Json>)
    ensures
        match out {
            Some(json) => request_body(method, model@, prompt@) == Some(json@),
            None => request_body(method, model@, prompt@).is_none(),
        },
{
    match method {
        LlmMethod::GenericOpenAI => {
            let fields = vec![
                member("role", Json::literal("user")),
                member("content", Json::string(prompt)),
            ];
            let message = Json::object(fields);
            assert(members_view(fields@) =~= seq![
                pair("role"@, JsonValue::Str("user"@)),
                pair("content"@, JsonValue::Str(prompt@)),
            ]);
            let messages = vec![message];
            let list = Json::array(messages);
            assert(items_view(messages@) =~= seq![message@]);
            let top = vec![member("model", Json::literal(model)), member("messages", list)];
            let body = Json::object(top);
            assert(members_view(top@) =~= seq![
                pair("model"@, JsonValue::Str(model@)),
                pair("messages"@, list@),
            ]);
            Some(body)
        },
        LlmMethod::OllamaJson => {
            let top = vec![
                member("model", Json::literal(model)),
                member("prompt", Json::string(prompt)),
                member("format", Json::literal("json")),
                member("stream", Json::Bool(false)),
            ];
            let body = Json::object(top);
            assert(members_view(top@) =~= seq![
                pair("model"@, JsonValue::Str(model@)),
                pair("prompt"@, JsonValue::Str(prompt@)),
                pair("format"@, JsonValue::Str("json"@)),
                pair("stream"@, JsonValue::Bool(false)),
            ]);
            Some(body)
        },
        _ => None,
    }
}

/// The text of the model in a chat-completion answer.
pub fn read_chat_content(body: &Json) -> (out: Option<String>)
    ensures
        match out {
            Some(text) => chat_content(body@) == Some(text@),
            None => chat_content(body@).is_none(),
        },
{
    let choices = match body.get("choices") {
        Some(value) => match value.as_array() {
            Some(choices) => choices,
            None => {
                return None;
            },
        },
        None => {
            return None;
        },
    };
    if choices.len() == 0 {
        return None;
    }
    let message = match choices[0].get("message") {
        Some(message) => message,
        None => {
            return None;
        },
    };
    match message.get("content") {
        Some(value) => match value.as_str() {
            Some(text) => Some(text.clone()),
            None => None,
        },
        None => None,
    }
}

/// The text of the model in a generate answer.
pub fn read_generate_content(body: &Json) -> (out: Option<String>)
    ensures
        match out {
            Some(text) => generate_content(body@) == Some(text@),
            None => generate_content(body@).is_none(),
        },
{
    match body.get("response") {
        Some(value) => match value.as_str() {
            Some(text) => Some(text.clone()),
            None => None,
        },
        None => None,
    }
}

/// The text of the model in an answer of the service under a protocol.
pub fn read_content(method: LlmMethod, body: &Json) -> (out: Option<String>)
    ensures
        match out {
            Some(text) => completion_content(method, body@) == Some(text@),
            None => completion_content(method, body@).is_none(),
        },
{
    match method {
        LlmMethod::GenericOpenAI => read_chat_content(body),
        LlmMethod::OllamaJson => read_generate_content(body),
        _ => None,
    }
}

} // verus!
