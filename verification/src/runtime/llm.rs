//! The two built-in language-model providers: a deterministic mock that
//! answers every request, and one that always reports a provider failure.
use vstd::prelude::*;
use crate::json::{Json, JsonV, json_get};
use crate::protocol::payload::{RuntimeLLMRequestPayload, RuntimeLLMResponsePayload};
use crate::runtime::error::RuntimeError;
use crate::text::{clone_opt_string, concat, opt_view, owned};

verus! {

/// The content text of the last message, or nothing when there is no
/// message, it has no `content` member, or that member is not a string.
pub open spec fn last_message_content(messages: Seq<JsonV>) -> Seq<char> {
    if messages.len() == 0 {
        Seq::empty()
    } else {
        match json_get(messages.last(), "content"@) {
            Some(JsonV::Str(s)) => s,
            _ => Seq::empty(),
        }
    }
}

/// The views of a vector of JSON values.
pub open spec fn json_views(v: Seq<Json>) -> Seq<JsonV> {
    v.map_values(|j: Json| j@)
}

/// The text the mock answers to: the prompt, or else the content of the
/// last message.
pub open spec fn mock_input(req: RuntimeLLMRequestPayload) -> Seq<char> {
    match opt_view(req.prompt) {
        Some(p) => p,
        None => last_message_content(json_views(req.messages@)),
    }
}

/// A model name, or the given default when there is none.
pub open spec fn model_or(model: Option<String>, default: Seq<char>) -> Option<Seq<char>> {
    match opt_view(model) {
        Some(m) => Some(m),
        None => Some(default),
    }
}

/// What the mock provider answers: `Mock response: ` and the input text,
/// as `text` and as the message content, status `completed`, the request's
/// identifiers and correlation, model `mock` when the request names none,
/// null usage and error.
pub open spec fn mock_response(req: RuntimeLLMRequestPayload, res: RuntimeLLMResponsePayload) -> bool {
    let text = "Mock response: "@ + mock_input(req);
    &&& res.task_id@ == req.task_id@
    &&& opt_view(res.model) == model_or(req.model, "mock"@)
    &&& res.request_id == req.request_id
    &&& res.status@ == "completed"@
    &&& opt_view(res.text) == Some(text)
    &&& res.message@ == JsonV::Object(seq![("content"@, JsonV::Str(text))])
    &&& res.usage@ == JsonV::Null
    &&& res.error@ == JsonV::Null
    &&& res.correlation_id == req.correlation_id
}

/// The error object of a simulated provider failure.
pub open spec fn simulated_failure_json() -> JsonV {
    JsonV::Object(
        seq![
            ("kind"@, JsonV::Str("provider_error"@)),
            ("message"@, JsonV::Str("simulated provider failure"@)),
        ],
    )
}

/// What the failing provider answers: status `error`, no text, an empty
/// message, the simulated failure as error, model `error-mock` when the
/// request names none, the request's identifiers and correlation.
pub open spec fn failing_response(
    req: RuntimeLLMRequestPayload,
    res: RuntimeLLMResponsePayload,
) -> bool {
    &&& res.task_id@ == req.task_id@
    &&& opt_view(res.model) == model_or(req.model, "error-mock"@)
    &&& res.request_id == req.request_id
    &&& res.status@ == "error"@
    &&& res.text is None
    &&& res.message@ == JsonV::Object(Seq::empty())
    &&& res.usage@ == JsonV::Null
    &&& res.error@ == simulated_failure_json()
    &&& res.correlation_id == req.correlation_id
}

/// The provider that answers every request deterministically.
#[derive(Clone, Copy, Debug, Default)]
pub struct MockLlmProvider;

/// The provider that always reports a provider failure.
#[derive(Clone, Copy, Debug, Default)]
pub struct ErrorLlmProvider;

/// The model name, or the default.
fn model_or_default(model: &Option<String>, default: &str) -> (r: Option<String>)
    ensures
        opt_view(r) == model_or(*model, default@),
{
    match model {
        Some(m) => Some(m.clone()),
        None => Some(owned(default)),
    }
}

/// A one-member object `{ key: value }` with a string value.
fn single_member(key: &str, value: String) -> (r: Json)
    ensures
        r@ == JsonV::Object(seq![(key@, JsonV::Str(value@))]),
{
    let mut m: Vec<(String, Json)> = Vec::new();
    let e = Json::Str(value);
    m.push((owned(key), e));
    let r = Json::Object(m);
    assert(r@->Object_0[0] == (m@[0].0@, m@[0].1@));
    assert(r@->Object_0 =~= seq![(key@, e@)]);
    r
}

impl MockLlmProvider {
    /// The text the mock answers to.
    fn response_input(request: &RuntimeLLMRequestPayload) -> (r: String)
        ensures
            r@ == mock_input(*request),
    {
        match &request.prompt {
            Some(p) => p.clone(),
            None => {
                let ghost ms = json_views(request.messages@);
                if request.messages.len() == 0 {
                    return String::new();
                }
                let last = &request.messages[request.messages.len() - 1];
                assert(ms.last() == last@);
                match last.get("content") {
                    Some(c) => match c.as_str() {
                        Some(s) => s.clone(),
                        None => String::new(),
                    },
                    None => String::new(),
                }
            },
        }
    }

    /// Answers a request with `Mock response: ` and its input text.
    pub fn complete(&self, request: RuntimeLLMRequestPayload) -> (r: Result<
        RuntimeLLMResponsePayload,
        RuntimeError,
    >)
        ensures
            r matches Ok(res) && mock_response(request, res),
    {
        let input = Self::response_input(&request);
        let text = concat("Mock response: ", input.as_str());
        let message = single_member("content", text.clone());
        Ok(
            RuntimeLLMResponsePayload {
                task_id: request.task_id.clone(),
                model: model_or_default(&request.model, "mock"),
                request_id: clone_opt_string(&request.request_id),
                status: owned("completed"),
                text: Some(text),
                message,
                usage: Json::Null,
                error: Json::Null,
                correlation_id: clone_opt_string(&request.correlation_id),
            },
        )
    }
}

impl ErrorLlmProvider {
    /// Answers every request with a simulated provider failure.
    pub fn complete(&self, request: RuntimeLLMRequestPayload) -> (r: Result<
        RuntimeLLMResponsePayload,
        RuntimeError,
    >)
        ensures
            r matches Ok(res) && failing_response(request, res),
    {
        let mut m: Vec<(String, Json)> = Vec::new();
        m.push((owned("kind"), Json::string("provider_error")));
        m.push((owned("message"), Json::string("simulated provider failure")));
        let error = Json::Object(m);
        assert(error@->Object_0[0] == (m@[0].0@, m@[0].1@));
        assert(error@->Object_0[1] == (m@[1].0@, m@[1].1@));
        assert(error@->Object_0 =~= simulated_failure_json()->Object_0);
        let message = Json::Object(Vec::new());
        assert(message@->Object_0 =~= Seq::<(Seq<char>, JsonV)>::empty());
        Ok(
            RuntimeLLMResponsePayload {
                task_id: request.task_id.clone(),
                model: model_or_default(&request.model, "error-mock"),
                request_id: clone_opt_string(&request.request_id),
                status: owned("error"),
                text: None,
                message,
                usage: Json::Null,
                error,
                correlation_id: clone_opt_string(&request.correlation_id),
            },
        )
    }
}

} // verus!
