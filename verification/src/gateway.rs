//! The completion-request and model-catalog clients: building the
//! upstream HTTP call and classifying its outcome.  The HTTP exchange
//! itself is the caller's job; this module prepares the call as plain
//! values and interprets the observed status and body text.

use vstd::prelude::*;
use vstd::string::*;

use crate::errors::{ClassifiedError, ErrorKind};
use crate::json::{build_completion_body, completion_body_spec};
use crate::prompt::{parse_action, build_prompt, prompt_of, ActionKind};
use crate::text::{dec_of, dec_string, trim, trim_of};

verus! {

#[verifier::external_type_specification]
#[verifier::external_body]
pub struct ExJsonValue(serde_json::Value);

/// Whether serde_json parses `body` as a JSON document.
pub uninterp spec fn json_valid(body: Seq<char>) -> bool;

/// The string at `choices[0].message.content` of the parsed `body`,
/// if that path holds a string.
pub uninterp spec fn chat_content(body: Seq<char>) -> Option<Seq<char>>;

/// The number of entries of the top-level `data` array of the parsed
/// `body`; zero when `data` is absent or not an array.
pub uninterp spec fn model_count(body: Seq<char>) -> nat;

/// Relies on serde_json::from_str::<Value> to parse the body, and on
/// Value's index operator and as_str to pick the string at
/// `choices[0].message.content`: both are functions of the body text
/// alone.  Returns nothing when the body is not JSON, `Some(None)`
/// when the parsed document lacks a content string, and the content
/// itself otherwise.
#[verifier::external_body]
fn extract_chat_content(body: &str) -> (r: Option<Option<String>>)
    ensures
        r.is_some() == json_valid(body@),
        r.is_some() ==> r.unwrap().deep_view() == chat_content(body@),
{
    match serde_json::from_str::<serde_json::Value>(body) {
        Err(_) => None,
        Ok(v) => match v["choices"][0]["message"]["content"].as_str() {
            Some(s) => Some(Some(s.to_string())),
            None => Some(None),
        },
    }
}

/// Relies on serde_json::from_str::<Value>, Value::get and
/// Value::as_array: hands out the entries of the top-level `data`
/// array, an empty vector when `data` is absent or not an array, and
/// nothing when the body is not JSON.
#[verifier::external_body]
fn extract_models(body: &str) -> (r: Option<Vec<serde_json::Value>>)
    ensures
        r.is_some() == json_valid(body@),
        r.is_some() ==> r.unwrap()@.len() == model_count(body@),
{
    match serde_json::from_str::<serde_json::Value>(body) {
        Err(_) => None,
        Ok(v) => match v.get("data").and_then(|d| d.as_array()) {
            Some(arr) => Some(arr.clone()),
            None => Some(Vec::new()),
        },
    }
}

/// One observed outcome of the HTTP exchange with the gateway: a
/// transport-level failure, or a status line together with the body
/// text (`None` when reading the body itself failed).
pub enum UpstreamResponse {
    Transport { detail: String },
    Http { status: u16, body: Option<String> },
}

/// 2xx statuses signal success.
pub open spec fn is_success_status(status: u16) -> bool {
    200 <= status < 300
}

/// Classification of a non-2xx status.
pub open spec fn status_kind(status: u16) -> ErrorKind {
    if status == 401 {
        ErrorKind::Unauthorized
    } else if status == 403 {
        ErrorKind::Forbidden
    } else if status == 429 {
        ErrorKind::RateLimited
    } else {
        ErrorKind::UpstreamError(status)
    }
}

/// The diagnostic detail for a non-2xx answer: the body text
/// verbatim, or the bare status code when the body could not be read.
pub open spec fn status_detail(status: u16, body: Option<String>) -> Seq<char> {
    match body {
        Option::Some(b) => b@,
        Option::None => dec_of(status as nat),
    }
}

pub fn classify_status(status: u16) -> (r: ErrorKind)
    ensures
        r == status_kind(status),
{
    if status == 401 {
        ErrorKind::Unauthorized
    } else if status == 403 {
        ErrorKind::Forbidden
    } else if status == 429 {
        ErrorKind::RateLimited
    } else {
        ErrorKind::UpstreamError(status)
    }
}

/// Interpret the upstream answer to a chat-completion request.
///
/// A transport failure is `Network`; a non-2xx status is classified
/// by `status_kind` and carries the body verbatim; a 2xx body that is
/// not JSON is `ResponseParse`; a JSON body without the content field
/// is `EmptyResponse`; otherwise the content, trimmed, is returned.
pub fn complete_from_response(resp: UpstreamResponse) -> (r: Result<String, ClassifiedError>)
    ensures
        (match resp {
            UpstreamResponse::Transport { detail } => r matches Err(e) && e.kind
                == ErrorKind::Network && e.detail@ == detail@,
            UpstreamResponse::Http { status, body } => {
                if !is_success_status(status) {
                    r matches Err(e) && e.kind == status_kind(status) && e.detail@
                        == status_detail(status, body)
                } else {
                    match body {
                        Option::None => r matches Err(e) && e.kind == ErrorKind::ResponseParse,
                        Option::Some(b) => {
                            if !json_valid(b@) {
                                r matches Err(e) && e.kind == ErrorKind::ResponseParse && e.detail@
                                    == b@
                            } else {
                                match chat_content(b@) {
                                    Option::None => r matches Err(e) && e.kind
                                        == ErrorKind::EmptyResponse,
                                    Option::Some(c) => r matches Ok(s) && s@ == trim_of(c),
                                }
                            }
                        },
                    }
                }
            },
        }),
{
    match resp {
        UpstreamResponse::Transport { detail } => Err(
            ClassifiedError::new(ErrorKind::Network, detail),
        ),
        UpstreamResponse::Http { status, body } => {
            if 200 <= status && status < 300 {
                match body {
                    None => Err(
                        ClassifiedError::new(
                            ErrorKind::ResponseParse,
                            "Failed to read AI response body".to_owned(),
                        ),
                    ),
                    Some(b) => match extract_chat_content(b.as_str()) {
                        None => Err(
                            ClassifiedError::new(ErrorKind::ResponseParse, b),
                        ),
                        Some(None) => Err(
                            ClassifiedError::new(
                                ErrorKind::EmptyResponse,
                                "No content in AI response".to_owned(),
                            ),
                        ),
                        Some(Some(c)) => Ok(trim(c.as_str())),
                    },
                }
            } else {
                let detail = match body {
                    Some(b) => b,
                    None => dec_string(status as u32),
                };
                Err(ClassifiedError::new(classify_status(status), detail))
            }
        },
    }
}

/// Interpret the upstream answer to a model-catalog request.
///
/// The transport and status classification matches the completion
/// client; a 2xx JSON body always succeeds, and an absent or
/// non-array `data` field is an empty catalog, not an error.
pub fn models_from_response(resp: UpstreamResponse) -> (r: Result<
    Vec<serde_json::Value>,
    ClassifiedError,
>)
    ensures
        (match resp {
            UpstreamResponse::Transport { detail } => r matches Err(e) && e.kind
                == ErrorKind::Network && e.detail@ == detail@,
            UpstreamResponse::Http { status, body } => {
                if !is_success_status(status) {
                    r matches Err(e) && e.kind == status_kind(status) && e.detail@
                        == status_detail(status, body)
                } else {
                    match body {
                        Option::None => r matches Err(e) && e.kind == ErrorKind::ResponseParse,
                        Option::Some(b) => {
                            if !json_valid(b@) {
                                r matches Err(e) && e.kind == ErrorKind::ResponseParse && e.detail@
                                    == b@
                            } else {
                                r matches Ok(v) && v@.len() == model_count(b@)
                            }
                        },
                    }
                }
            },
        }),
{
    match resp {
        UpstreamResponse::Transport { detail } => Err(
            ClassifiedError::new(ErrorKind::Network, detail),
        ),
        UpstreamResponse::Http { status, body } => {
            if 200 <= status && status < 300 {
                match body {
                    None => Err(
                        ClassifiedError::new(
                            ErrorKind::ResponseParse,
                            "Failed to read models response body".to_owned(),
                        ),
                    ),
                    Some(b) => match extract_models(b.as_str()) {
                        None => Err(ClassifiedError::new(ErrorKind::ResponseParse, b)),
                        Some(models) => Ok(models),
                    },
                }
            } else {
                let detail = match body {
                    Some(b) => b,
                    None => dec_string(status as u32),
                };
                Err(ClassifiedError::new(classify_status(status), detail))
            }
        },
    }
}

/// A fully prepared chat-completion call: URL, bearer key, JSON body.
#[derive(Debug)]
pub struct CompletionPlan {
    pub url: String,
    pub api_key: String,
    pub body: String,
}

/// A prepared model-catalog call.
#[derive(Debug)]
pub struct ModelsPlan {
    pub url: String,
    pub api_key: String,
}

/// The token cap used when the caller gives none.
pub const DEFAULT_MAX_TOKENS: u32 = 2000;

/// The `ActionKind` the wire-level action string stands for, once it
/// is known to be one of the three supported strings.
pub open spec fn action_of(action: Seq<char>, tone: Option<String>) -> ActionKind {
    if action == "proofread"@ {
        ActionKind::Proofread
    } else if action == "tone"@ {
        ActionKind::ToneRewrite(tone)
    } else {
        ActionKind::DraftExpand
    }
}

/// The token cap a request uses: the given one, or the default.
pub open spec fn max_tokens_or_default(max_tokens: Option<u32>) -> u32 {
    match max_tokens {
        Option::Some(m) => m,
        Option::None => DEFAULT_MAX_TOKENS,
    }
}

/// Prepare the chat-completion call for the given action: resolve the
/// system prompt, default the token cap, and encode the JSON body.
/// An unknown action string fails fast with `UnsupportedAction`.
pub fn plan_completion(
    text: &str,
    action: &str,
    model: &str,
    api_key: &str,
    tone: Option<String>,
    max_tokens: Option<u32>,
) -> (r: Result<CompletionPlan, ClassifiedError>)
    ensures
        !(action@ == "proofread"@ || action@ == "tone"@ || action@ == "draft"@) ==> (r matches Err(
            e,
        ) && e.kind == ErrorKind::UnsupportedAction && e.detail@ == "Unknown action specified"@),
        (action@ == "proofread"@ || action@ == "tone"@ || action@ == "draft"@) ==> (r matches Ok(p)
            && p.url@ == "https://openrouter.ai/api/v1/chat/completions"@ && p.api_key@ == api_key@
            && p.body@ == completion_body_spec(
            model@,
            prompt_of(action_of(action@, tone)),
            text@,
            max_tokens_or_default(max_tokens),
        )),
{
    proof {
        reveal_strlit("proofread");
        reveal_strlit("tone");
        reveal_strlit("draft");
        assert("proofread"@.len() == 9);
        assert("tone"@.len() == 4);
        assert("draft"@.len() == 5);
    }
    let a = match parse_action(action, tone) {
        Ok(a) => a,
        Err(e) => {
            return Err(e);
        },
    };
    let sys = build_prompt(&a);
    let mt = match max_tokens {
        Some(m) => m,
        None => DEFAULT_MAX_TOKENS,
    };
    let body = build_completion_body(model, sys.as_str(), text, mt);
    Ok(
        CompletionPlan {
            url: "https://openrouter.ai/api/v1/chat/completions".to_owned(),
            api_key: api_key.to_owned(),
            body,
        },
    )
}

/// Prepare the model-catalog call.
pub fn plan_models_request(api_key: &str) -> (r: ModelsPlan)
    ensures
        r.url@ == "https://openrouter.ai/api/v1/models"@,
        r.api_key@ == api_key@,
{
    ModelsPlan { url: "https://openrouter.ai/api/v1/models".to_owned(), api_key: api_key.to_owned() }
}

/// The value of the Authorization header both calls carry.
pub fn bearer_header(api_key: &str) -> (r: String)
    ensures
        r@ == "Bearer "@ + api_key@,
{
    let mut out = "Bearer ".to_owned();
    out.append(api_key);
    out
}

} // verus!
