//! What execution providers return, and the decisions of the adapter for
//! servers that speak OpenAI's chat-completions protocol (vLLM, llama.cpp,
//! LM Studio and hosted endpoints).
use vstd::prelude::*;
use vstd::string::*;

use crate::text::{trim_end, trim_end_char};
use crate::types::{CompletionRequest, Usage};

verus! {

/// A provider's answer to one request.
#[derive(Clone, Debug)]
pub struct ProviderCompletion {
    pub text: String,
    pub model: String,
    pub usage: Usage,
}

/// A provider failure; `retryable` failures let the gateway fall back to the
/// next provider.
#[derive(Clone, Debug)]
pub struct ProviderError {
    pub message: String,
    pub retryable: bool,
}

impl ProviderError {
    /// The displayed message: the error's message itself.
    pub fn to_string(&self) -> (s: String)
        ensures
            s@ == self.message@,
    {
        self.message.clone()
    }
}

/// Settings of an OpenAI-compatible endpoint. Prices per thousand tokens are
/// binary64 bit patterns; a fresh provider quotes zero for both.
pub struct OpenAiCompatibleProvider {
    pub name: String,
    /// API root without trailing slashes, including the version (`.../v1`).
    pub base_url: String,
    pub api_key: Option<String>,
    pub models: Vec<String>,
    pub input_cost_per_1k_bits: u64,
    pub output_cost_per_1k_bits: u64,
}

/// The model named in a chat request: the requested one, else the provider's
/// first model, else `default`.
pub open spec fn chat_model_name(request_model: Option<String>, models: Seq<String>) -> Seq<char> {
    match request_model {
        Some(m) => m@,
        None => if models.len() > 0 {
            models[0]@
        } else {
            "default"@
        },
    }
}

/// HTTP statuses after which the same request may succeed elsewhere: 429
/// (rate limited) and every server error (5xx).
pub open spec fn retryable_status(status: u16) -> bool {
    status == 429 || (500 <= status && status < 600)
}

/// Exactly rate limiting (429) and every server error, 500 through 599
/// inclusive, are retryable; every other status is final.
pub proof fn retryable_statuses(status: u16)
    ensures
        retryable_status(status) <==> (status == 429 || (500 <= status && status <= 599)),
        500 <= status <= 599 ==> retryable_status(status),
        status < 500 && status != 429 ==> !retryable_status(status),
        status >= 600 ==> !retryable_status(status),
{
}

/// A chat request names the requested model when there is one; otherwise
/// the first model the provider lists; only a provider that lists none
/// falls back to `default`.
pub proof fn chat_model_choice(request_model: Option<String>, models: Seq<String>)
    ensures
        request_model matches Some(m) ==> chat_model_name(request_model, models) == m@,
        request_model is None && models.len() > 0 ==> chat_model_name(request_model, models)
            == models[0]@,
        request_model is None && models.len() == 0 ==> chat_model_name(request_model, models)
            == "default"@,
{
}

impl OpenAiCompatibleProvider {
    /// A provider called `name` at `base_url` (trailing `/` removed) serving
    /// `models`, without an API key and quoting zero prices.
    pub fn new(name: &str, base_url: &str, models: Vec<String>) -> (p: OpenAiCompatibleProvider)
        ensures
            p.name@ == name@,
            p.base_url@ == trim_end_char(base_url@, '/'),
            p.api_key is None,
            p.models == models,
            p.input_cost_per_1k_bits == 0,
            p.output_cost_per_1k_bits == 0,
    {
        OpenAiCompatibleProvider {
            name: String::from_str(name),
            base_url: trim_end(base_url, '/'),
            api_key: None,
            models,
            input_cost_per_1k_bits: 0,
            output_cost_per_1k_bits: 0,
        }
    }

    /// Sends `api_key` as a bearer token.
    pub fn api_key(self, api_key: &str) -> (p: OpenAiCompatibleProvider)
        ensures
            p.api_key matches Some(k) && k@ == api_key@,
            p.name == self.name,
            p.base_url == self.base_url,
            p.models == self.models,
            p.input_cost_per_1k_bits == self.input_cost_per_1k_bits,
            p.output_cost_per_1k_bits == self.output_cost_per_1k_bits,
    {
        OpenAiCompatibleProvider { api_key: Some(String::from_str(api_key)), ..self }
    }

    /// Sets the estimated USD price of a thousand input tokens (bit pattern);
    /// zero for a local model makes the router try it first.
    pub fn input_cost_per_1k(self, cost_bits: u64) -> (p: OpenAiCompatibleProvider)
        ensures
            p.input_cost_per_1k_bits == cost_bits,
            p.name == self.name,
            p.base_url == self.base_url,
            p.api_key == self.api_key,
            p.models == self.models,
            p.output_cost_per_1k_bits == self.output_cost_per_1k_bits,
    {
        OpenAiCompatibleProvider { input_cost_per_1k_bits: cost_bits, ..self }
    }

    /// Sets the estimated USD price of a thousand output tokens (bit pattern).
    pub fn output_cost_per_1k(self, cost_bits: u64) -> (p: OpenAiCompatibleProvider)
        ensures
            p.output_cost_per_1k_bits == cost_bits,
            p.name == self.name,
            p.base_url == self.base_url,
            p.api_key == self.api_key,
            p.models == self.models,
            p.input_cost_per_1k_bits == self.input_cost_per_1k_bits,
    {
        OpenAiCompatibleProvider { output_cost_per_1k_bits: cost_bits, ..self }
    }

    /// The endpoint that receives chat requests.
    pub fn chat_url(&self) -> (u: String)
        ensures
            u@ == self.base_url@ + "/chat/completions"@,
    {
        let mut u = self.base_url.clone();
        u.append("/chat/completions");
        u
    }

    /// The model to name in the chat request for `request`.
    pub fn chat_model(&self, request: &CompletionRequest) -> (m: String)
        ensures
            m@ == chat_model_name(request.model, self.models@),
    {
        match &request.model {
            Some(m) => m.clone(),
            None => if self.models.len() > 0 {
                self.models[0].clone()
            } else {
                String::from_str("default")
            },
        }
    }
}

/// The failure for a non-success HTTP status: `HTTP <status>: <body>`,
/// retryable for 429 and 5xx. `status_text` is the status as displayed
/// (code and reason phrase).
pub fn http_failure(status: u16, status_text: &str, body: &str) -> (e: ProviderError)
    ensures
        e.message@ == "HTTP "@ + status_text@ + ": "@ + body@,
        e.retryable == retryable_status(status),
{
    let mut message = String::from_str("HTTP ");
    message.append(status_text);
    message.append(": ");
    message.append(body);
    ProviderError { message, retryable: status == 429 || (500 <= status && status < 600) }
}

/// The failure when the request could not be sent or answered: retryable
/// exactly when it timed out or could not connect.
pub fn transport_failure(message: String, timed_out: bool, connect_failed: bool) -> (e:
    ProviderError)
    ensures
        e.message == message,
        e.retryable == (timed_out || connect_failed),
{
    ProviderError { message, retryable: timed_out || connect_failed }
}

/// The failure when the reply body is not a chat-completions response.
pub fn invalid_response(detail: &str) -> (e: ProviderError)
    ensures
        e.message@ == "invalid provider response: "@ + detail@,
        !e.retryable,
{
    let mut message = String::from_str("invalid provider response: ");
    message.append(detail);
    ProviderError { message, retryable: false }
}

/// The answer of a parsed reply: the content of its first choice, or a
/// non-retryable failure when there is no first choice or it has no text.
/// `choices` holds each choice's content in reply order.
pub fn first_choice_text(choices: Vec<Option<String>>) -> (r: Result<String, ProviderError>)
    ensures
        choices@.len() > 0 && choices@[0] is Some ==> r == Ok::<String, ProviderError>(
            choices@[0]->0,
        ),
        !(choices@.len() > 0 && choices@[0] is Some) ==> (r matches Err(e) && !e.retryable
            && e.message@ == "provider response had no text choice"@),
{
    let mut choices = choices;
    if choices.len() > 0 {
        let first = choices.remove(0);
        if let Some(text) = first {
            return Ok(text);
        }
    }
    Err(
        ProviderError {
            message: String::from_str("provider response had no text choice"),
            retryable: false,
        },
    )
}

/// A provider answer from a parsed reply; a reply without usage counts
/// reports zero tokens.
pub fn reply_completion(text: String, model: String, usage: Option<Usage>) -> (c:
    ProviderCompletion)
    ensures
        c.text == text,
        c.model == model,
        c.usage == (match usage {
            Some(u) => u,
            None => Usage { prompt_tokens: 0, completion_tokens: 0 },
        }),
{
    let usage = match usage {
        Some(u) => u,
        None => Usage { prompt_tokens: 0, completion_tokens: 0 },
    };
    ProviderCompletion { text, model, usage }
}

} // verus!
