//! The completion client: holds credentials and generation options, builds
//! requests from a prompt or a history, and classifies the endpoint's reply.
//! The HTTP exchange itself is performed by the caller.

use vstd::prelude::*;
use crate::errors::GPTError;
use crate::models::{
    AccessData, ApiRequest, ApiResponse, ChatMessage, CompletionOptions, GPTOptions, URL_API,
};

verus! {

/// Role of the message at position `i` of a history sent as a chat: even
/// positions are the assistant's, odd ones the user's.
pub open spec fn role_at(i: int) -> Seq<char> {
    if i % 2 == 0 {
        "assistant"@
    } else {
        "user"@
    }
}

/// Status codes the endpoint answers with on success.
pub open spec fn is_success(status: u16) -> bool {
    200 <= status <= 299
}

/// The answer a decoded success reply carries: the text of its first
/// alternative, if it has any.
pub open spec fn first_answer(response: ApiResponse) -> Option<Seq<char>> {
    if response.result.alternatives@.len() == 0 {
        None
    } else {
        Some(response.result.alternatives@[0].message.text@)
    }
}

/// The text of the first alternative of a success reply, or `EmptyResponse`
/// when it holds none.
pub fn extract_answer(response: ApiResponse) -> (r: Result<String, GPTError>)
    ensures
        first_answer(response) is None <==> r is Err,
        r is Err ==> r->Err_0 is EmptyResponse,
        r matches Ok(text) ==> first_answer(response) == Some(text@),
{
    if response.result.alternatives.len() == 0 {
        return Err(GPTError::EmptyResponse);
    }
    Ok(response.result.alternatives[0].message.text.clone())
}

/// The outcome of an exchange that reached the endpoint and came back with
/// HTTP status `status` and body text `body`; `decoded` is that body decoded
/// as a success reply, or the decoder's error.
///
/// A success status yields the first alternative's text, `EmptyResponse` when
/// there is none, or `Transport` with the decoder's error. Status 401 yields
/// `InvalidCredential` whatever the body; any other status yields `APIError`
/// with the status and the body.
pub fn interpret_response(status: u16, body: String, decoded: Result<ApiResponse, String>) -> (r:
    Result<String, GPTError>)
    ensures
        is_success(status) ==> match decoded {
            Ok(response) => match first_answer(response) {
                Some(text) => (r matches Ok(t) && t@ == text),
                None => r matches Err(GPTError::EmptyResponse),
            },
            Err(e) => (r matches Err(GPTError::Transport { description }) && description == e),
        },
        status == 401 ==> r matches Err(GPTError::InvalidCredential),
        !is_success(status) && status != 401 ==> (r matches Err(
            GPTError::APIError { code, description },
        ) && code == status as i32 && description == body),
{
    if 200 <= status && status <= 299 {
        match decoded {
            Ok(response) => extract_answer(response),
            Err(e) => Err(GPTError::Transport { description: e }),
        }
    } else if status == 401 {
        Err(GPTError::InvalidCredential)
    } else {
        Err(GPTError::APIError { code: status as i32, description: body })
    }
}

/// Client settings for the completion endpoint.
#[derive(Debug)]
pub struct GPTClient {
    access: AccessData,
    api_url: String,
    gpt_options: GPTOptions,
}

impl GPTClient {
    #[verifier::type_invariant]
    spec fn options_in_range(self) -> bool {
        self.gpt_options.valid()
    }

    pub closed spec fn access_spec(&self) -> AccessData {
        self.access
    }

    pub closed spec fn api_url_spec(&self) -> Seq<char> {
        self.api_url@
    }

    pub closed spec fn options_spec(&self) -> GPTOptions {
        self.gpt_options
    }

    /// `scheme://{catalog-id}/{model-name}` for the client's credentials and
    /// model.
    pub open spec fn model_uri_spec(&self) -> Seq<char> {
        "gpt://"@ + self.access_spec().id_catalog@ + "/"@ + self.options_spec().model@
    }

    /// The completion options that every request of this client carries.
    pub open spec fn completion_options_spec(&self) -> CompletionOptions {
        CompletionOptions {
            stream: false,
            temperature: self.options_spec().temperature,
            max_tokens: self.options_spec().max_tokens,
        }
    }

    /// Whether `r` is the request of this client carrying `texts` as its
    /// messages, with `role(i)` the role of message `i`.
    pub open spec fn is_request_for(
        &self,
        r: ApiRequest,
        texts: Seq<Seq<char>>,
        roles: spec_fn(int) -> Seq<char>,
    ) -> bool {
        &&& r.model_uri@ == self.model_uri_spec()
        &&& r.completion_options == self.completion_options_spec()
        &&& r.messages@.len() == texts.len()
        &&& forall|i: int|
            0 <= i < texts.len() ==> #[trigger] r.messages@[i].text@ == texts[i]
                && r.messages@[i].role@ == roles(i)
    }

    /// A client with no credentials, the public endpoint and the default
    /// options.
    pub fn new() -> (r: GPTClient)
        ensures
            r.access_spec().id_catalog@.len() == 0,
            r.access_spec().api_key@.len() == 0,
            r.api_url_spec() == URL_API@,
            r.options_spec().model@ == crate::models::DEFAULT_MODEL@,
            r.options_spec().temperature == 700,
            r.options_spec().max_tokens == 2000,
    {
        GPTClient {
            access: AccessData::empty(),
            api_url: String::from_str(URL_API),
            gpt_options: GPTOptions::default_options(),
        }
    }

    pub fn access(&self) -> (r: &AccessData)
        ensures
            *r == self.access_spec(),
    {
        &self.access
    }

    pub fn api_url(&self) -> (r: &str)
        ensures
            r@ == self.api_url_spec(),
    {
        self.api_url.as_str()
    }

    pub fn options(&self) -> (r: &GPTOptions)
        ensures
            *r == self.options_spec(),
            r.valid(),
    {
        proof {
            use_type_invariant(self);
        }
        &self.gpt_options
    }

    /// The client with the given credentials.
    pub fn set_auth(self, id_catalog: String, api_key: String) -> (r: GPTClient)
        ensures
            r.access_spec().id_catalog == id_catalog,
            r.access_spec().api_key == api_key,
            r.api_url_spec() == self.api_url_spec(),
            r.options_spec() == self.options_spec(),
    {
        self.with_new_auth(AccessData::new(id_catalog, api_key))
    }

    /// The client with the given credentials.
    pub fn with_new_auth(self, access: AccessData) -> (r: GPTClient)
        ensures
            r.access_spec() == access,
            r.api_url_spec() == self.api_url_spec(),
            r.options_spec() == self.options_spec(),
    {
        proof {
            use_type_invariant(&self);
        }
        GPTClient { access, api_url: self.api_url, gpt_options: self.gpt_options }
    }

    /// The client sending to another endpoint address.
    pub fn with_new_url(self, api_url: String) -> (r: GPTClient)
        ensures
            r.access_spec() == self.access_spec(),
            r.api_url_spec() == api_url@,
            r.options_spec() == self.options_spec(),
    {
        proof {
            use_type_invariant(&self);
        }
        GPTClient { access: self.access, api_url, gpt_options: self.gpt_options }
    }

    /// The client using another model.
    pub fn with_model(self, model: &str) -> (r: GPTClient)
        ensures
            r.access_spec() == self.access_spec(),
            r.api_url_spec() == self.api_url_spec(),
            r.options_spec().model@ == model@,
            r.options_spec().temperature == self.options_spec().temperature,
            r.options_spec().max_tokens == self.options_spec().max_tokens,
    {
        proof {
            use_type_invariant(&self);
        }
        let options = GPTOptions {
            model: String::from_str(model),
            temperature: self.gpt_options.temperature,
            max_tokens: self.gpt_options.max_tokens,
        };
        GPTClient { access: self.access, api_url: self.api_url, gpt_options: options }
    }

    /// The client with another temperature, given in thousandths; a value
    /// above `1000` (that is, above 1.0) is a configuration error.
    pub fn with_temperature(self, temperature: u32) -> (r: Result<GPTClient, GPTError>)
        ensures
            temperature <= 1000 <==> r is Ok,
            r is Err ==> r->Err_0 is ConfigError,
            r matches Ok(c) ==> {
                &&& c.access_spec() == self.access_spec()
                &&& c.api_url_spec() == self.api_url_spec()
                &&& c.options_spec().model == self.options_spec().model
                &&& c.options_spec().temperature == temperature
                &&& c.options_spec().max_tokens == self.options_spec().max_tokens
            },
    {
        proof {
            use_type_invariant(&self);
        }
        if temperature > 1000 {
            return Err(
                GPTError::ConfigError {
                    description: String::from_str("температура должна быть от 0 до 1"),
                },
            );
        }
        let options = GPTOptions {
            model: self.gpt_options.model,
            temperature,
            max_tokens: self.gpt_options.max_tokens,
        };
        Ok(GPTClient { access: self.access, api_url: self.api_url, gpt_options: options })
    }

    /// The client with another bound on the answer's size; a bound that is
    /// not positive is a configuration error.
    pub fn with_max_tokens(self, max_tokens: i64) -> (r: Result<GPTClient, GPTError>)
        ensures
            max_tokens > 0 <==> r is Ok,
            r is Err ==> r->Err_0 is ConfigError,
            r matches Ok(c) ==> {
                &&& c.access_spec() == self.access_spec()
                &&& c.api_url_spec() == self.api_url_spec()
                &&& c.options_spec().model == self.options_spec().model
                &&& c.options_spec().temperature == self.options_spec().temperature
                &&& c.options_spec().max_tokens == max_tokens
            },
    {
        proof {
            use_type_invariant(&self);
        }
        if max_tokens <= 0 {
            return Err(
                GPTError::ConfigError {
                    description: String::from_str("количество токенов должно быть больше 0"),
                },
            );
        }
        let options = GPTOptions {
            model: self.gpt_options.model,
            temperature: self.gpt_options.temperature,
            max_tokens,
        };
        Ok(GPTClient { access: self.access, api_url: self.api_url, gpt_options: options })
    }

    /// The model URI: `gpt://{catalog-id}/{model-name}`.
    pub fn model_uri(&self) -> (r: String)
        ensures
            r@ == self.model_uri_spec(),
    {
        String::from_str("gpt://").concat(self.access.id_catalog.as_str()).concat("/").concat(
            self.gpt_options.model.as_str(),
        )
    }

    /// The value of the authorization header: `Api-Key {key}`.
    pub fn auth_header(&self) -> (r: String)
        ensures
            r@ == "Api-Key "@ + self.access_spec().api_key@,
    {
        String::from_str("Api-Key ").concat(self.access.api_key.as_str())
    }

    /// A request carrying `messages` as they are.
    pub fn build_request(&self, messages: Vec<ChatMessage>) -> (r: ApiRequest)
        ensures
            r.model_uri@ == self.model_uri_spec(),
            r.completion_options == self.completion_options_spec(),
            r.messages == messages,
    {
        let completion_options = CompletionOptions {
            stream: false,
            temperature: self.gpt_options.temperature,
            max_tokens: self.gpt_options.max_tokens,
        };
        ApiRequest { model_uri: self.model_uri(), completion_options, messages }
    }

    /// A request of a single user message holding `prompt`.
    pub fn build_ask_request(&self, prompt: &str) -> (r: ApiRequest)
        ensures
            self.is_request_for(r, seq![prompt@], |i: int| "user"@),
    {
        let mut messages: Vec<ChatMessage> = Vec::new();
        messages.push(ChatMessage { role: String::from_str("user"), text: String::from_str(prompt) });
        let r = self.build_request(messages);
        r
    }

    /// A request carrying the history `messages` in order, the message at
    /// position `i` under role `role_at(i)`.
    pub fn build_chat_request(&self, messages: &[String]) -> (r: ApiRequest)
        ensures
            self.is_request_for(r, messages@.map_values(|m: String| m@), |i: int| role_at(i)),
    {
        let mut msg_pack: Vec<ChatMessage> = Vec::new();
        let mut i: usize = 0;
        while i < messages.len()
            invariant
                i <= messages@.len(),
                msg_pack@.len() == i,
                forall|j: int|
                    0 <= j < i ==> #[trigger] msg_pack@[j].text@ == messages@[j]@
                        && msg_pack@[j].role@ == role_at(j),
            decreases messages@.len() - i,
        {
            let role = if i % 2 == 0 {
                String::from_str("assistant")
            } else {
                String::from_str("user")
            };
            assert(role@ == role_at(i as int));
            let text = messages[i].clone();
            msg_pack.push(ChatMessage { role, text });
            i = i + 1;
        }
        self.build_request(msg_pack)
    }

    /// The single-prompt request, or `InvalidCredential` when a part of the
    /// credentials is blank; nothing is to be sent in that case.
    pub fn prepare_ask(&self, prompt: &str) -> (r: Result<ApiRequest, GPTError>)
        ensures
            self.access_spec().has_data_spec() <==> r is Ok,
            r is Err ==> r->Err_0 is InvalidCredential,
            r matches Ok(req) ==> self.is_request_for(req, seq![prompt@], |i: int| "user"@),
    {
        if !self.access.has_data() {
            return Err(GPTError::InvalidCredential);
        }
        Ok(self.build_ask_request(prompt))
    }

    /// The chat request for `messages`, or `InvalidCredential` when a part of
    /// the credentials is blank; nothing is to be sent in that case.
    pub fn prepare_chat(&self, messages: &[String]) -> (r: Result<ApiRequest, GPTError>)
        ensures
            self.access_spec().has_data_spec() <==> r is Ok,
            r is Err ==> r->Err_0 is InvalidCredential,
            r matches Ok(req) ==> self.is_request_for(
                req,
                messages@.map_values(|m: String| m@),
                |i: int| role_at(i),
            ),
    {
        if !self.access.has_data() {
            return Err(GPTError::InvalidCredential);
        }
        Ok(self.build_chat_request(messages))
    }
}

} // verus!
