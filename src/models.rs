//! Data exchanged with the completion endpoint, and the credentials that
//! authorize it.

use vstd::prelude::*;
use crate::text::{trim_text, trimmed};
use vstd::utf8::{decode_utf8, encode_utf8, is_char_boundary};

verus! {

broadcast use {vstd::utf8::encode_utf8_valid_utf8, vstd::utf8::encode_utf8_decode_utf8};

/// Address of the completion endpoint.
pub const URL_API: &'static str = "https://llm.api.cloud.yandex.net/foundationModels/v1/completion";

/// Model used when none is chosen.
pub const DEFAULT_MODEL: &'static str = "yandexgpt/latest";

/// Number of leading bytes of a secret left readable by masking.
pub const VISIBLE_BYTES: usize = 5;

/// Generation options: model name, temperature in thousandths (`700` stands
/// for `0.7`) and the bound on the answer's size in tokens.
#[derive(Debug, Clone)]
pub struct GPTOptions {
    pub model: String,
    pub temperature: u32,
    pub max_tokens: i64,
}

impl GPTOptions {
    /// Options within their allowed ranges: temperature in `[0, 1]` and a
    /// positive token bound.
    pub open spec fn valid(&self) -> bool {
        self.temperature <= 1000 && self.max_tokens > 0
    }

    /// The default options: the latest model, temperature 0.7, 2000 tokens.
    pub fn default_options() -> (r: GPTOptions)
        ensures
            r.model@ == DEFAULT_MODEL@,
            r.temperature == 700,
            r.max_tokens == 2000,
            r.valid(),
    {
        GPTOptions { model: String::from_str(DEFAULT_MODEL), temperature: 700, max_tokens: 2000 }
    }
}

/// Credentials of the completion endpoint: the catalog identifier and the
/// secret API key.
#[derive(Debug, Clone)]
pub struct AccessData {
    pub id_catalog: String,
    pub api_key: String,
}

/// The greatest character boundary of `bytes` that is at most `n`.
pub open spec fn boundary_at_most(bytes: Seq<u8>, n: nat) -> nat
    decreases n,
{
    if n == 0 || is_char_boundary(bytes, n as int) {
        n
    } else {
        boundary_at_most(bytes, (n - 1) as nat)
    }
}

/// A secret as displayed: when its UTF-8 encoding is longer than five bytes,
/// its first five bytes followed by five stars; where byte five falls inside
/// a character, the prefix stops at the start of that character.
pub open spec fn masked(key: Seq<char>) -> Seq<char> {
    let bytes = encode_utf8(key);
    if bytes.len() <= VISIBLE_BYTES {
        key
    } else {
        decode_utf8(bytes.subrange(0, boundary_at_most(bytes, VISIBLE_BYTES as nat) as int))
            + "*****"@
    }
}

impl AccessData {
    /// Credentials with both parts present after trimming.
    pub open spec fn has_data_spec(&self) -> bool {
        trimmed(self.id_catalog@).len() > 0 && trimmed(self.api_key@).len() > 0
    }

    pub fn new(id_catalog: String, api_key: String) -> (r: AccessData)
        ensures
            r.id_catalog == id_catalog,
            r.api_key == api_key,
    {
        AccessData { id_catalog, api_key }
    }

    /// Credentials with both parts empty.
    pub fn empty() -> (r: AccessData)
        ensures
            r.id_catalog@.len() == 0,
            r.api_key@.len() == 0,
    {
        AccessData { id_catalog: String::new(), api_key: String::new() }
    }

    /// Whether both the catalog identifier and the key are non-blank.
    pub fn has_data(&self) -> (r: bool)
        ensures
            r == self.has_data_spec(),
    {
        !trim_text(self.id_catalog.as_str()).is_empty() && !trim_text(
            self.api_key.as_str(),
        ).is_empty()
    }

    /// Whether an entered catalog identifier is acceptable: it is non-empty.
    pub fn validator_id_catalog(input: &str) -> (r: bool)
        ensures
            r == (input@.len() > 0),
    {
        !input.is_empty()
    }

    /// Whether an entered API key is acceptable: it is non-empty.
    pub fn validator_api_key(input: &str) -> (r: bool)
        ensures
            r == (input@.len() > 0),
    {
        !input.is_empty()
    }

    /// `key` with all but its first few characters hidden.
    pub fn mask_key(&self, key: &str) -> (r: String)
        ensures
            r@ == masked(key@),
    {
        if key.as_bytes().len() <= VISIBLE_BYTES {
            return String::from_str(key);
        }
        let mut end: usize = VISIBLE_BYTES;
        while end > 0 && !key.is_char_boundary(end)
            invariant
                end <= VISIBLE_BYTES,
                boundary_at_most(encode_utf8(key@), end as nat) == boundary_at_most(
                    encode_utf8(key@),
                    VISIBLE_BYTES as nat,
                ),
            decreases end,
        {
            end = end - 1;
        }
        let (visible, _) = key.split_at(end);
        proof {
            assert(visible@ == decode_utf8(encode_utf8(visible@)));
        }
        String::from_str(visible).concat("*****")
    }

    /// The credentials as displayed, with both parts masked.
    pub fn display_text(&self) -> (r: String)
        ensures
            r@ == "AccessData | id-catalog: "@ + masked(self.id_catalog@) + ", api-key: "@
                + masked(self.api_key@) + "\n"@,
    {
        let id = self.mask_key(self.id_catalog.as_str());
        let key = self.mask_key(self.api_key.as_str());
        String::from_str("AccessData | id-catalog: ").concat(id.as_str()).concat(
            ", api-key: ",
        ).concat(key.as_str()).concat("\n")
    }
}

/// Options sent with a request; `temperature` is in thousandths.
#[derive(Debug, Clone, Copy, PartialEq, Eq, Structural)]
pub struct CompletionOptions {
    pub stream: bool,
    pub temperature: u32,
    pub max_tokens: i64,
}

/// One role-tagged message of a request.
#[derive(Debug, Clone)]
pub struct ChatMessage {
    pub role: String,
    pub text: String,
}

/// A request to the completion endpoint.
#[derive(Debug, Clone)]
pub struct ApiRequest {
    pub model_uri: String,
    pub completion_options: CompletionOptions,
    pub messages: Vec<ChatMessage>,
}

/// The decoded success reply of the completion endpoint.
#[derive(Debug, Clone)]
pub struct ApiResponse {
    pub result: ResultField,
}

#[derive(Debug, Clone)]
pub struct ResultField {
    pub alternatives: Vec<Alternative>,
}

/// One candidate completion.
#[derive(Debug, Clone)]
pub struct Alternative {
    pub message: Message,
}

#[derive(Debug, Clone)]
pub struct Message {
    pub text: String,
}

} // verus!
