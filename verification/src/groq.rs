//! Reading the text of an image with the Groq chat completion API: what is
//! sent, and what is made of the answer. Sending is left to the caller.

use vstd::prelude::*;
use vstd::string::StringExecFns;

verus! {

/// `serde_json::Value`, a JSON value. What it holds is known only through
/// the functions below.
#[verifier::external_type_specification]
#[verifier::external_body]
pub struct ExJsonValue(serde_json::Value);

/// The text that `base64`'s `STANDARD` engine gives for the bytes.
pub uninterp spec fn base64_standard(bytes: Seq<u8>) -> Seq<char>;

/// The value that `serde_json::from_str` reads from the text; `None` where
/// it reports an error.
pub uninterp spec fn json_document(text: Seq<char>) -> Option<serde_json::Value>;

/// The member that `serde_json::Value::get` finds under the key.
pub uninterp spec fn json_member(value: serde_json::Value, key: Seq<char>) -> Option<
    serde_json::Value,
>;

/// The element that `serde_json::Value::get` finds at the index.
pub uninterp spec fn json_element(value: serde_json::Value, index: usize) -> Option<
    serde_json::Value,
>;

/// The text that `serde_json::Value::as_str` finds in the value.
pub uninterp spec fn json_string(value: serde_json::Value) -> Option<Seq<char>>;

/// The lengths that can be encoded: four characters stand for every three
/// bytes or part of three, and their number must fit `usize`.
pub open spec fn encodable(len: nat) -> bool {
    (len / 3) * 4 + (if len % 3 > 0 {
        4nat
    } else {
        0nat
    }) <= usize::MAX
}

/// Calls `encode` of `base64::engine::general_purpose::STANDARD`. The call
/// panics where the length of its result does not fit `usize`: those
/// inputs are left out. Of the text nothing is claimed but that it is the
/// one `base64_standard` names.
#[verifier::external_body]
fn encode_standard(bytes: &[u8]) -> (text: String)
    requires
        encodable(bytes@.len()),
    ensures
        text@ == base64_standard(bytes@),
{
    base64::Engine::encode(&base64::engine::general_purpose::STANDARD, bytes)
}

/// Calls `serde_json::from_str` for a `serde_json::Value`.
#[verifier::external_body]
fn parse(text: &str) -> (res: Result<serde_json::Value, serde_json::Error>)
    ensures
        match res {
            Ok(value) => json_document(text@) == Some(value),
            Err(_) => json_document(text@) is None,
        },
{
    serde_json::from_str(text)
}

/// Calls `serde_json::Value::get` with a key: the member of that name if
/// the value is an object that has one.
#[verifier::external_body]
fn member<'a>(value: &'a serde_json::Value, key: &str) -> (res: Option<&'a serde_json::Value>)
    ensures
        match res {
            Some(found) => json_member(*value, key@) == Some(*found),
            None => json_member(*value, key@) is None,
        },
{
    value.get(key)
}

/// Calls `serde_json::Value::get` with an index: the element at that place
/// if the value is an array that is long enough.
#[verifier::external_body]
fn element<'a>(value: &'a serde_json::Value, index: usize) -> (res: Option<&'a serde_json::Value>)
    ensures
        match res {
            Some(found) => json_element(*value, index) == Some(*found),
            None => json_element(*value, index) is None,
        },
{
    value.get(index)
}

/// Calls `serde_json::Value::as_str`: the text if the value is a string.
#[verifier::external_body]
fn string<'a>(value: &'a serde_json::Value) -> (res: Option<&'a str>)
    ensures
        match res {
            Some(text) => json_string(*value) == Some(text@),
            None => json_string(*value) is None,
        },
{
    value.as_str()
}

/// The address that the request is posted to.
pub fn api_endpoint() -> (url: &'static str)
    ensures
        url@ == "https://api.groq.com/openai/v1/chat/completions"@,
{
    "https://api.groq.com/openai/v1/chat/completions"
}

/// The model that is asked.
pub fn vision_model() -> (model: &'static str)
    ensures
        model@ == "meta-llama/llama-4-scout-17b-16e-instruct"@,
{
    "meta-llama/llama-4-scout-17b-16e-instruct"
}

/// What the model is asked to do with the image.
pub fn prompt() -> (text: &'static str)
    ensures
        text@ == "Write me the text in the image, return the following JSON: {\"text\": \"\"}"@,
{
    "Write me the text in the image, return the following JSON: {\"text\": \"\"}"
}

/// The value of the request's authorization header.
pub fn authorization(api_key: &str) -> (header: String)
    ensures
        header@ == "Bearer "@ + api_key@,
{
    let mut header = String::from_str("Bearer ");
    header.append(api_key);
    header
}

/// The image as a data URL: a PNG in base64. An image too long to encode
/// has none.
pub fn image_data_url(img_data: &[u8]) -> (url: Option<String>)
    ensures
        url is Some <==> encodable(img_data@.len()),
        url matches Some(u) ==> u@ == "data:image/png;base64,"@ + base64_standard(img_data@),
{
    let chunks: usize = img_data.len() / 3;
    let fits = chunks <= usize::MAX / 4 && (img_data.len() % 3 == 0 || chunks * 4 <= usize::MAX
        - 4);
    if fits {
        let mut url = String::from_str("data:image/png;base64,");
        let encoded = encode_standard(img_data);
        url.append(encoded.as_str());
        Some(url)
    } else {
        None
    }
}

/// The text of the first choice's message in an answer: the string under
/// `choices`, index 0, `message`, `content`.
pub open spec fn response_content(response: serde_json::Value) -> Option<Seq<char>> {
    match json_member(response, "choices"@) {
        Some(choices) => match json_element(choices, 0) {
            Some(choice) => match json_member(choice, "message"@) {
                Some(message) => match json_member(message, "content"@) {
                    Some(content) => json_string(content),
                    None => None,
                },
                None => None,
            },
            None => None,
        },
        None => None,
    }
}

/// The text that an answered content holds: the content is itself a JSON
/// document, and the text is the string under `text`.
pub open spec fn content_text(content: Seq<char>) -> Option<Seq<char>> {
    match json_document(content) {
        Some(document) => match json_member(document, "text"@) {
            Some(text) => json_string(text),
            None => None,
        },
        None => None,
    }
}

/// The text that an answer holds.
pub open spec fn response_text(response: serde_json::Value) -> Option<Seq<char>> {
    match response_content(response) {
        Some(content) => content_text(content),
        None => None,
    }
}

/// The content of the first choice's message, if the answer has one.
pub fn get_content<'a>(response: &'a serde_json::Value) -> (content: Option<&'a str>)
    ensures
        content is Some <==> response_content(*response) is Some,
        content matches Some(c) ==> response_content(*response) == Some(c@),
{
    let choices = match member(response, "choices") {
        Some(value) => value,
        None => {
            return None;
        },
    };
    let choice = match element(choices, 0) {
        Some(value) => value,
        None => {
            return None;
        },
    };
    let message = match member(choice, "message") {
        Some(value) => value,
        None => {
            return None;
        },
    };
    match member(message, "content") {
        Some(value) => string(value),
        None => None,
    }
}

/// The text that a content holds, if it is a JSON document with a string
/// under `text`.
pub fn get_content_text(content: &str) -> (text: Option<String>)
    ensures
        text is Some <==> content_text(content@) is Some,
        text matches Some(t) ==> content_text(content@) == Some(t@),
{
    let document = match parse(content) {
        Ok(value) => value,
        Err(_) => {
            return None;
        },
    };
    let found = match member(&document, "text") {
        Some(value) => string(value),
        None => None,
    };
    match found {
        Some(text) => Some(String::from_str(text)),
        None => None,
    }
}

/// The text that the model read in the image, taken from its answer.
pub fn get_text_from_response(response: &serde_json::Value) -> (text: Option<String>)
    ensures
        text is Some <==> response_text(*response) is Some,
        text matches Some(t) ==> response_text(*response) == Some(t@),
{
    match get_content(response) {
        Some(content) => get_content_text(content),
        None => None,
    }
}

} // verus!
