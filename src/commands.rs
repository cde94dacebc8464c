//! The rules of the request commands: service addresses, the shape of
//! requests and replies, image checks and activation codes.
use vstd::prelude::*;
use crate::config::{texts_view, ConfigState};
use crate::json::{json_document, parse_json, text_field, text_member, text_view};
use crate::relay::WsConnectionState;
use crate::text::{contains_text, copy_texts, drop_chars, has_prefix, join, starts_with_spec};

verus! {

/// The service address used when none is configured.
pub open spec fn default_base_url() -> Seq<char> {
    "http://localhost:8000"@
}

/// The configured service address, or the local default.
pub fn api_base_url(configured: Option<String>) -> (r: String)
    ensures
        r@ == match configured {
            Some(c) => c@,
            None => default_base_url(),
        },
{
    match configured {
        Some(c) => c,
        None => String::from_str("http://localhost:8000"),
    }
}

/// The service address with its scheme rewritten for WebSocket use.
pub open spec fn ws_base_spec(base: Seq<char>) -> Seq<char> {
    if starts_with_spec(base, "http://"@) {
        "ws://"@ + base.subrange(7, base.len() as int)
    } else if starts_with_spec(base, "https://"@) {
        "wss://"@ + base.subrange(8, base.len() as int)
    } else {
        base
    }
}

/// The relay endpoint for a service address, with the credential as a query parameter.
pub open spec fn relay_url_spec(base: Seq<char>, api_key: Seq<char>) -> Seq<char> {
    ws_base_spec(base) + "/infer/ws?api_key="@ + api_key
}

/// Rewrites `http://` to `ws://` and `https://` to `wss://`.
pub fn ws_base(base: &str) -> (r: String)
    ensures
        r@ == ws_base_spec(base@),
{
    proof {
        reveal_strlit("http://");
        reveal_strlit("https://");
    }
    if has_prefix(base, "http://") {
        let rest = drop_chars(base, 7);
        join("ws://", rest.as_str())
    } else if has_prefix(base, "https://") {
        let rest = drop_chars(base, 8);
        join("wss://", rest.as_str())
    } else {
        String::from_str(base)
    }
}

/// The address to dial for the relay.
pub fn relay_url(base: &str, api_key: &str) -> (r: String)
    ensures
        r@ == relay_url_spec(base@, api_key@),
{
    let ws = ws_base(base);
    let with_path = join(ws.as_str(), "/infer/ws?api_key=");
    join(with_path.as_str(), api_key)
}

/// The address of a service endpoint: the base followed by `path`.
pub fn endpoint_url(base: &str, path: &str) -> (r: String)
    ensures
        r@ == base@ + path@,
{
    join(base, path)
}

/// A single-modality detection request.
pub struct SingleModeRequest {
    pub mode: String,
    pub modality: String,
    pub images: Vec<String>,
}

/// A visible/infrared image pair of a fusion request.
pub struct ImagePair {
    pub rgb: String,
    pub ir: String,
}

/// A fusion-mode detection request.
pub struct FusionModeRequest {
    pub mode: String,
    pub pairs: Vec<ImagePair>,
}

/// The service's reply to a job submission.
pub struct AsyncTaskResponse {
    pub task_id: String,
    pub message: String,
}

/// The `task_id` and `message` of a job submission reply, when both are strings.
pub open spec fn task_reply_spec(text: Seq<char>) -> Option<(Seq<char>, Seq<char>)> {
    match json_document(text) {
        Some(v) => match (text_member(v, "task_id"@), text_member(v, "message"@)) {
            (Some(t), Some(m)) => Some((t, m)),
            _ => None,
        },
        None => None,
    }
}

/// Reads the reply to a job submission.
pub fn parse_task_response(text: &str) -> (r: Option<AsyncTaskResponse>)
    ensures
        match r {
            Some(a) => task_reply_spec(text@) == Some((a.task_id@, a.message@)),
            None => task_reply_spec(text@).is_none(),
        },
{
    let v = match parse_json(text) {
        Some(v) => v,
        None => return None,
    };
    match (text_field(&v, "task_id"), text_field(&v, "message")) {
        (Some(task_id), Some(message)) => Some(AsyncTaskResponse { task_id, message }),
        _ => None,
    }
}

/// Why an image was refused.
pub enum ImageError {
    NotFound(String),
    NotAFile(String),
    NoExtension(String),
    Unsupported { extension: String, supported: Vec<String> },
}

/// The lower-case form of a text, as `str::to_lowercase` gives it.
pub uninterp spec fn lower_of(s: Seq<char>) -> Seq<char>;

/// Relies on `str::to_lowercase`: the result depends on the characters alone.
#[verifier::external_body]
fn lowercase(s: &str) -> (r: String)
    ensures
        r@ == lower_of(s@),
{
    s.to_lowercase()
}

/// Whether `r` is the verdict on the lower-cased extension `e` against `formats`.
pub open spec fn extension_verdict(r: Result<bool, ImageError>, e: Seq<char>, formats: Seq<Seq<char>>) -> bool {
    if formats.contains(e) {
        r matches Ok(true)
    } else {
        match r {
            Err(ImageError::Unsupported { extension, supported }) => extension@ == e && texts_view(
                supported@,
            ) == formats,
            _ => false,
        }
    }
}

/// Accepts an already lower-cased extension when the configuration lists it.
pub fn check_extension(extension: &str, config: &ConfigState) -> (r: Result<bool, ImageError>)
    ensures
        extension_verdict(r, extension@, texts_view(config.0.image.supported_formats@)),
{
    if contains_text(&config.0.image.supported_formats, extension) {
        Ok(true)
    } else {
        Err(
            ImageError::Unsupported {
                extension: String::from_str(extension),
                supported: copy_texts(&config.0.image.supported_formats),
            },
        )
    }
}

/// Checks an image file: it must exist, be a file, and have an extension
/// that, lower-cased, the configuration lists.
pub fn validate_image(
    image_path: &str,
    exists: bool,
    is_file: bool,
    extension: Option<&str>,
    config: &ConfigState,
) -> (r: Result<bool, ImageError>)
    ensures
        !exists ==> (r matches Err(ImageError::NotFound(p)) && p@ == image_path@),
        exists && !is_file ==> (r matches Err(ImageError::NotAFile(p)) && p@ == image_path@),
        exists && is_file && extension.is_none() ==> (r matches Err(ImageError::NoExtension(p))
            && p@ == image_path@),
        exists && is_file && extension.is_some() ==> extension_verdict(
            r,
            lower_of(extension.unwrap()@),
            texts_view(config.0.image.supported_formats@),
        ),
{
    if !exists {
        return Err(ImageError::NotFound(String::from_str(image_path)));
    }
    if !is_file {
        return Err(ImageError::NotAFile(String::from_str(image_path)));
    }
    match extension {
        Some(ext) => {
            let lowered = lowercase(ext);
            check_extension(lowered.as_str(), config)
        },
        None => Err(ImageError::NoExtension(String::from_str(image_path))),
    }
}

/// An activation request from the interface.
pub struct ActivateRequest {
    pub activation_code: String,
}

/// The outcome of an activation, for the interface.
pub struct ActivateResponse {
    pub success: bool,
    pub message: String,
    pub api_key: Option<String>,
    pub expires_at: Option<String>,
}

/// An activation code has the prefix `ACT-` and at least one more character.
pub open spec fn well_formed_code(code: Seq<char>) -> bool {
    code.len() >= 5 && code.subrange(0, 4) == seq!['A', 'C', 'T', '-']
}

pub fn is_well_formed_code(code: &str) -> (r: bool)
    ensures
        r == well_formed_code(code@),
{
    proof {
        reveal_strlit("ACT-");
        assert("ACT-"@ =~= seq!['A', 'C', 'T', '-']);
    }
    has_prefix(code, "ACT-") && code.unicode_len() >= 5
}

/// The reason given for a malformed activation code.
pub open spec fn malformed_code_message() -> Seq<char> {
    "激活码格式不正确"@
}

/// The refusal of a malformed code, given before the service is asked.
pub fn check_activation_request(request: &ActivateRequest) -> (r: Option<ActivateResponse>)
    ensures
        well_formed_code(request.activation_code@) <==> r.is_none(),
        r matches Some(resp) ==> (!resp.success && resp.message@ == malformed_code_message()
            && resp.api_key.is_none() && resp.expires_at.is_none()),
{
    if is_well_formed_code(request.activation_code.as_str()) {
        None
    } else {
        Some(ActivateResponse::rejected(String::from_str("激活码格式不正确")))
    }
}

/// The fields of the service's activation reply: `api_key` and `message`
/// strings, and an optional `expires_at` string.
pub open spec fn activation_reply_spec(text: Seq<char>) -> Option<(Seq<char>, Seq<char>, Option<Seq<char>>)> {
    match json_document(text) {
        Some(v) => match (text_member(v, "api_key"@), text_member(v, "message"@)) {
            (Some(k), Some(m)) => Some((k, m, text_member(v, "expires_at"@))),
            _ => None,
        },
        None => None,
    }
}

impl ActivateResponse {
    /// A failed activation with its reason.
    pub fn rejected(message: String) -> (r: ActivateResponse)
        ensures
            !r.success,
            r.message == message,
            r.api_key.is_none(),
            r.expires_at.is_none(),
    {
        ActivateResponse { success: false, message, api_key: None, expires_at: None }
    }

    /// Reads the service's activation reply into a successful response.
    pub fn from_reply(text: &str) -> (r: Option<ActivateResponse>)
        ensures
            match activation_reply_spec(text@) {
                Some((k, m, e)) => r matches Some(resp) && resp.success && resp.message@ == m
                    && text_view(resp.api_key) == Some(k) && text_view(resp.expires_at) == e,
                None => r.is_none(),
            },
    {
        let v = match parse_json(text) {
            Some(v) => v,
            None => return None,
        };
        match (text_field(&v, "api_key"), text_field(&v, "message")) {
            (Some(api_key), Some(message)) => Some(
                ActivateResponse {
                    success: true,
                    message,
                    api_key: Some(api_key),
                    expires_at: text_field(&v, "expires_at"),
                },
            ),
            _ => None,
        }
    }
}

/// The relay status as the interface asks for it.
pub fn get_ws_status(state: &WsConnectionState) -> (r: Result<(Option<String>, bool), String>)
    ensures
        r matches Ok(s) && text_view(s.0) == state@.client_id && s.1 == state@.is_connected,
{
    Ok(state.status())
}

} // verus!
