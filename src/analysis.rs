//! The remote analysis exchange: which images may be sent, the request that
//! carries one, and what the response means.
//!
//! A request can only be built for an image that passed the artifact-root
//! policy; the session of [`crate::exchange`] runs these steps in order.
use vstd::prelude::*;
use crate::context::{context_text, format_context_info, ContextInfo};
use crate::error::ReportError;
use crate::paths::{artifact_outcome, sidecar_of, sidecar_path, validate_pictures_path, PathProbe};

verus! {

/// The multimodal chat-completion endpoint.
pub const ENDPOINT: &'static str = "https://ai-gateway.vercel.sh/v1/chat/completions";

/// The content type of a request body.
pub const CONTENT_TYPE: &'static str = "application/json";

/// What base64 (standard alphabet, padded) makes of `bytes`.
pub uninterp spec fn base64_of(bytes: Seq<u8>) -> Seq<char>;

/// The lowercase hexadecimal digit of `d`.
pub open spec fn hex_char(d: nat) -> char {
    if d < 10 {
        crate::text::digit_char(d)
    } else if d == 10 {
        'a'
    } else if d == 11 {
        'b'
    } else if d == 12 {
        'c'
    } else if d == 13 {
        'd'
    } else if d == 14 {
        'e'
    } else {
        'f'
    }
}

/// How a JSON string writes the character `c`: quote and backslash behind a
/// backslash, the usual short escapes for backspace, tab, line feed, form
/// feed and carriage return, other control characters as `\u00xx`, and
/// every other character as itself.
pub open spec fn json_escape(c: char) -> Seq<char> {
    if c == '"' {
        seq!['\\', '"']
    } else if c == '\\' {
        seq!['\\', '\\']
    } else if c == '\u{8}' {
        seq!['\\', 'b']
    } else if c == '\t' {
        seq!['\\', 't']
    } else if c == '\n' {
        seq!['\\', 'n']
    } else if c == '\u{c}' {
        seq!['\\', 'f']
    } else if c == '\r' {
        seq!['\\', 'r']
    } else if (c as u32) < 0x20 {
        seq!['\\', 'u', '0', '0', hex_char((c as u32 / 16) as nat), hex_char((c as u32 % 16) as nat)]
    } else {
        seq![c]
    }
}

/// The characters of `s`, each written as a JSON string writes it.
pub open spec fn json_escaped(s: Seq<char>) -> Seq<char>
    decreases s.len(),
{
    if s.len() == 0 {
        Seq::empty()
    } else {
        json_escaped(s.drop_last()) + json_escape(s.last())
    }
}

/// The JSON string literal of `s`, quotes included.
pub open spec fn json_quoted(s: Seq<char>) -> Seq<char> {
    seq!['"'] + json_escaped(s) + seq!['"']
}

/// Relies on base64's STANDARD engine (`Engine::encode`): padded output of
/// four characters per started group of three bytes. It panics where that
/// length overflows, which `requires` leaves out.
#[verifier::external_body]
fn encode_base64(bytes: &[u8]) -> (r: String)
    requires
        (bytes@.len() + 2) / 3 * 4 <= usize::MAX,
    ensures
        r@ == base64_of(bytes@),
        r@.len() == (bytes@.len() + 2) / 3 * 4,
{
    base64::Engine::encode(&base64::engine::general_purpose::STANDARD, bytes)
}

/// Relies on the Display impl of serde_json::Value for a `Value::String`:
/// the string as a JSON string literal in the compact format, escaped by
/// serde_json's escape table and quoted.
#[verifier::external_body]
fn quote_json(s: &str) -> (r: String)
    ensures
        r@ == json_quoted(s@),
{
    serde_json::Value::String(s.to_string()).to_string()
}

/// An image that passed the artifact-root policy: the only images that a
/// request can carry.
pub struct AuthorizedImage {
    path: String,
}

impl AuthorizedImage {
    /// The canonical path of the image.
    pub closed spec fn path_spec(&self) -> Seq<char> {
        self.path@
    }

    /// The canonical path of the image, to be read.
    pub fn path(&self) -> (r: &str)
        ensures
            r@ == self.path_spec(),
    {
        self.path.as_str()
    }

    /// Where the result of analysing this image is kept.
    pub fn sidecar_path(&self) -> (r: String)
        ensures
            r@ == sidecar_of(self.path_spec()),
    {
        sidecar_path(self.path.as_str())
    }
}

/// Admits the probed image for analysis only where it lies in the
/// application's own output tree `artifact_root`.
pub fn authorize_image(image: PathProbe, artifact_root: Option<String>) -> (r: Result<
    AuthorizedImage,
    ReportError,
>)
    ensures
        match artifact_outcome(image, artifact_root) {
            Ok(p) => r is Ok && r->Ok_0.path_spec() == p@,
            Err(e) => r is Err && r->Err_0 == e,
        },
{
    let path = validate_pictures_path(image, artifact_root)?;
    Ok(AuthorizedImage { path })
}

/// Whether the file name ends in `.png`, in any letter case.
pub open spec fn has_png_suffix(path: Seq<char>) -> bool {
    &&& path.len() >= 4
    &&& path[path.len() - 4] == '.'
    &&& (path[path.len() - 3] == 'p' || path[path.len() - 3] == 'P')
    &&& (path[path.len() - 2] == 'n' || path[path.len() - 2] == 'N')
    &&& (path[path.len() - 1] == 'g' || path[path.len() - 1] == 'G')
}

/// The MIME type of an image, by its file name.
pub open spec fn mime_of(path: Seq<char>) -> Seq<char> {
    if has_png_suffix(path) {
        "image/png"@
    } else {
        "image/jpeg"@
    }
}

/// The MIME type of the image at `path`: PNG for a `.png` suffix in any
/// letter case, JPEG otherwise.
pub fn mime_type_for(path: &str) -> (r: &'static str)
    ensures
        r@ == mime_of(path@),
{
    let n = path.unicode_len();
    if n >= 4 && path.get_char(n - 4) == '.' {
        let p = path.get_char(n - 3);
        let m = path.get_char(n - 2);
        let g = path.get_char(n - 1);
        if (p == 'p' || p == 'P') && (m == 'n' || m == 'N') && (g == 'g' || g == 'G') {
            return "image/png";
        }
    }
    "image/jpeg"
}

/// The prompt sent: the user's prompt followed by the context block.
pub open spec fn prompt_text(prompt: Seq<char>, info: ContextInfo) -> Seq<char> {
    prompt + context_text(info)
}

/// The inline image of a request that carries `bytes`.
pub open spec fn data_url(mime: Seq<char>, bytes: Seq<u8>) -> Seq<char> {
    data_url_frame(mime, base64_of(bytes))
}

/// The inline image of a request, from its MIME type and its base64 text.
pub open spec fn data_url_frame(mime: Seq<char>, encoded: Seq<char>) -> Seq<char> {
    "data:"@ + mime + ";base64,"@ + encoded
}

/// The body of a request, from the JSON string literals of the model, the
/// prompt and the inline image: one user message holding the prompt and the
/// image, and the fixed generation parameters.
pub open spec fn body_frame(
    model_json: Seq<char>,
    prompt_json: Seq<char>,
    url_json: Seq<char>,
) -> Seq<char> {
    "{\"model\":"@ + model_json
        + ",\"messages\":[{\"role\":\"user\",\"content\":[{\"type\":\"text\",\"text\":"@
        + prompt_json + "},{\"type\":\"image_url\",\"image_url\":{\"url\":"@ + url_json
        + "}}]}],\"max_tokens\":4096,\"temperature\":0.2}"@
}

/// The body of a request for `model`, `prompt` and the inline image `url`.
pub open spec fn body_text(model: Seq<char>, prompt: Seq<char>, url: Seq<char>) -> Seq<char> {
    body_frame(json_quoted(model), json_quoted(prompt), json_quoted(url))
}

/// Writes the inline image of a request.
pub fn frame_data_url(mime: &str, encoded: &str) -> (r: String)
    ensures
        r@ == data_url_frame(mime@, encoded@),
{
    let mut url = String::from_str("data:");
    url.append(mime);
    url.append(";base64,");
    url.append(encoded);
    url
}

/// Writes the body of a request around the JSON string literals of its parts.
pub fn frame_body(model_json: &str, prompt_json: &str, url_json: &str) -> (r: String)
    ensures
        r@ == body_frame(model_json@, prompt_json@, url_json@),
{
    let mut body = String::from_str("{\"model\":");
    body.append(model_json);
    body.append(",\"messages\":[{\"role\":\"user\",\"content\":[{\"type\":\"text\",\"text\":");
    body.append(prompt_json);
    body.append("},{\"type\":\"image_url\",\"image_url\":{\"url\":");
    body.append(url_json);
    body.append("}}]}],\"max_tokens\":4096,\"temperature\":0.2}");
    body
}

/// One request to the endpoint. Only [`build_request`] makes one, and only
/// for an image that passed the artifact-root policy.
pub struct AnalysisRequest {
    url: String,
    authorization: String,
    body: String,
}

impl AnalysisRequest {
    /// The endpoint to post to.
    pub closed spec fn url_spec(&self) -> Seq<char> {
        self.url@
    }

    /// The value of the `Authorization` header.
    pub closed spec fn authorization_spec(&self) -> Seq<char> {
        self.authorization@
    }

    /// The JSON body.
    pub closed spec fn body_spec(&self) -> Seq<char> {
        self.body@
    }

    /// The endpoint to post to.
    pub fn url(&self) -> (r: &str)
        ensures
            r@ == self.url_spec(),
    {
        self.url.as_str()
    }

    /// The value of the `Authorization` header.
    pub fn authorization(&self) -> (r: &str)
        ensures
            r@ == self.authorization_spec(),
    {
        self.authorization.as_str()
    }

    /// The JSON body.
    pub fn body(&self) -> (r: &str)
        ensures
            r@ == self.body_spec(),
    {
        self.body.as_str()
    }
}

/// Builds the request that carries the authorized `image`, whose bytes are
/// `image_bytes`, with the credential `api_key`.
pub fn build_request(
    image: &AuthorizedImage,
    image_bytes: &[u8],
    api_key: &str,
    model: &str,
    prompt: &str,
    info: &ContextInfo,
) -> (r: AnalysisRequest)
    requires
        (image_bytes@.len() + 2) / 3 * 4 <= usize::MAX,
    ensures
        r.url_spec() == ENDPOINT@,
        r.authorization_spec() == "Bearer "@ + api_key@,
        r.body_spec() == body_text(
            model@,
            prompt_text(prompt@, *info),
            data_url(mime_of(image.path_spec()), image_bytes@),
        ),
{
    let mut full_prompt = String::from_str(prompt);
    let context = format_context_info(info);
    full_prompt.append(context.as_str());

    let encoded = encode_base64(image_bytes);
    let url = frame_data_url(mime_type_for(image.path()), encoded.as_str());
    let body = frame_body(
        quote_json(model).as_str(),
        quote_json(full_prompt.as_str()).as_str(),
        quote_json(url.as_str()).as_str(),
    );

    let mut authorization = String::from_str("Bearer ");
    authorization.append(api_key);
    AnalysisRequest { url: String::from_str(ENDPOINT), authorization, body }
}

/// The outcome of a response with `status`: a success status hands the body
/// on; any other becomes an error that keeps the status and drops the body.
pub open spec fn status_outcome(status: u16, body: String) -> Result<String, ReportError> {
    if 200 <= status <= 299 {
        Ok(body)
    } else {
        Err(ReportError::Http(status))
    }
}

/// Checks the status of a response whose body is `body`.
pub fn check_status(status: u16, body: String) -> (r: Result<String, ReportError>)
    ensures
        r == status_outcome(status, body),
{
    if 200 <= status && status <= 299 {
        Ok(body)
    } else {
        Err(ReportError::Http(status))
    }
}

/// A rate-limited response yields the rate-limit message, which is the same
/// whatever the response body held.
pub proof fn lemma_rate_limit_hides_body(body: String, other: String)
    ensures
        status_outcome(429, body) == Err::<String, ReportError>(ReportError::Http(429)),
        crate::error::http_class(429) == crate::error::HttpClass::RateLimited,
        crate::error::error_text(status_outcome(429, body)->Err_0)
            == crate::error::error_text(status_outcome(429, other)->Err_0),
        crate::error::error_text(status_outcome(429, body)->Err_0) == "API エラー ("@
            + crate::text::decimal(429) + "): "@ + "レート制限。しばらく待ってから再試行してください"@,
{
}

/// The parts of the provider's response envelope that matter.
#[derive(Clone, Debug)]
pub struct ProviderReply {
    /// The message of the error the envelope reports, if it reports one.
    pub error: Option<String>,
    /// The text of each completion, where the envelope lists completions.
    pub choices: Option<Vec<Option<String>>>,
}

/// What a successful response means: a reported error wins; otherwise the
/// text of the first completion, which must be there.
pub open spec fn reply_outcome(reply: ProviderReply) -> Result<String, ReportError> {
    match reply.error {
        Some(m) => Err(ReportError::Provider(m)),
        None => match reply.choices {
            Some(c) => if c@.len() > 0 && c@[0] is Some {
                Ok(c@[0]->Some_0)
            } else {
                Err(ReportError::EmptyCompletion)
            },
            None => Err(ReportError::EmptyCompletion),
        },
    }
}

/// Extracts the analysis text from the envelope of a successful response.
pub fn interpret_reply(reply: ProviderReply) -> (r: Result<String, ReportError>)
    ensures
        r == reply_outcome(reply),
{
    match reply.error {
        Some(m) => Err(ReportError::Provider(m)),
        None => match reply.choices {
            Some(mut c) => {
                if c.len() > 0 {
                    let first = c.swap_remove(0);
                    match first {
                        Some(text) => Ok(text),
                        None => Err(ReportError::EmptyCompletion),
                    }
                } else {
                    Err(ReportError::EmptyCompletion)
                }
            },
            None => Err(ReportError::EmptyCompletion),
        },
    }
}

/// The record kept beside an analysed image.
#[derive(Clone, Debug)]
pub struct AnalysisResult {
    /// When the analysis was made, in ISO 8601.
    pub timestamp: String,
    pub model: String,
    pub context: ContextInfo,
    pub analysis: String,
}

} // verus!
