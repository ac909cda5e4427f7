//! Responses as they leave on the wire.

use vstd::prelude::*;
use vstd::std_specs::convert::FromSpecImpl;
use vstd::string::StringExecFns;
use crate::error::{Error, ErrorView};
use crate::gist;
use crate::sandbox;
use crate::text::optional_text;

verus! {

/// Status of a response that carries a result.
pub const STATUS_OK: u16 = 200;

/// Status of every response that carries an error, whoever caused it.
pub const STATUS_INTERNAL_SERVER_ERROR: u16 = 500;

/// The body that is sent when an error cannot even be encoded.
pub const FATAL_ERROR_JSON: &'static str =
    "{\"error\": \"Multiple cascading errors occurred, abandon all hope\"}";

/// The outcome of a compilation, as it is sent.
#[derive(Debug, Clone, PartialEq, Eq)]
pub struct CompileResponse {
    pub success: bool,
    pub code: String,
    pub stdout: String,
    pub stderr: String,
}

impl From<sandbox::CompileResponse> for CompileResponse {
    fn from(me: sandbox::CompileResponse) -> (result: Self) {
        CompileResponse { success: me.success, code: me.code, stdout: me.stdout, stderr: me.stderr }
    }
}

impl FromSpecImpl<sandbox::CompileResponse> for CompileResponse {
    open spec fn obeys_from_spec() -> bool {
        true
    }

    open spec fn from_spec(v: sandbox::CompileResponse) -> Self {
        CompileResponse { success: v.success, code: v.code, stdout: v.stdout, stderr: v.stderr }
    }
}

/// The outcome of building and running code, as it is sent.
#[derive(Debug, Clone, PartialEq, Eq)]
pub struct ExecuteResponse {
    pub success: bool,
    pub stdout: String,
    pub stderr: String,
}

impl From<sandbox::ExecuteResponse> for ExecuteResponse {
    fn from(me: sandbox::ExecuteResponse) -> (result: Self) {
        ExecuteResponse { success: me.success, stdout: me.stdout, stderr: me.stderr }
    }
}

impl FromSpecImpl<sandbox::ExecuteResponse> for ExecuteResponse {
    open spec fn obeys_from_spec() -> bool {
        true
    }

    open spec fn from_spec(v: sandbox::ExecuteResponse) -> Self {
        ExecuteResponse { success: v.success, stdout: v.stdout, stderr: v.stderr }
    }
}

/// The outcome of formatting code, as it is sent.
#[derive(Debug, Clone, PartialEq, Eq)]
pub struct FormatResponse {
    pub success: bool,
    pub code: String,
    pub stdout: String,
    pub stderr: String,
}

impl From<sandbox::FormatResponse> for FormatResponse {
    fn from(me: sandbox::FormatResponse) -> (result: Self) {
        FormatResponse { success: me.success, code: me.code, stdout: me.stdout, stderr: me.stderr }
    }
}

impl FromSpecImpl<sandbox::FormatResponse> for FormatResponse {
    open spec fn obeys_from_spec() -> bool {
        true
    }

    open spec fn from_spec(v: sandbox::FormatResponse) -> Self {
        FormatResponse { success: v.success, code: v.code, stdout: v.stdout, stderr: v.stderr }
    }
}

/// The outcome of linting code, as it is sent.
#[derive(Debug, Clone, PartialEq, Eq)]
pub struct ClippyResponse {
    pub success: bool,
    pub stdout: String,
    pub stderr: String,
}

impl From<sandbox::ClippyResponse> for ClippyResponse {
    fn from(me: sandbox::ClippyResponse) -> (result: Self) {
        ClippyResponse { success: me.success, stdout: me.stdout, stderr: me.stderr }
    }
}

impl FromSpecImpl<sandbox::ClippyResponse> for ClippyResponse {
    open spec fn obeys_from_spec() -> bool {
        true
    }

    open spec fn from_spec(v: sandbox::ClippyResponse) -> Self {
        ClippyResponse { success: v.success, stdout: v.stdout, stderr: v.stderr }
    }
}

/// The outcome of interpreting code, as it is sent.
#[derive(Debug, Clone, PartialEq, Eq)]
pub struct MiriResponse {
    pub success: bool,
    pub stdout: String,
    pub stderr: String,
}

impl From<sandbox::MiriResponse> for MiriResponse {
    fn from(me: sandbox::MiriResponse) -> (result: Self) {
        MiriResponse { success: me.success, stdout: me.stdout, stderr: me.stderr }
    }
}

impl FromSpecImpl<sandbox::MiriResponse> for MiriResponse {
    open spec fn obeys_from_spec() -> bool {
        true
    }

    open spec fn from_spec(v: sandbox::MiriResponse) -> Self {
        MiriResponse { success: v.success, stdout: v.stdout, stderr: v.stderr }
    }
}

/// A crate that code in the sandbox can use, as it is sent.
#[derive(Debug, Clone, PartialEq, Eq)]
pub struct CrateInformation {
    pub name: String,
    pub version: String,
    pub id: String,
}

/// The crates that code in the sandbox can use, as they are sent.
#[derive(Debug, Clone, PartialEq, Eq)]
pub struct MetaCratesResponse {
    pub crates: Vec<CrateInformation>,
}

/// Whether `sent` lists the crates of `crates`, one for one and in the
/// same order, each with its name, version and id.
pub open spec fn lists_crates(
    sent: Seq<CrateInformation>,
    crates: Seq<sandbox::CrateInformation>,
) -> bool {
    &&& sent.len() == crates.len()
    &&& forall|i: int|
        0 <= i < crates.len() ==> {
            &&& (#[trigger] sent[i]).name == crates[i].name
            &&& sent[i].version == crates[i].version
            &&& sent[i].id == crates[i].id
        }
}

impl From<Vec<sandbox::CrateInformation>> for MetaCratesResponse {
    fn from(me: Vec<sandbox::CrateInformation>) -> (result: Self)
        ensures
            lists_crates(result.crates@, me@),
    {
        let mut crates: Vec<CrateInformation> = Vec::new();
        let mut i: usize = 0;
        while i < me.len()
            invariant
                i <= me.len(),
                lists_crates(crates@, me@.take(i as int)),
            decreases me.len() - i,
        {
            let cv = &me[i];
            crates.push(
                CrateInformation {
                    name: cv.name.clone(),
                    version: cv.version.clone(),
                    id: cv.id.clone(),
                },
            );
            i = i + 1;
        }
        assert(me@.take(i as int) =~= me@);
        MetaCratesResponse { crates }
    }
}

/// The conversion is specified by [`lists_crates`].
impl FromSpecImpl<Vec<sandbox::CrateInformation>> for MetaCratesResponse {
    open spec fn obeys_from_spec() -> bool {
        false
    }

    open spec fn from_spec(v: Vec<sandbox::CrateInformation>) -> Self {
        choose|result: Self| lists_crates(result.crates@, v@)
    }
}

/// The version of a toolchain, as it is sent.
#[derive(Debug, Clone, PartialEq, Eq)]
pub struct MetaVersionResponse {
    pub version: String,
    pub hash: String,
    pub date: String,
}

/// The version of a toolchain as it is sent: the release as the version,
/// and the hash and the date of the commit.
pub open spec fn version_sent(version: sandbox::Version) -> MetaVersionResponse {
    MetaVersionResponse {
        version: version.release,
        hash: version.commit_hash,
        date: version.commit_date,
    }
}

impl From<sandbox::Version> for MetaVersionResponse {
    fn from(me: sandbox::Version) -> (result: Self) {
        MetaVersionResponse { version: me.release, hash: me.commit_hash, date: me.commit_date }
    }
}

impl FromSpecImpl<sandbox::Version> for MetaVersionResponse {
    open spec fn obeys_from_spec() -> bool {
        true
    }

    open spec fn from_spec(v: sandbox::Version) -> Self {
        version_sent(v)
    }
}

/// A stored gist, as it is sent.
#[derive(Debug, Clone, PartialEq, Eq)]
pub struct MetaGistResponse {
    pub id: String,
    pub url: String,
    pub code: String,
}

impl From<gist::Gist> for MetaGistResponse {
    fn from(me: gist::Gist) -> (result: Self) {
        MetaGistResponse { id: me.id, url: me.url, code: me.code }
    }
}

impl FromSpecImpl<gist::Gist> for MetaGistResponse {
    open spec fn obeys_from_spec() -> bool {
        true
    }

    open spec fn from_spec(v: gist::Gist) -> Self {
        MetaGistResponse { id: v.id, url: v.url, code: v.code }
    }
}

/// The outcome of building and running code, in the legacy form.
#[derive(Debug, Clone, PartialEq, Eq)]
pub struct EvaluateResponse {
    pub result: String,
    pub error: Option<String>,
}

/// An [`EvaluateResponse`] with its texts as sequences of characters.
pub struct EvaluateResponseView {
    pub result: Seq<char>,
    pub error: Option<Seq<char>>,
}

impl View for EvaluateResponse {
    type V = EvaluateResponseView;

    open spec fn view(&self) -> EvaluateResponseView {
        EvaluateResponseView {
            result: self.result@,
            error: optional_text(self.error),
        }
    }
}

/// An outcome in the legacy form.
///
/// After a success, the standard output alone: what the build printed on
/// the error stream is left out. After a failure, the error stream
/// followed by the standard output, both as the result and as the error,
/// since clients look in either place.
pub open spec fn evaluated(
    success: bool,
    stdout: Seq<char>,
    stderr: Seq<char>,
) -> EvaluateResponseView {
    if success {
        EvaluateResponseView { result: stdout, error: None }
    } else {
        EvaluateResponseView { result: stderr + stdout, error: Some(stderr + stdout) }
    }
}

impl From<sandbox::ExecuteResponse> for EvaluateResponse {
    fn from(me: sandbox::ExecuteResponse) -> (result: Self)
        ensures
            result@ == evaluated(me.success, me.stdout@, me.stderr@),
    {
        if me.success {
            EvaluateResponse { result: me.stdout, error: None }
        } else {
            let result = me.stderr.concat(me.stdout.as_str());
            EvaluateResponse { result: result.clone(), error: Some(result) }
        }
    }
}

/// The conversion is specified through views, by [`evaluated`].
impl FromSpecImpl<sandbox::ExecuteResponse> for EvaluateResponse {
    open spec fn obeys_from_spec() -> bool {
        false
    }

    open spec fn from_spec(v: sandbox::ExecuteResponse) -> Self {
        choose|result: Self| (#[trigger] result.view()) == evaluated(v.success, v.stdout@, v.stderr@)
    }
}

/// The content type that every [`JsonResponse`] is sent with.
pub const CONTENT_TYPE_JSON: &'static str = "application/json";

/// A response with a JSON body, to be sent as [`CONTENT_TYPE_JSON`].
#[derive(Debug, Clone, PartialEq, Eq)]
pub struct JsonResponse {
    /// The status code.
    pub status: u16,
    /// The body, encoded.
    pub body: String,
}

/// A [`JsonResponse`] with its body as a sequence of characters.
pub struct JsonResponseView {
    pub status: u16,
    pub body: Seq<char>,
}

impl JsonResponse {
    /// The content type that the response is sent with.
    pub fn content_type(&self) -> (content_type: &'static str)
        ensures
            content_type@ == CONTENT_TYPE_JSON@,
    {
        CONTENT_TYPE_JSON
    }
}

impl View for JsonResponse {
    type V = JsonResponseView;

    open spec fn view(&self) -> JsonResponseView {
        JsonResponseView { status: self.status, body: self.body@ }
    }
}

/// The digit that stands for a number below sixteen in hexadecimal
/// notation, in lower case.
pub open spec fn hex_digit(value: nat) -> char {
    if value == 0 {
        '0'
    } else if value == 1 {
        '1'
    } else if value == 2 {
        '2'
    } else if value == 3 {
        '3'
    } else if value == 4 {
        '4'
    } else if value == 5 {
        '5'
    } else if value == 6 {
        '6'
    } else if value == 7 {
        '7'
    } else if value == 8 {
        '8'
    } else if value == 9 {
        '9'
    } else if value == 10 {
        'a'
    } else if value == 11 {
        'b'
    } else if value == 12 {
        'c'
    } else if value == 13 {
        'd'
    } else if value == 14 {
        'e'
    } else {
        'f'
    }
}

/// A character as it stands inside a JSON string. The quote and the
/// backslash get a backslash in front. Backspace, tab, line feed, form feed
/// and carriage return are written `\b`, `\t`, `\n`, `\f`, `\r`. Every other
/// character below the space is written `\u00` and its two hexadecimal
/// digits. All other characters stand for themselves.
pub open spec fn json_escaped(c: char) -> Seq<char> {
    if c == '"' {
        seq!['\\', '"']
    } else if c == '\\' {
        seq!['\\', '\\']
    } else if c == '\u{8}' {
        seq!['\\', 'b']
    } else if c == '\t' {
        seq!['\\', 't']
    } else if c == '\n' {
        seq!['\\', 'n']
    } else if c == '\u{c}' {
        seq!['\\', 'f']
    } else if c == '\r' {
        seq!['\\', 'r']
    } else if (c as u32) < 0x20 {
        seq!['\\', 'u', '0', '0', hex_digit((c as u32 / 16) as nat), hex_digit((c as u32 % 16) as nat)]
    } else {
        seq![c]
    }
}

/// A text as it stands inside a JSON string: each character escaped where
/// it has to be.
pub open spec fn json_escaped_text(value: Seq<char>) -> Seq<char>
    decreases value.len(),
{
    if value.len() == 0 {
        Seq::empty()
    } else {
        json_escaped_text(value.drop_last()) + json_escaped(value.last())
    }
}

/// A text as a JSON string: escaped and in double quotes.
pub open spec fn json_string_text(value: Seq<char>) -> Seq<char> {
    seq!['"'] + json_escaped_text(value) + seq!['"']
}

/// Encodes a text as a JSON string with `serde_json::to_string`.
///
/// Trusted: the encoder writes the text into a buffer in memory, which
/// cannot fail, in double quotes and with the escapes that
/// [`json_escaped`] lists.
#[verifier::external_body]
fn json_string(value: &str) -> (encoded: Option<String>)
    ensures
        encoded is Some,
        encoded matches Some(text) ==> text@ == json_string_text(value@),
{
    serde_json::to_string(value).ok()
}

/// The body that reports an error: an object with the one member `error`,
/// whose value is the error's message, already encoded as `message_json`.
/// Where the message could not be encoded, the fixed body
/// [`FATAL_ERROR_JSON`].
pub open spec fn error_body(message_json: Option<Seq<char>>) -> Seq<char> {
    match message_json {
        Some(message_json) => "{\"error\":"@ + message_json + "}"@,
        None => FATAL_ERROR_JSON@,
    }
}

/// The response for what handling a request came to: the encoded result
/// with status 200, or the error's message as a JSON string, in a body of
/// its own, with status 500.
pub open spec fn response_to(outcome: Result<Seq<char>, ErrorView>) -> JsonResponseView {
    match outcome {
        Ok(body) => JsonResponseView { status: STATUS_OK, body },
        Err(error) => JsonResponseView {
            status: STATUS_INTERNAL_SERVER_ERROR,
            body: error_body(Some(json_string_text(error.message()))),
        },
    }
}

/// What handling a request came to once the result has been encoded:
/// the error of the handler, or else that of the encoder as a
/// serialization error, or else the encoded result.
pub open spec fn encoded_outcome<R>(
    response: Result<R, Error>,
    serialized: Result<String, String>,
) -> Result<Seq<char>, ErrorView> {
    match response {
        Err(error) => Err(error@),
        Ok(_) => match serialized {
            Ok(body) => Ok(body@),
            Err(message) => Err(ErrorView::Serialization(message@)),
        },
    }
}

/// The response that reports an error. `message_json` is the error's
/// message encoded as a JSON string, or `None` if that could not be done.
pub fn error_response(message_json: Option<String>) -> (response: JsonResponse)
    ensures
        response@ == (JsonResponseView {
            status: STATUS_INTERNAL_SERVER_ERROR,
            body: error_body(optional_text(message_json)),
        }),
{
    let body = match message_json {
        Some(text) => String::from_str("{\"error\":").concat(text.as_str()).concat("}"),
        None => String::from_str(FATAL_ERROR_JSON),
    };
    JsonResponse { status: STATUS_INTERNAL_SERVER_ERROR, body }
}

/// Turns what handling a request came to into the response to send.
///
/// A result is encoded by `serialize` and sent with status 200. An error,
/// be it the handler's or the encoder's, is sent with status 500 in a body
/// that holds its message, whatever kind of error it is.
pub fn serialize_to_response<R, S>(response: Result<R, Error>, serialize: S) -> (sent: JsonResponse)
    where S: FnOnce(&R) -> Result<String, String>
    requires
        response matches Ok(value) ==> call_requires(serialize, (&value,)),
    ensures
        exists|serialized: Result<String, String>|
            {
                &&& response matches Ok(value) ==> call_ensures(serialize, (&value,), serialized)
                &&& sent@ == #[trigger] response_to(encoded_outcome(response, serialized))
            },
{
    let ghost serialized: Result<String, String>;
    let outcome = match response {
        Ok(value) => {
            let result = serialize(&value);
            proof {
                serialized = result;
            }
            match result {
                Ok(body) => Ok(body),
                Err(message) => Err(Error::Serialization(message)),
            }
        },
        Err(error) => {
            proof {
                serialized = arbitrary();
            }
            Err(error)
        },
    };
    let sent = match outcome {
        Ok(body) => JsonResponse { status: STATUS_OK, body },
        Err(error) => {
            let message = error.to_string();
            error_response(json_string(message.as_str()))
        },
    };
    assert(sent@ == response_to(encoded_outcome(response, serialized)));
    sent
}

} // verus!
