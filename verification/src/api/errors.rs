use crate::api::json::{parsed_json, Json};
use crate::utils::text::{decimal, push_decimal};
use vstd::prelude::*;
use vstd::std_specs::convert::FromSpecImpl;
use vstd::string::StringExecFns;

verus! {

/// A failure of the transport itself, carried without looking inside.
#[verifier::external_type_specification]
#[verifier::external_body]
pub struct ExTransportError(reqwest::Error);

/// What can go wrong with a call.
#[derive(Debug)]
pub enum OpenAIError {
    /// The service refused the call and said why.
    ApiError { message: String, error_type: String, code: String },
    /// The service refused the call with a body that is no error envelope.
    HttpError { status: u16, message: String },
    /// The body of a successful call is not the JSON of an answer.
    JsonParseError(String),
    /// The call did not get through.
    NetworkError(reqwest::Error),
    /// The answer holds no output message.
    NoOutputMessages,
    /// The answer holds no text.
    EmptyResponse,
}

/// An `OpenAIError` with its texts as sequences of characters.
pub enum OpenAIErrorView {
    ApiError { message: Seq<char>, error_type: Seq<char>, code: Seq<char> },
    HttpError { status: u16, message: Seq<char> },
    JsonParseError(Seq<char>),
    NetworkError(reqwest::Error),
    NoOutputMessages,
    EmptyResponse,
}

impl View for OpenAIError {
    type V = OpenAIErrorView;

    open spec fn view(&self) -> OpenAIErrorView {
        match *self {
            OpenAIError::ApiError { message, error_type, code } => OpenAIErrorView::ApiError {
                message: message@,
                error_type: error_type@,
                code: code@,
            },
            OpenAIError::HttpError { status, message } => OpenAIErrorView::HttpError {
                status,
                message: message@,
            },
            OpenAIError::JsonParseError(message) => OpenAIErrorView::JsonParseError(message@),
            OpenAIError::NetworkError(cause) => OpenAIErrorView::NetworkError(cause),
            OpenAIError::NoOutputMessages => OpenAIErrorView::NoOutputMessages,
            OpenAIError::EmptyResponse => OpenAIErrorView::EmptyResponse,
        }
    }
}

/// The reason phrase that goes with a status code from 100 to 999.
pub uninterp spec fn reason_phrase(code: u16) -> Seq<char>;

/// A status code as it is shown: the number, a space and the reason phrase.
/// A number that is no status code is shown with the phrase for codes that
/// have none.
pub open spec fn status_text(code: u16) -> Seq<char> {
    if 100 <= code <= 999 {
        decimal(code as nat) + " "@ + reason_phrase(code)
    } else {
        decimal(code as nat) + " <unknown status code>"@
    }
}

/// `Display` of `reqwest::StatusCode`, after `StatusCode::from_u16`: there is
/// a status code for the numbers from 100 to 999 and no others, and it prints
/// as the number, a space and a phrase that the number alone decides.
#[verifier::external_body]
fn status_line(code: u16) -> (line: Option<String>)
    ensures
        line is Some <==> 100 <= code <= 999,
        line matches Some(text) ==> text@ == decimal(code as nat) + " "@ + reason_phrase(code),
{
    match reqwest::StatusCode::from_u16(code) {
        Ok(status) => Some(status.to_string()),
        Err(_) => None,
    }
}

/// `Display` of `reqwest::Error`.
#[verifier::external_body]
fn transport_error_text(cause: &reqwest::Error) -> (text: String) {
    cause.to_string()
}

/// The inside of an error envelope.
#[derive(Debug)]
pub struct ErrorDetail {
    pub message: String,
    pub error_type: Option<String>,
    pub code: Option<String>,
    pub param: Option<String>,
}

/// The error envelope of the service: an object with one member, `error`.
#[derive(Debug)]
pub struct ApiError {
    pub error: ErrorDetail,
}

/// What an optional text member holds: nothing where it is missing or null,
/// the text where it is one. Anything else is not an optional text.
pub open spec fn optional_text(slot: Option<Json>) -> Option<Option<String>> {
    match slot {
        None => Some(None),
        Some(Json::Null) => Some(None),
        Some(Json::Text(text)) => Some(Some(text)),
        Some(_) => None,
    }
}

fn read_optional_text(slot: Option<&Json>) -> (read: Option<Option<String>>)
    ensures
        read == optional_text(
            match slot {
                Some(value) => Some(*value),
                None => None,
            },
        ),
{
    match slot {
        None => Some(None),
        Some(Json::Null) => Some(None),
        Some(Json::Text(text)) => Some(Some(text.clone())),
        Some(_) => None,
    }
}

impl ErrorDetail {
    /// The detail that a JSON value stands for: an object whose `message` is
    /// a text and whose `type`, `code` and `param` are optional texts.
    pub open spec fn decoded(json: Json) -> Option<ErrorDetail> {
        match (
            json.member("message"@),
            optional_text(json.member("type"@)),
            optional_text(json.member("code"@)),
            optional_text(json.member("param"@)),
        ) {
            (Some(Json::Text(message)), Some(error_type), Some(code), Some(param)) => Some(
                ErrorDetail { message, error_type, code, param },
            ),
            _ => None,
        }
    }

    pub fn from_json(json: &Json) -> (detail: Option<ErrorDetail>)
        ensures
            detail == Self::decoded(*json),
    {
        let message = match json.get("message") {
            Some(Json::Text(text)) => text.clone(),
            _ => { return None; },
        };
        let error_type = match read_optional_text(json.get("type")) {
            Some(text) => text,
            None => { return None; },
        };
        let code = match read_optional_text(json.get("code")) {
            Some(text) => text,
            None => { return None; },
        };
        let param = match read_optional_text(json.get("param")) {
            Some(text) => text,
            None => { return None; },
        };
        Some(ErrorDetail { message, error_type, code, param })
    }
}

impl ApiError {
    /// The envelope that a JSON value stands for: an object whose `error` is
    /// a detail.
    pub open spec fn decoded(json: Json) -> Option<ApiError> {
        match json.member("error"@) {
            Some(inner) => match ErrorDetail::decoded(inner) {
                Some(error) => Some(ApiError { error }),
                None => None,
            },
            None => None,
        }
    }

    pub fn from_json(json: &Json) -> (envelope: Option<ApiError>)
        ensures
            envelope == Self::decoded(*json),
    {
        match json.get("error") {
            Some(inner) => match ErrorDetail::from_json(inner) {
                Some(error) => Some(ApiError { error }),
                None => None,
            },
            None => None,
        }
    }
}

/// The text, or "unknown" where there is none.
pub open spec fn or_unknown(text: Option<String>) -> Seq<char> {
    match text {
        Some(text) => text@,
        None => "unknown"@,
    }
}

fn text_or_unknown(text: Option<String>) -> (known: String)
    ensures
        known@ == or_unknown(text),
{
    match text {
        Some(text) => text,
        None => "unknown".to_owned(),
    }
}

impl OpenAIError {
    /// The error that a refused call stands for, given what its body parsed
    /// to: the envelope's own words where the body is an envelope, the status
    /// and the body as it came where it is not.
    pub open spec fn classified(
        document: Option<Json>,
        response_text: Seq<char>,
        status: u16,
    ) -> OpenAIErrorView {
        match document {
            Some(json) => match ApiError::decoded(json) {
                Some(envelope) => OpenAIErrorView::ApiError {
                    message: envelope.error.message@,
                    error_type: or_unknown(envelope.error.error_type),
                    code: or_unknown(envelope.error.code),
                },
                None => OpenAIErrorView::HttpError { status, message: response_text },
            },
            None => OpenAIErrorView::HttpError { status, message: response_text },
        }
    }

    /// Whether `text` is a message for the error. All but a transport
    /// failure have one message; that of a transport failure begins with
    /// "Network Error: " and goes on with what the transport says.
    pub open spec fn described_by(self, text: Seq<char>) -> bool {
        match self {
            OpenAIError::ApiError { message, error_type, code } => text == "API Error: "@
                + message@ + " (Type: "@ + error_type@ + ", Code: "@ + code@ + ")"@,
            OpenAIError::HttpError { status, message } => text == "HTTP Error "@ + status_text(
                status,
            ) + ": "@ + message@,
            OpenAIError::JsonParseError(message) => text == "JSON Parse Error: "@ + message@,
            OpenAIError::NetworkError(cause) => exists|detail: Seq<char>|
                text == "Network Error: "@ + detail,
            OpenAIError::NoOutputMessages => text == "No output messages returned from OpenAI"@,
            OpenAIError::EmptyResponse => text == "Empty response content"@,
        }
    }

    /// The message of the error, for a person to read.
    pub fn to_string(&self) -> (text: String)
        ensures
            self.described_by(text@),
    {
        match self {
            OpenAIError::ApiError { message, error_type, code } => {
                let mut text = "API Error: ".to_owned();
                text.append(message.as_str());
                text.append(" (Type: ");
                text.append(error_type.as_str());
                text.append(", Code: ");
                text.append(code.as_str());
                text.append(")");
                text
            },
            OpenAIError::HttpError { status, message } => {
                let mut text = "HTTP Error ".to_owned();
                match status_line(*status) {
                    Some(line) => {
                        text.append(line.as_str());
                    },
                    None => {
                        let ghost before = text@;
                        push_decimal(&mut text, *status as u64);
                        text.append(" <unknown status code>");
                        assert(text@ =~= before + status_text(*status));
                    },
                }
                text.append(": ");
                text.append(message.as_str());
                text
            },
            OpenAIError::JsonParseError(message) => {
                let mut text = "JSON Parse Error: ".to_owned();
                text.append(message.as_str());
                text
            },
            OpenAIError::NetworkError(cause) => {
                let mut text = "Network Error: ".to_owned();
                let detail = transport_error_text(cause);
                text.append(detail.as_str());
                text
            },
            OpenAIError::NoOutputMessages => "No output messages returned from OpenAI".to_owned(),
            OpenAIError::EmptyResponse => "Empty response content".to_owned(),
        }
    }

    /// Classifies a refused call from its parsed body.
    pub fn from_document(document: Option<Json>, response_text: &str, status: u16) -> (error:
        OpenAIError)
        ensures
            error@ == Self::classified(document, response_text@, status),
    {
        let envelope = match &document {
            Some(json) => ApiError::from_json(json),
            None => None,
        };
        match envelope {
            Some(envelope) => OpenAIError::ApiError {
                message: envelope.error.message,
                error_type: text_or_unknown(envelope.error.error_type),
                code: text_or_unknown(envelope.error.code),
            },
            None => OpenAIError::HttpError { status, message: response_text.to_owned() },
        }
    }

    /// Classifies a refused call from its body and status. A body that is no
    /// JSON, or JSON of another shape, gives the status and the body as they
    /// came.
    pub fn parse_api_error(response_text: &str, status: u16) -> (error: OpenAIError)
        ensures
            error@ == Self::classified(parsed_json(response_text@), response_text@, status),
            parsed_json(response_text@) is None ==> error@ == (OpenAIErrorView::HttpError {
                status,
                message: response_text@,
            }),
    {
        let document = Json::parse(response_text);
        Self::from_document(document, response_text, status)
    }
}

/// A body that is no JSON is kept as it came, character for character, with
/// the status beside it.
pub proof fn law_unparsed_body_is_kept(response_text: Seq<char>, status: u16)
    requires
        parsed_json(response_text) is None,
    ensures
        OpenAIError::classified(parsed_json(response_text), response_text, status) == (
        OpenAIErrorView::HttpError { status, message: response_text }),
{
}

/// A JSON body that is no error envelope is kept as it came too.
pub proof fn law_other_json_is_kept(json: Json, response_text: Seq<char>, status: u16)
    requires
        ApiError::decoded(json) is None,
    ensures
        OpenAIError::classified(Some(json), response_text, status) == (OpenAIErrorView::HttpError {
            status,
            message: response_text,
        }),
{
}

/// An error envelope is reported in its own words: its message as it
/// stands, and its type and its code as they stand or, where the envelope
/// leaves one out or gives null for it, as "unknown".
pub proof fn law_envelope_is_reported(
    json: Json,
    inner: Json,
    message: String,
    error_type: Option<String>,
    code: Option<String>,
    response_text: Seq<char>,
    status: u16,
)
    requires
        json.member("error"@) == Some(inner),
        inner.member("message"@) == Some(Json::Text(message)),
        optional_text(inner.member("type"@)) == Some(error_type),
        optional_text(inner.member("code"@)) == Some(code),
        optional_text(inner.member("param"@)) is Some,
    ensures
        OpenAIError::classified(Some(json), response_text, status) == (OpenAIErrorView::ApiError {
            message: message@,
            error_type: or_unknown(error_type),
            code: or_unknown(code),
        }),
{
}

impl From<reqwest::Error> for OpenAIError {
    fn from(cause: reqwest::Error) -> (error: OpenAIError) {
        OpenAIError::NetworkError(cause)
    }
}

impl FromSpecImpl<reqwest::Error> for OpenAIError {
    open spec fn obeys_from_spec() -> bool {
        true
    }

    open spec fn from_spec(cause: reqwest::Error) -> OpenAIError {
        OpenAIError::NetworkError(cause)
    }
}

} // verus!
