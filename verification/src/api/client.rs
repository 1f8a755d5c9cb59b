use crate::api::binary32::Binary32;
use crate::api::errors::{OpenAIError, OpenAIErrorView};
use crate::api::json::parsed_json;
use crate::api::models::{InputType, ResponseApiResponse, ResponseRequest, ResponseRequestBuilder};
use vstd::prelude::*;
use vstd::string::StringExecFns;

verus! {

/// One HTTP POST, ready to be sent: where it goes, its two headers, and the
/// request whose JSON is its body.
#[derive(Debug)]
pub struct HttpCall {
    pub url: String,
    pub authorization: String,
    pub content_type: String,
    pub request: ResponseRequest,
}

/// The client's side of a call: it knows the key, says which POST to send for
/// a request, and says what the reply to it means. Sending is the caller's.
pub struct OpenAIClient {
    api_key: String,
}

/// Whether a status code reports success: the codes from 200 to 299.
pub open spec fn is_success(status: u16) -> bool {
    200 <= status < 300
}

/// Whether `request` asks `model` about the plain text `prompt` at the given
/// temperature, has the answer stored, and sets nothing else but what
/// `extras` sets.
pub open spec fn asks(
    request: ResponseRequest,
    model: Seq<char>,
    prompt: Seq<char>,
    temperature: Binary32,
    extras: ResponseRequest,
) -> bool {
    &&& request.model matches Some(name) && name@ == model
    &&& request.input matches Some(InputType::Text(text)) && text@ == prompt
    &&& request.temperature == Some(temperature)
    &&& request.store == Some(true)
    &&& (ResponseRequest { model: None, input: None, temperature: None, store: None, ..request })
        == extras
}

/// The temperature of a call: the one given, or 1.0.
pub open spec fn temperature_or_one(temperature: Option<Binary32>) -> Binary32 {
    match temperature {
        Some(given) => given,
        None => Binary32 { bits: 0x3f80_0000 },
    }
}

fn or_one(temperature: Option<Binary32>) -> (chosen: Binary32)
    ensures
        chosen == temperature_or_one(temperature),
{
    match temperature {
        Some(given) => given,
        None => Binary32::one(),
    }
}

impl OpenAIClient {
    /// The key that the client signs its calls with.
    pub closed spec fn key(self) -> Seq<char> {
        self.api_key@
    }

    /// Whether `call` is the POST by which this client sends `request`: to
    /// the service's one endpoint, with the key as bearer token, announcing
    /// JSON.
    pub open spec fn posts(self, call: HttpCall, request: ResponseRequest) -> bool {
        &&& call.url@ == "https://api.openai.com/v1/responses"@
        &&& call.authorization@ == "Bearer "@ + self.key()
        &&& call.content_type@ == "application/json"@
        &&& call.request == request
    }

    pub fn new(api_key: String) -> (client: Self)
        ensures
            client.key() == api_key@,
    {
        OpenAIClient { api_key }
    }

    /// The POST for a basic question: `model`, the plain text `prompt`, the
    /// temperature or 1.0, and the answer stored.
    pub fn get_response(&self, model: &str, prompt: &str, temperature: Option<Binary32>) -> (call:
        HttpCall)
        ensures
            self.posts(call, call.request),
            asks(
                call.request,
                model@,
                prompt@,
                temperature_or_one(temperature),
                ResponseRequest::blank(),
            ),
    {
        let request = ResponseRequest::builder().model(model.to_owned()).input_text(
            prompt.to_owned(),
        ).temperature(or_one(temperature)).store(true).build();
        self.send_request(request)
    }

    /// The POST for the request that the builder holds.
    pub fn get_response_with_builder(&self, builder: ResponseRequestBuilder) -> (call: HttpCall)
        ensures
            self.posts(call, builder@),
    {
        let request = builder.build();
        self.send_request(request)
    }

    /// The POST that sends `request`.
    pub fn send_request(&self, request: ResponseRequest) -> (call: HttpCall)
        ensures
            self.posts(call, request),
    {
        let mut authorization = "Bearer ".to_owned();
        authorization.append(self.api_key.as_str());
        HttpCall {
            url: "https://api.openai.com/v1/responses".to_owned(),
            authorization,
            content_type: "application/json".to_owned(),
            request,
        }
    }

    /// What the reply to a POST means, once its status and its whole body
    /// have been read: nothing yet where the status reports success (the body
    /// is then to be decoded), and the error that the body and status
    /// classify as where it does not.
    pub fn check_reply(status: u16, response_text: &str) -> (outcome: Result<(), OpenAIError>)
        ensures
            is_success(status) ==> outcome is Ok,
            !is_success(status) ==> outcome is Err && outcome->Err_0@ == OpenAIError::classified(
                parsed_json(response_text@),
                response_text@,
                status,
            ),
    {
        if 200 <= status && status < 300 {
            Ok(())
        } else {
            Err(OpenAIError::parse_api_error(response_text, status))
        }
    }

    /// The result of a call whose status reported success, given what
    /// decoding its body gave: the answer, or a JSON parse error with the
    /// decoder's message.
    pub fn decoded(parsed: Result<ResponseApiResponse, String>) -> (outcome: Result<
        ResponseApiResponse,
        OpenAIError,
    >)
        ensures
            match parsed {
                Ok(response) => outcome == Ok::<ResponseApiResponse, OpenAIError>(response),
                Err(message) => outcome is Err && outcome->Err_0@
                    == OpenAIErrorView::JsonParseError(message@),
            },
    {
        match parsed {
            Ok(response) => Ok(response),
            Err(message) => Err(OpenAIError::JsonParseError(message)),
        }
    }

    /// A builder in its starting state.
    pub fn request_builder(&self) -> (builder: ResponseRequestBuilder)
        ensures
            builder@ == ResponseRequest::fresh(),
    {
        ResponseRequestBuilder::new()
    }

    /// The POST for a question that follows up on an earlier answer.
    pub fn continue_conversation(
        &self,
        model: &str,
        prompt: &str,
        previous_response_id: &str,
        temperature: Option<Binary32>,
    ) -> (call: HttpCall)
        ensures
            self.posts(call, call.request),
            call.request.previous_response_id matches Some(id) && id@ == previous_response_id@,
            asks(
                (ResponseRequest { previous_response_id: None, ..call.request }),
                model@,
                prompt@,
                temperature_or_one(temperature),
                ResponseRequest::blank(),
            ),
    {
        let request = ResponseRequest::builder().model(model.to_owned()).input_text(
            prompt.to_owned(),
        ).previous_response_id(previous_response_id.to_owned()).temperature(
            or_one(temperature),
        ).store(true).build();
        self.send_request(request)
    }

    /// The POST for a question whose answer is to be streamed.
    pub fn get_streaming_response(
        &self,
        model: &str,
        prompt: &str,
        temperature: Option<Binary32>,
    ) -> (call: HttpCall)
        ensures
            self.posts(call, call.request),
            asks(
                call.request,
                model@,
                prompt@,
                temperature_or_one(temperature),
                (ResponseRequest { stream: Some(true), ..ResponseRequest::blank() }),
            ),
    {
        let request = ResponseRequest::builder().model(model.to_owned()).input_text(
            prompt.to_owned(),
        ).temperature(or_one(temperature)).stream(true).store(true).build();
        self.send_request(request)
    }

    /// The POST for a question that is to be worked on in the background.
    pub fn get_background_response(
        &self,
        model: &str,
        prompt: &str,
        temperature: Option<Binary32>,
    ) -> (call: HttpCall)
        ensures
            self.posts(call, call.request),
            asks(
                call.request,
                model@,
                prompt@,
                temperature_or_one(temperature),
                (ResponseRequest { background: Some(true), ..ResponseRequest::blank() }),
            ),
    {
        let request = ResponseRequest::builder().model(model.to_owned()).input_text(
            prompt.to_owned(),
        ).temperature(or_one(temperature)).background(true).store(true).build();
        self.send_request(request)
    }
}

} // verus!
