use crate::api::binary32::Binary32;
use crate::api::settings::Setting;
use vstd::prelude::*;

verus! {

/// A JSON value that the library carries without looking inside.
#[verifier::external_type_specification]
#[verifier::external_body]
pub struct ExJsonValue(serde_json::Value);

/// `Clone` of `serde_json::Value`, which serde_json derives: the copy is the
/// value over again.
pub assume_specification[ <serde_json::Value as Clone>::clone ](
    value: &serde_json::Value,
) -> (copy: serde_json::Value)
    ensures
        copy == *value,
;

/// One piece of content of an output message. Both kinds display as their
/// text.
#[derive(Debug, Clone)]
pub enum ContentType {
    Text { text: String },
    OutputText { text: String, annotations: Vec<serde_json::Value> },
}

impl ContentType {
    /// The text that the item displays, whatever its kind.
    pub open spec fn display(self) -> Seq<char> {
        match self {
            ContentType::Text { text } => text@,
            ContentType::OutputText { text, annotations } => text@,
        }
    }

    pub fn text(&self) -> (text: &String)
        ensures
            text@ == self.display(),
    {
        match self {
            ContentType::Text { text } => text,
            ContentType::OutputText { text, annotations: _ } => text,
        }
    }
}

/// The payload of a request: plain text, or an array of structured parts.
#[derive(Debug, Clone)]
pub enum InputType {
    Text(String),
    Array(Vec<serde_json::Value>),
}

/// A reference to a stored prompt template.
#[derive(Debug, Clone)]
pub struct PromptTemplate {
    pub template_id: Option<String>,
    pub variables: Option<serde_json::Value>,
}

/// Reasoning options of a request.
#[derive(Debug, Clone)]
pub struct ReasoningConfig {
    pub effort: Option<String>,
    pub encrypted_content: Option<bool>,
}

/// The tool policy: a name such as "auto", or an object that selects one tool.
#[derive(Debug, Clone)]
pub enum ToolChoice {
    String(String),
    Object(serde_json::Value),
}

/// The format of the text of an answer.
#[derive(Debug, Clone)]
pub struct TextFormat {
    pub format_type: String,
}

#[derive(Debug, Clone)]
pub struct TextConfig {
    pub format: TextFormat,
}

/// One call to the service. A field that is `None` is left out of what goes
/// over the wire, so that the service applies its own default.
#[derive(Debug)]
pub struct ResponseRequest {
    pub model: Option<String>,
    pub input: Option<InputType>,
    pub instructions: Option<String>,
    pub max_output_tokens: Option<u32>,
    pub temperature: Option<Binary32>,
    pub top_p: Option<Binary32>,
    pub top_logprobs: Option<u32>,
    pub background: Option<bool>,
    pub stream: Option<bool>,
    pub store: Option<bool>,
    pub parallel_tool_calls: Option<bool>,
    pub service_tier: Option<String>,
    pub truncation: Option<String>,
    pub user: Option<String>,
    pub previous_response_id: Option<String>,
    pub tools: Option<Vec<serde_json::Value>>,
    pub tool_choice: Option<ToolChoice>,
    pub max_tool_calls: Option<u32>,
    pub prompt: Option<PromptTemplate>,
    pub reasoning: Option<ReasoningConfig>,
    pub text: Option<TextConfig>,
    pub includes: Option<Vec<String>>,
    pub metadata: Option<serde_json::Value>,
}

impl ResponseRequest {
    /// The request with every field absent.
    pub open spec fn blank() -> ResponseRequest {
        ResponseRequest {
            model: None,
            input: None,
            instructions: None,
            max_output_tokens: None,
            temperature: None,
            top_p: None,
            top_logprobs: None,
            background: None,
            stream: None,
            store: None,
            parallel_tool_calls: None,
            service_tier: None,
            truncation: None,
            user: None,
            previous_response_id: None,
            tools: None,
            tool_choice: None,
            max_tool_calls: None,
            prompt: None,
            reasoning: None,
            text: None,
            includes: None,
            metadata: None,
        }
    }

    /// The request a new builder starts from: the answer is stored, and
    /// nothing else is set.
    pub open spec fn fresh() -> ResponseRequest {
        ResponseRequest { store: Some(true), ..Self::blank() }
    }

    /// A builder in its starting state.
    pub fn builder() -> (builder: ResponseRequestBuilder)
        ensures
            builder@ == Self::fresh(),
    {
        ResponseRequestBuilder::new()
    }

    /// The request that asks `model` about the plain text `input` and has the
    /// answer stored.
    pub fn simple(model: String, input: String) -> (request: ResponseRequest)
        ensures
            request == (ResponseRequest {
                model: Some(model),
                input: Some(InputType::Text(input)),
                ..Self::fresh()
            }),
            request.store == Some(true),
            request.input is Some && request.input->0 is Text,
    {
        ResponseRequest {
            model: Some(model),
            input: Some(InputType::Text(input)),
            instructions: None,
            max_output_tokens: None,
            temperature: None,
            top_p: None,
            top_logprobs: None,
            background: None,
            stream: None,
            store: Some(true),
            parallel_tool_calls: None,
            service_tier: None,
            truncation: None,
            user: None,
            previous_response_id: None,
            tools: None,
            tool_choice: None,
            max_tool_calls: None,
            prompt: None,
            reasoning: None,
            text: None,
            includes: None,
            metadata: None,
        }
    }
}

impl Default for ResponseRequest {
    fn default() -> (request: ResponseRequest)
        ensures
            request == ResponseRequest::blank(),
    {
        ResponseRequest {
            model: None,
            input: None,
            instructions: None,
            max_output_tokens: None,
            temperature: None,
            top_p: None,
            top_logprobs: None,
            background: None,
            stream: None,
            store: None,
            parallel_tool_calls: None,
            service_tier: None,
            truncation: None,
            user: None,
            previous_response_id: None,
            tools: None,
            tool_choice: None,
            max_tool_calls: None,
            prompt: None,
            reasoning: None,
            text: None,
            includes: None,
            metadata: None,
        }
    }
}

/// A request under construction. Each setter takes the builder and gives it
/// back with one field written; `build` hands the request over.
#[derive(Debug)]
pub struct ResponseRequestBuilder {
    request: ResponseRequest,
}

impl View for ResponseRequestBuilder {
    type V = ResponseRequest;

    /// The request as it stands.
    closed spec fn view(&self) -> ResponseRequest {
        self.request
    }
}

impl Default for ResponseRequestBuilder {
    /// A builder over the blank request: unlike `new`, it leaves `store`
    /// absent.
    fn default() -> (builder: ResponseRequestBuilder)
        ensures
            builder@ == ResponseRequest::blank(),
    {
        ResponseRequestBuilder { request: ResponseRequest::default() }
    }
}

impl ResponseRequestBuilder {
    pub fn new() -> (builder: Self)
        ensures
            builder@ == ResponseRequest::fresh(),
    {
        ResponseRequestBuilder {
            request: ResponseRequest {
                model: None,
                input: None,
                instructions: None,
                max_output_tokens: None,
                temperature: None,
                top_p: None,
                top_logprobs: None,
                background: None,
                stream: None,
                store: Some(true),
                parallel_tool_calls: None,
                service_tier: None,
                truncation: None,
                user: None,
                previous_response_id: None,
                tools: None,
                tool_choice: None,
                max_tool_calls: None,
                prompt: None,
                reasoning: None,
                text: None,
                includes: None,
                metadata: None,
            },
        }
    }

    /// Names the model that answers.
    pub fn model(self, model: String) -> (next: Self)
        ensures
            next@ == (ResponseRequest { model: Some(model), ..self@ }),
            next@ == Setting::Model(model).applied(self@),
    {
        let mut request = self.request;
        request.model = Some(model);
        ResponseRequestBuilder { request }
    }

    /// Sets a plain-text input.
    pub fn input_text(self, input: String) -> (next: Self)
        ensures
            next@ == (ResponseRequest { input: Some(InputType::Text(input)), ..self@ }),
            next@ == Setting::InputText(input).applied(self@),
    {
        let mut request = self.request;
        request.input = Some(InputType::Text(input));
        ResponseRequestBuilder { request }
    }

    /// Sets a structured input: one value per part.
    pub fn input_array(self, input: Vec<serde_json::Value>) -> (next: Self)
        ensures
            next@ == (ResponseRequest { input: Some(InputType::Array(input)), ..self@ }),
            next@ == Setting::InputArray(input).applied(self@),
    {
        let mut request = self.request;
        request.input = Some(InputType::Array(input));
        ResponseRequestBuilder { request }
    }

    /// Sets the system instructions.
    pub fn instructions(self, instructions: String) -> (next: Self)
        ensures
            next@ == (ResponseRequest { instructions: Some(instructions), ..self@ }),
            next@ == Setting::Instructions(instructions).applied(self@),
    {
        let mut request = self.request;
        request.instructions = Some(instructions);
        ResponseRequestBuilder { request }
    }

    /// Caps the number of tokens in the answer.
    pub fn max_output_tokens(self, tokens: u32) -> (next: Self)
        ensures
            next@ == (ResponseRequest { max_output_tokens: Some(tokens), ..self@ }),
            next@ == Setting::MaxOutputTokens(tokens).applied(self@),
    {
        let mut request = self.request;
        request.max_output_tokens = Some(tokens);
        ResponseRequestBuilder { request }
    }

    /// Sets the sampling temperature. The range 0.0 to 2.0 is the caller's to keep.
    pub fn temperature(self, temp: Binary32) -> (next: Self)
        ensures
            next@ == (ResponseRequest { temperature: Some(temp), ..self@ }),
            next@ == Setting::Temperature(temp).applied(self@),
    {
        let mut request = self.request;
        request.temperature = Some(temp);
        ResponseRequestBuilder { request }
    }

    /// Sets the nucleus-sampling mass. The range 0.0 to 1.0 is the caller's to keep.
    pub fn top_p(self, top_p: Binary32) -> (next: Self)
        ensures
            next@ == (ResponseRequest { top_p: Some(top_p), ..self@ }),
            next@ == Setting::TopP(top_p).applied(self@),
    {
        let mut request = self.request;
        request.top_p = Some(top_p);
        ResponseRequestBuilder { request }
    }

    /// Sets how many log probabilities come back per token. The range 0 to 20 is the caller's to keep.
    pub fn top_logprobs(self, logprobs: u32) -> (next: Self)
        ensures
            next@ == (ResponseRequest { top_logprobs: Some(logprobs), ..self@ }),
            next@ == Setting::TopLogprobs(logprobs).applied(self@),
    {
        let mut request = self.request;
        request.top_logprobs = Some(logprobs);
        ResponseRequestBuilder { request }
    }

    /// Asks for the call to run in the background, or not.
    pub fn background(self, background: bool) -> (next: Self)
        ensures
            next@ == (ResponseRequest { background: Some(background), ..self@ }),
            next@ == Setting::Background(background).applied(self@),
    {
        let mut request = self.request;
        request.background = Some(background);
        ResponseRequestBuilder { request }
    }

    /// Asks for a streamed answer, or not.
    pub fn stream(self, stream: bool) -> (next: Self)
        ensures
            next@ == (ResponseRequest { stream: Some(stream), ..self@ }),
            next@ == Setting::Stream(stream).applied(self@),
    {
        let mut request = self.request;
        request.stream = Some(stream);
        ResponseRequestBuilder { request }
    }

    /// Says whether the service keeps the answer.
    pub fn store(self, store: bool) -> (next: Self)
        ensures
            next@ == (ResponseRequest { store: Some(store), ..self@ }),
            next@ == Setting::Store(store).applied(self@),
    {
        let mut request = self.request;
        request.store = Some(store);
        ResponseRequestBuilder { request }
    }

    /// Allows tool calls to run side by side, or not.
    pub fn parallel_tool_calls(self, parallel: bool) -> (next: Self)
        ensures
            next@ == (ResponseRequest { parallel_tool_calls: Some(parallel), ..self@ }),
            next@ == Setting::ParallelToolCalls(parallel).applied(self@),
    {
        let mut request = self.request;
        request.parallel_tool_calls = Some(parallel);
        ResponseRequestBuilder { request }
    }

    /// Picks the service tier.
    pub fn service_tier(self, tier: String) -> (next: Self)
        ensures
            next@ == (ResponseRequest { service_tier: Some(tier), ..self@ }),
            next@ == Setting::ServiceTier(tier).applied(self@),
    {
        let mut request = self.request;
        request.service_tier = Some(tier);
        ResponseRequestBuilder { request }
    }

    /// Picks the truncation strategy.
    pub fn truncation(self, truncation: String) -> (next: Self)
        ensures
            next@ == (ResponseRequest { truncation: Some(truncation), ..self@ }),
            next@ == Setting::Truncation(truncation).applied(self@),
    {
        let mut request = self.request;
        request.truncation = Some(truncation);
        ResponseRequestBuilder { request }
    }

    /// Names the end user.
    pub fn user(self, user: String) -> (next: Self)
        ensures
            next@ == (ResponseRequest { user: Some(user), ..self@ }),
            next@ == Setting::User(user).applied(self@),
    {
        let mut request = self.request;
        request.user = Some(user);
        ResponseRequestBuilder { request }
    }

    /// Links the call to an earlier answer by its id.
    pub fn previous_response_id(self, id: String) -> (next: Self)
        ensures
            next@ == (ResponseRequest { previous_response_id: Some(id), ..self@ }),
            next@ == Setting::PreviousResponseId(id).applied(self@),
    {
        let mut request = self.request;
        request.previous_response_id = Some(id);
        ResponseRequestBuilder { request }
    }

    /// Lists the tools the model may call.
    pub fn tools(self, tools: Vec<serde_json::Value>) -> (next: Self)
        ensures
            next@ == (ResponseRequest { tools: Some(tools), ..self@ }),
            next@ == Setting::Tools(tools).applied(self@),
    {
        let mut request = self.request;
        request.tools = Some(tools);
        ResponseRequestBuilder { request }
    }

    /// Picks the tool policy by name.
    pub fn tool_choice_string(self, choice: String) -> (next: Self)
        ensures
            next@ == (ResponseRequest { tool_choice: Some(ToolChoice::String(choice)), ..self@ }),
            next@ == Setting::ToolChoiceString(choice).applied(self@),
    {
        let mut request = self.request;
        request.tool_choice = Some(ToolChoice::String(choice));
        ResponseRequestBuilder { request }
    }

    /// Picks one tool by a selector object.
    pub fn tool_choice_object(self, choice: serde_json::Value) -> (next: Self)
        ensures
            next@ == (ResponseRequest { tool_choice: Some(ToolChoice::Object(choice)), ..self@ }),
            next@ == Setting::ToolChoiceObject(choice).applied(self@),
    {
        let mut request = self.request;
        request.tool_choice = Some(ToolChoice::Object(choice));
        ResponseRequestBuilder { request }
    }

    /// Caps the number of tool calls.
    pub fn max_tool_calls(self, max_calls: u32) -> (next: Self)
        ensures
            next@ == (ResponseRequest { max_tool_calls: Some(max_calls), ..self@ }),
            next@ == Setting::MaxToolCalls(max_calls).applied(self@),
    {
        let mut request = self.request;
        request.max_tool_calls = Some(max_calls);
        ResponseRequestBuilder { request }
    }

    /// Refers to a stored prompt template.
    pub fn prompt_template(self, template: PromptTemplate) -> (next: Self)
        ensures
            next@ == (ResponseRequest { prompt: Some(template), ..self@ }),
            next@ == Setting::PromptTemplate(template).applied(self@),
    {
        let mut request = self.request;
        request.prompt = Some(template);
        ResponseRequestBuilder { request }
    }

    /// Configures reasoning.
    pub fn reasoning_config(self, reasoning: ReasoningConfig) -> (next: Self)
        ensures
            next@ == (ResponseRequest { reasoning: Some(reasoning), ..self@ }),
            next@ == Setting::ReasoningConfig(reasoning).applied(self@),
    {
        let mut request = self.request;
        request.reasoning = Some(reasoning);
        ResponseRequestBuilder { request }
    }

    /// Configures the text format of the answer.
    pub fn text_config(self, text: TextConfig) -> (next: Self)
        ensures
            next@ == (ResponseRequest { text: Some(text), ..self@ }),
            next@ == Setting::TextConfig(text).applied(self@),
    {
        let mut request = self.request;
        request.text = Some(text);
        ResponseRequestBuilder { request }
    }

    /// Lists the additional data that the answer is to carry.
    pub fn includes(self, includes: Vec<String>) -> (next: Self)
        ensures
            next@ == (ResponseRequest { includes: Some(includes), ..self@ }),
            next@ == Setting::Includes(includes).applied(self@),
    {
        let mut request = self.request;
        request.includes = Some(includes);
        ResponseRequestBuilder { request }
    }

    /// Attaches a bag of key-value pairs.
    pub fn metadata(self, metadata: serde_json::Value) -> (next: Self)
        ensures
            next@ == (ResponseRequest { metadata: Some(metadata), ..self@ }),
            next@ == Setting::Metadata(metadata).applied(self@),
    {
        let mut request = self.request;
        request.metadata = Some(metadata);
        ResponseRequestBuilder { request }
    }

    /// Hands over the request as the setters left it.
    pub fn build(self) -> (request: ResponseRequest)
        ensures
            request == self@,
    {
        self.request
    }
}

/// The reasoning summary of an answer.
#[derive(Debug, Clone)]
pub struct Reasoning {
    pub effort: Option<String>,
    pub summary: Option<String>,
}

/// One message of an answer, with its content in order.
#[derive(Debug, Clone)]
pub struct OutputMessage {
    pub message_type: String,
    pub id: String,
    pub status: String,
    pub role: String,
    pub content: Vec<ContentType>,
}

#[derive(Debug)]
pub struct InputTokensDetails {
    pub cached_tokens: Option<u32>,
}

#[derive(Debug)]
pub struct OutputTokensDetails {
    pub reasoning_tokens: Option<u32>,
}

/// Token counts of a call.
#[derive(Debug)]
pub struct Usage {
    pub input_tokens: u32,
    pub output_tokens: u32,
    pub total_tokens: u32,
    pub input_tokens_details: Option<InputTokensDetails>,
    pub output_tokens_details: Option<OutputTokensDetails>,
}

/// The answer to a successful call.
#[derive(Debug)]
pub struct ResponseApiResponse {
    pub id: String,
    pub object: String,
    pub created_at: u64,
    pub status: String,
    pub error: Option<serde_json::Value>,
    pub incomplete_details: Option<serde_json::Value>,
    pub instructions: Option<String>,
    pub max_output_tokens: Option<u32>,
    pub model: String,
    pub output: Vec<OutputMessage>,
    pub parallel_tool_calls: bool,
    pub previous_response_id: Option<String>,
    pub reasoning: Option<Reasoning>,
    pub store: bool,
    pub temperature: Binary32,
    pub text: TextConfig,
    pub tool_choice: String,
    pub tools: Vec<serde_json::Value>,
    pub top_p: Binary32,
    pub truncation: String,
    pub usage: Usage,
    pub user: Option<String>,
    pub metadata: Option<serde_json::Value>,
}

} // verus!
