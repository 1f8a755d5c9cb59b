//! Client-side core of a text-generation HTTP API: the request and response
//! model, the request builder, the classification of failed calls and the
//! extraction of displayable text, each with a machine-checked contract.

pub mod api;
pub mod cli;
pub mod config;
pub mod utils;

pub use api::client::OpenAIClient;
pub use api::models::{
    ContentType, InputTokensDetails, InputType, OutputMessage, OutputTokensDetails,
    PromptTemplate, Reasoning, ReasoningConfig, ResponseApiResponse, ResponseRequest,
    ResponseRequestBuilder, TextConfig, TextFormat, ToolChoice, Usage,
};
pub use cli::args::Args;
pub use config::env::Config;
