use crate::api::binary32::Binary32;
use crate::utils::text::{same_text, trim, trimmed};
use vstd::prelude::*;

verus! {

/// What the command line asks for.
#[derive(Debug)]
pub struct Args {
    /// The question to send. Where there is none, the user is asked for one.
    pub prompt: Option<String>,
    pub model: String,
    /// Show usage statistics and metadata with the answer.
    pub verbose: bool,
    pub temperature: Option<Binary32>,
    /// Show the answer as JSON.
    pub json: bool,
    /// Show the answer as rendered markdown. This is the default.
    pub markdown: bool,
    /// Show the answer as plain text.
    pub plain: bool,
    pub max_output_tokens: Option<u32>,
    pub instructions: Option<String>,
    pub stream: bool,
    pub background: bool,
    pub service_tier: Option<String>,
    pub user: Option<String>,
    pub previous_response_id: Option<String>,
    pub top_p: Option<Binary32>,
    pub top_logprobs: Option<u32>,
    pub truncation: String,
    pub store: Option<bool>,
    pub parallel_tool_calls: Option<bool>,
}

/// How the answer is shown.
#[derive(Debug, Clone, Copy, PartialEq, Eq, Structural)]
pub enum DisplayMode {
    Markdown,
    Plain,
    Json,
}

/// What is wrong with the arguments.
#[derive(Debug, Clone, Copy, PartialEq, Eq, Structural)]
pub enum ArgsError {
    Temperature,
    TopP,
    TopLogprobs,
    ServiceTier,
    Truncation,
    OutputFormat,
    NoPrompt,
}

impl ArgsError {
    pub open spec fn message(self) -> Seq<char> {
        match self {
            ArgsError::Temperature => "Temperature must be between 0.0 and 2.0"@,
            ArgsError::TopP => "Top-p must be between 0.0 and 1.0"@,
            ArgsError::TopLogprobs => "Top logprobs must be between 0 and 20"@,
            ArgsError::ServiceTier => "Service tier must be one of: auto, default, flex, priority"@,
            ArgsError::Truncation => "Truncation must be either 'auto' or 'disabled'"@,
            ArgsError::OutputFormat => "Only one of --json and --plain can be given"@,
            ArgsError::NoPrompt => "No prompt provided"@,
        }
    }

    /// The complaint, for a person to read.
    pub fn to_string(&self) -> (text: String)
        ensures
            text@ == self.message(),
    {
        match self {
            ArgsError::Temperature => "Temperature must be between 0.0 and 2.0".to_owned(),
            ArgsError::TopP => "Top-p must be between 0.0 and 1.0".to_owned(),
            ArgsError::TopLogprobs => "Top logprobs must be between 0 and 20".to_owned(),
            ArgsError::ServiceTier => "Service tier must be one of: auto, default, flex, priority".to_owned(),
            ArgsError::Truncation => "Truncation must be either 'auto' or 'disabled'".to_owned(),
            ArgsError::OutputFormat => "Only one of --json and --plain can be given".to_owned(),
            ArgsError::NoPrompt => "No prompt provided".to_owned(),
        }
    }
}

/// `Err(error)` where `wrong` holds, `Ok(())` where it does not.
pub open spec fn refused_if(wrong: bool, error: ArgsError) -> Result<(), ArgsError> {
    if wrong {
        Err(error)
    } else {
        Ok(())
    }
}

/// Whether the text names a service tier.
pub open spec fn is_service_tier(tier: Seq<char>) -> bool {
    tier == "auto"@ || tier == "default"@ || tier == "flex"@ || tier == "priority"@
}

/// Whether the text names a truncation strategy.
pub open spec fn is_truncation(strategy: Seq<char>) -> bool {
    strategy == "auto"@ || strategy == "disabled"@
}

impl Args {
    /// The prompt that was given on the command line, if one was. Where
    /// there is none, the caller asks the user for a line and hands it to
    /// `get_prompt_from_user`.
    pub fn get_prompt(&self) -> (prompt: Option<String>)
        ensures
            prompt == self.prompt,
    {
        match &self.prompt {
            Some(prompt) => Some(prompt.clone()),
            None => None,
        }
    }

    /// The prompt in the line that the user typed: the line without the
    /// white space at its ends, unless nothing is left of it.
    pub fn get_prompt_from_user(&self, input: &str) -> (prompt: Result<String, ArgsError>)
        ensures
            trimmed(input@).len() == 0 ==> prompt == Err::<String, ArgsError>(ArgsError::NoPrompt),
            trimmed(input@).len() > 0 ==> prompt is Ok && prompt->Ok_0@ == trimmed(input@),
    {
        let inner = trim(input);
        if inner.is_empty() {
            return Err(ArgsError::NoPrompt);
        }
        Ok(inner.to_owned())
    }

    /// No temperature is given, or the one given is a number from 0.0 to
    /// 2.0, both ends counted. A NaN is no such number.
    pub open spec fn temperature_in_range(self) -> bool {
        match self.temperature {
            Some(temperature) => temperature.within(
                Binary32 { bits: 0 },
                Binary32 { bits: 0x4000_0000 },
            ),
            None => true,
        }
    }

    /// No nucleus-sampling mass is given, or the one given is a number from
    /// 0.0 to 1.0, both ends counted. A NaN is no such number.
    pub open spec fn top_p_in_range(self) -> bool {
        match self.top_p {
            Some(top_p) => top_p.within(Binary32 { bits: 0 }, Binary32 { bits: 0x3f80_0000 }),
            None => true,
        }
    }

    pub open spec fn top_logprobs_in_range(self) -> bool {
        match self.top_logprobs {
            Some(logprobs) => logprobs <= 20,
            None => true,
        }
    }

    pub open spec fn service_tier_known(self) -> bool {
        match self.service_tier {
            Some(tier) => is_service_tier(tier@),
            None => true,
        }
    }

    pub open spec fn truncation_known(self) -> bool {
        is_truncation(self.truncation@)
    }

    /// JSON and plain text are not both asked for. Markdown is the default
    /// and gives way to either.
    pub open spec fn one_output_format(self) -> bool {
        !(self.json && self.plain)
    }

    /// The first complaint about the arguments, in the order in which they
    /// are checked, or `Ok(())` where there is none.
    pub open spec fn verdict(self) -> Result<(), ArgsError> {
        if !self.temperature_in_range() {
            Err(ArgsError::Temperature)
        } else if !self.top_p_in_range() {
            Err(ArgsError::TopP)
        } else if !self.top_logprobs_in_range() {
            Err(ArgsError::TopLogprobs)
        } else if !self.service_tier_known() {
            Err(ArgsError::ServiceTier)
        } else if !self.truncation_known() {
            Err(ArgsError::Truncation)
        } else if !self.one_output_format() {
            Err(ArgsError::OutputFormat)
        } else {
            Ok(())
        }
    }

    /// A temperature, where one is given, is a number from 0.0 to 2.0. A NaN
    /// is refused like any other value outside that range.
    pub fn validate_temperature(&self) -> (outcome: Result<(), ArgsError>)
        ensures
            outcome == refused_if(!self.temperature_in_range(), ArgsError::Temperature),
    {
        if let Some(temperature) = self.temperature {
            if !temperature.is_within(Binary32::zero(), Binary32::two()) {
                return Err(ArgsError::Temperature);
            }
        }
        Ok(())
    }

    /// A nucleus-sampling mass, where one is given, is a number from 0.0 to
    /// 1.0. A NaN is refused like any other value outside that range.
    pub fn validate_top_p(&self) -> (outcome: Result<(), ArgsError>)
        ensures
            outcome == refused_if(!self.top_p_in_range(), ArgsError::TopP),
    {
        if let Some(top_p) = self.top_p {
            if !top_p.is_within(Binary32::zero(), Binary32::one()) {
                return Err(ArgsError::TopP);
            }
        }
        Ok(())
    }

    /// A number of log probabilities, where one is given, is at most 20.
    pub fn validate_top_logprobs(&self) -> (outcome: Result<(), ArgsError>)
        ensures
            outcome == refused_if(!self.top_logprobs_in_range(), ArgsError::TopLogprobs),
    {
        if let Some(logprobs) = self.top_logprobs {
            if logprobs > 20 {
                return Err(ArgsError::TopLogprobs);
            }
        }
        Ok(())
    }

    /// A service tier, where one is given, is auto, default, flex or
    /// priority.
    pub fn validate_service_tier(&self) -> (outcome: Result<(), ArgsError>)
        ensures
            outcome == refused_if(!self.service_tier_known(), ArgsError::ServiceTier),
    {
        if let Some(tier) = &self.service_tier {
            let tier = tier.as_str();
            if same_text(tier, "auto") || same_text(tier, "default") || same_text(tier, "flex")
                || same_text(tier, "priority") {
                Ok(())
            } else {
                Err(ArgsError::ServiceTier)
            }
        } else {
            Ok(())
        }
    }

    /// The truncation strategy is auto or disabled.
    pub fn validate_truncation(&self) -> (outcome: Result<(), ArgsError>)
        ensures
            outcome == refused_if(!self.truncation_known(), ArgsError::Truncation),
    {
        let strategy = self.truncation.as_str();
        if same_text(strategy, "auto") || same_text(strategy, "disabled") {
            Ok(())
        } else {
            Err(ArgsError::Truncation)
        }
    }

    /// At most one of JSON and plain text is asked for.
    pub fn validate_output_format(&self) -> (outcome: Result<(), ArgsError>)
        ensures
            outcome == refused_if(!self.one_output_format(), ArgsError::OutputFormat),
    {
        if self.json && self.plain {
            Err(ArgsError::OutputFormat)
        } else {
            Ok(())
        }
    }

    /// The way to show the answer: JSON or plain text where asked for,
    /// markdown otherwise.
    pub fn get_display_mode(&self) -> (mode: DisplayMode)
        ensures
            mode == if self.json {
                DisplayMode::Json
            } else if self.plain {
                DisplayMode::Plain
            } else {
                DisplayMode::Markdown
            },
    {
        if self.json {
            DisplayMode::Json
        } else if self.plain {
            DisplayMode::Plain
        } else {
            DisplayMode::Markdown
        }
    }

    /// Runs every check, in a fixed order, and stops at the first complaint.
    pub fn validate_all(&self) -> (outcome: Result<(), ArgsError>)
        ensures
            outcome == self.verdict(),
    {
        if let Err(error) = self.validate_temperature() {
            return Err(error);
        }
        if let Err(error) = self.validate_top_p() {
            return Err(error);
        }
        if let Err(error) = self.validate_top_logprobs() {
            return Err(error);
        }
        if let Err(error) = self.validate_service_tier() {
            return Err(error);
        }
        if let Err(error) = self.validate_truncation() {
            return Err(error);
        }
        if let Err(error) = self.validate_output_format() {
            return Err(error);
        }
        Ok(())
    }
}

} // verus!
