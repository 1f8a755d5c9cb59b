use crate::api::errors::OpenAIError;
use crate::api::models::ResponseApiResponse;
use crate::cli::verbose::{format_details, verbose_info, Style};
use crate::utils::content::{extract_response_content, message_texts, shown};
use vstd::prelude::*;
use vstd::string::StringExecFns;

verus! {

/// Lays out an answer as plain text.
pub struct OutputFormatter;

impl OutputFormatter {
    /// What is printed for an answer: a heading, the text of the answer on
    /// the next line, and below it the details where they are asked for.
    pub open spec fn response_text(
        response: ResponseApiResponse,
        verbose: bool,
        temperature: Seq<char>,
        top_p: Seq<char>,
    ) -> Seq<char> {
        "\n📝 Response:\n"@ + shown(message_texts(response.output@)) + "\n"@ + if verbose {
            verbose_info(Style::Plain, response, temperature, top_p)
        } else {
            Seq::empty()
        }
    }

    /// The text to print for an answer. An answer without output messages
    /// has none. The temperature and the nucleus-sampling mass come as the
    /// texts that show them; they are used where `verbose` is set.
    pub fn format_response(
        response: &ResponseApiResponse,
        verbose: bool,
        temperature: &str,
        top_p: &str,
    ) -> (outcome: Result<String, OpenAIError>)
        ensures
            response.output.len() == 0 ==> outcome == Err::<String, OpenAIError>(
                OpenAIError::NoOutputMessages,
            ),
            response.output.len() > 0 ==> outcome is Ok && outcome->Ok_0@ == Self::response_text(
                *response,
                verbose,
                temperature@,
                top_p@,
            ),
    {
        if response.output.len() == 0 {
            return Err(OpenAIError::NoOutputMessages);
        }
        let mut text = "\n📝 Response:\n".to_owned();
        let content = extract_response_content(response);
        text.append(content.as_str());
        text.append("\n");
        if verbose {
            let info = Self::format_verbose_info(response, temperature, top_p);
            text.append(info.as_str());
        }
        Ok(text)
    }

    /// The details of an answer as indented lines under four headings.
    pub fn format_verbose_info(response: &ResponseApiResponse, temperature: &str, top_p: &str) -> (info:
        String)
        ensures
            info@ == verbose_info(Style::Plain, *response, temperature@, top_p@),
    {
        format_details(Style::Plain, response, temperature, top_p)
    }
}

} // verus!
