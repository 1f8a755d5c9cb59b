use crate::api::errors::OpenAIError;
use crate::api::models::ResponseApiResponse;
use crate::cli::verbose::{format_details, verbose_info, Style};
use crate::utils::content::{extract_response_content, message_texts, shown};
use crate::utils::text::{chars_of, contains, occurs_in};
use vstd::prelude::*;

verus! {

/// Decides how an answer is rendered on a terminal that can show markdown.
#[derive(Debug)]
pub struct MarkdownRenderer {}

/// An answer, ready for the terminal.
#[derive(Debug)]
pub struct Rendering {
    /// The line that goes before the answer.
    pub heading: String,
    /// The text of the answer.
    pub content: String,
    /// Whether the text is to be rendered as markdown rather than printed as
    /// it stands.
    pub markdown: bool,
    /// The details of the answer, as markdown, where they were asked for.
    pub verbose_info: Option<String>,
}

/// Whether the text holds one of the marks by which markdown is told: an
/// asterisk or two, a backtick or three, a heading of the first or second
/// level, a bullet, the first item of a numbered list, or a quotation.
pub open spec fn has_markdown(text: Seq<char>) -> bool {
    ||| occurs_in("**"@, text)
    ||| occurs_in("*"@, text)
    ||| occurs_in("`"@, text)
    ||| occurs_in("# "@, text)
    ||| occurs_in("## "@, text)
    ||| occurs_in("- "@, text)
    ||| occurs_in("1. "@, text)
    ||| occurs_in("```"@, text)
    ||| occurs_in("> "@, text)
}

fn holds(text: &Vec<char>, mark: &str) -> (found: bool)
    ensures
        found == occurs_in(mark@, text@),
{
    let mark = chars_of(mark);
    contains(text, &mark)
}

impl MarkdownRenderer {
    pub fn new() -> (renderer: Self) {
        MarkdownRenderer {  }
    }

    /// What to put on the terminal for an answer: its text, marked as
    /// markdown where it looks like markdown, and its details where
    /// `verbose` is set. An answer without output messages has no rendering.
    pub fn render_response(
        &self,
        response: &ResponseApiResponse,
        verbose: bool,
        temperature: &str,
        top_p: &str,
    ) -> (outcome: Result<Rendering, OpenAIError>)
        ensures
            response.output.len() == 0 ==> outcome == Err::<Rendering, OpenAIError>(
                OpenAIError::NoOutputMessages,
            ),
            response.output.len() > 0 ==> {
                &&& outcome is Ok
                &&& outcome->Ok_0.heading@ == "\n📝 Response:"@
                &&& outcome->Ok_0.content@ == shown(message_texts(response.output@))
                &&& outcome->Ok_0.markdown == has_markdown(outcome->Ok_0.content@)
                &&& verbose ==> outcome->Ok_0.verbose_info is Some
                    && outcome->Ok_0.verbose_info->0@ == verbose_info(
                    Style::Markdown,
                    *response,
                    temperature@,
                    top_p@,
                )
                &&& !verbose ==> outcome->Ok_0.verbose_info is None
            },
    {
        if response.output.len() == 0 {
            return Err(OpenAIError::NoOutputMessages);
        }
        let content = extract_response_content(response);
        let markdown = self.looks_like_markdown(content.as_str());
        let verbose_info = if verbose {
            Some(self.format_verbose_info(response, temperature, top_p))
        } else {
            None
        };
        Ok(Rendering { heading: "\n📝 Response:".to_owned(), content, markdown, verbose_info })
    }

    /// Whether the text looks like markdown.
    pub fn looks_like_markdown(&self, text: &str) -> (looks: bool)
        ensures
            looks == has_markdown(text@),
    {
        let text = chars_of(text);
        holds(&text, "**") || holds(&text, "*") || holds(&text, "`") || holds(&text, "# ")
            || holds(&text, "## ") || holds(&text, "- ") || holds(&text, "1. ") || holds(
            &text,
            "```",
        ) || holds(&text, "> ")
    }

    /// The details of an answer as markdown: bullets under four headings.
    pub fn format_verbose_info(
        &self,
        response: &ResponseApiResponse,
        temperature: &str,
        top_p: &str,
    ) -> (info: String)
        ensures
            info@ == verbose_info(Style::Markdown, *response, temperature@, top_p@),
    {
        format_details(Style::Markdown, response, temperature, top_p)
    }
}

impl Default for MarkdownRenderer {
    fn default() -> (renderer: Self) {
        Self::new()
    }
}

} // verus!
