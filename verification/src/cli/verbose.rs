use crate::api::models::{OutputMessage, Reasoning, ResponseApiResponse, Usage};
use crate::utils::text::{decimal, decimal_text};
use vstd::prelude::*;
use vstd::string::StringExecFns;

verus! {

/// The two ways in which the details of an answer are laid out.
#[derive(Debug, Clone, Copy, PartialEq, Eq, Structural)]
pub enum Style {
    /// Indented lines under headings that end in a colon.
    Plain,
    /// Markdown: second-level headings and bullets, with the values as code.
    Markdown,
}

/// The heading of a section, with the blank lines around it.
pub open spec fn heading(style: Style, title: Seq<char>) -> Seq<char> {
    match style {
        Style::Plain => "\n📊 "@ + title + ":\n"@,
        Style::Markdown => "\n## 📊 "@ + title + "\n\n"@,
    }
}

/// One labelled value, on a line of its own.
pub open spec fn entry(style: Style, label: Seq<char>, value: Seq<char>) -> Seq<char> {
    match style {
        Style::Plain => "  "@ + label + ": "@ + value + "\n"@,
        Style::Markdown => "- **"@ + label + "**: `"@ + value + "`\n"@,
    }
}

/// One labelled stretch of prose, on a line of its own: in markdown it is
/// not set as code.
pub open spec fn prose_entry(style: Style, label: Seq<char>, value: Seq<char>) -> Seq<char> {
    match style {
        Style::Plain => "  "@ + label + ": "@ + value + "\n"@,
        Style::Markdown => "- **"@ + label + "**: "@ + value + "\n"@,
    }
}

/// A flag as it is shown.
pub open spec fn flag(value: bool) -> Seq<char> {
    if value {
        "true"@
    } else {
        "false"@
    }
}

/// The entry for a value that may be missing: nothing where it is.
pub open spec fn optional_entry(style: Style, label: Seq<char>, value: Option<Seq<char>>) -> Seq<
    char,
> {
    match value {
        Some(value) => entry(style, label, value),
        None => Seq::empty(),
    }
}

/// The entries that describe the first output message, if there is one.
pub open spec fn first_message(style: Style, output: Seq<OutputMessage>) -> Seq<char> {
    if output.len() == 0 {
        Seq::empty()
    } else {
        entry(style, "Message ID"@, output[0].id@) + entry(
            style,
            "Message Status"@,
            output[0].status@,
        ) + entry(style, "Role"@, output[0].role@)
    }
}

/// The section that identifies the answer.
pub open spec fn metadata_section(style: Style, response: ResponseApiResponse) -> Seq<char> {
    heading(style, "Response Metadata"@) + entry(style, "Response ID"@, response.id@) + entry(
        style,
        "Model"@,
        response.model@,
    ) + entry(style, "Created At"@, decimal(response.created_at as nat)) + entry(
        style,
        "Status"@,
        response.status@,
    ) + entry(style, "Object"@, response.object@) + first_message(style, response.output@)
}

/// The section that echoes the configuration of the call. The two numbers
/// come as the texts that show them.
pub open spec fn configuration_section(
    style: Style,
    response: ResponseApiResponse,
    temperature: Seq<char>,
    top_p: Seq<char>,
) -> Seq<char> {
    heading(style, "Configuration"@) + entry(style, "Temperature"@, temperature) + entry(
        style,
        "Top P"@,
        top_p,
    ) + entry(style, "Tool Choice"@, response.tool_choice@) + entry(
        style,
        "Truncation"@,
        response.truncation@,
    ) + entry(style, "Store"@, flag(response.store)) + entry(
        style,
        "Parallel Tool Calls"@,
        flag(response.parallel_tool_calls),
    )
}

/// The number of cached input tokens, where the answer gives one.
pub open spec fn cached_tokens(usage: Usage) -> Option<Seq<char>> {
    match usage.input_tokens_details {
        Some(details) => match details.cached_tokens {
            Some(count) => Some(decimal(count as nat)),
            None => None,
        },
        None => None,
    }
}

/// The number of reasoning tokens, where the answer gives one.
pub open spec fn reasoning_tokens(usage: Usage) -> Option<Seq<char>> {
    match usage.output_tokens_details {
        Some(details) => match details.reasoning_tokens {
            Some(count) => Some(decimal(count as nat)),
            None => None,
        },
        None => None,
    }
}

/// The section that counts the tokens: the three totals as they came, then
/// the breakdowns that are there.
pub open spec fn usage_section(style: Style, usage: Usage) -> Seq<char> {
    heading(style, "Token Usage"@) + entry(
        style,
        "Input tokens"@,
        decimal(usage.input_tokens as nat),
    ) + entry(style, "Output tokens"@, decimal(usage.output_tokens as nat)) + entry(
        style,
        "Total tokens"@,
        decimal(usage.total_tokens as nat),
    ) + optional_entry(style, "Cached tokens"@, cached_tokens(usage)) + optional_entry(
        style,
        "Reasoning tokens"@,
        reasoning_tokens(usage),
    )
}

/// The summary of the reasoning, where there is one.
pub open spec fn summary_entry(style: Style, summary: Option<String>) -> Seq<char> {
    match summary {
        Some(summary) => prose_entry(style, "Summary"@, summary@),
        None => Seq::empty(),
    }
}

/// The section on reasoning, where the answer has one.
pub open spec fn reasoning_section(style: Style, reasoning: Option<Reasoning>) -> Seq<char> {
    match reasoning {
        Some(reasoning) => heading(style, "Reasoning"@) + optional_entry(
            style,
            "Effort"@,
            match reasoning.effort {
                Some(effort) => Some(effort@),
                None => None,
            },
        ) + summary_entry(style, reasoning.summary),
        None => Seq::empty(),
    }
}

/// The entry that names the answer before this one, where there is one.
pub open spec fn previous_entry(style: Style, previous: Option<String>) -> Seq<char> {
    match previous {
        Some(id) => entry(style, "Previous Response ID"@, id@),
        None => Seq::empty(),
    }
}

/// The details of an answer, section after section.
pub open spec fn verbose_info(
    style: Style,
    response: ResponseApiResponse,
    temperature: Seq<char>,
    top_p: Seq<char>,
) -> Seq<char> {
    metadata_section(style, response) + configuration_section(
        style,
        response,
        temperature,
        top_p,
    ) + usage_section(style, response.usage) + reasoning_section(style, response.reasoning)
        + previous_entry(style, response.previous_response_id)
}

/// Putting a third text after two is putting the last two after the first.
proof fn lemma_append_twice(start: Seq<char>, written: Seq<char>, next: Seq<char>)
    ensures
        (start + written) + next == start + (written + next),
{
}

fn push_heading(out: &mut String, style: Style, title: &str)
    ensures
        final(out)@ == old(out)@ + heading(style, title@),
{
    match style {
        Style::Plain => {
            out.append("\n📊 ");
            out.append(title);
            out.append(":\n");
        },
        Style::Markdown => {
            out.append("\n## 📊 ");
            out.append(title);
            out.append("\n\n");
        },
    }
}

fn push_entry(out: &mut String, style: Style, label: &str, value: &str)
    ensures
        final(out)@ == old(out)@ + entry(style, label@, value@),
{
    match style {
        Style::Plain => {
            out.append("  ");
            out.append(label);
            out.append(": ");
            out.append(value);
            out.append("\n");
        },
        Style::Markdown => {
            out.append("- **");
            out.append(label);
            out.append("**: `");
            out.append(value);
            out.append("`\n");
        },
    }
}

fn push_prose_entry(out: &mut String, style: Style, label: &str, value: &str)
    ensures
        final(out)@ == old(out)@ + prose_entry(style, label@, value@),
{
    match style {
        Style::Plain => {
            out.append("  ");
            out.append(label);
            out.append(": ");
            out.append(value);
            out.append("\n");
        },
        Style::Markdown => {
            out.append("- **");
            out.append(label);
            out.append("**: ");
            out.append(value);
            out.append("\n");
        },
    }
}

/// Writes an entry after what a section has written so far. `start` is what
/// stood in `out` before the section, `written` what the section has added.
fn add_entry(
    out: &mut String,
    style: Style,
    label: &str,
    value: &str,
    Ghost(start): Ghost<Seq<char>>,
    Ghost(written): Ghost<Seq<char>>,
) -> (now: Ghost<Seq<char>>)
    requires
        old(out)@ == start + written,
    ensures
        final(out)@ == start + now@,
        now@ == written + entry(style, label@, value@),
{
    push_entry(out, style, label, value);
    proof {
        lemma_append_twice(start, written, entry(style, label@, value@));
    }
    Ghost(written + entry(style, label@, value@))
}

/// Writes the entry of a value that may be missing.
fn add_optional_entry(
    out: &mut String,
    style: Style,
    label: &str,
    value: Option<&str>,
    Ghost(start): Ghost<Seq<char>>,
    Ghost(written): Ghost<Seq<char>>,
) -> (now: Ghost<Seq<char>>)
    requires
        old(out)@ == start + written,
    ensures
        final(out)@ == start + now@,
        now@ == written + optional_entry(
            style,
            label@,
            match value {
                Some(value) => Some(value@),
                None => None,
            },
        ),
{
    match value {
        Some(value) => add_entry(out, style, label, value, Ghost(start), Ghost(written)),
        None => Ghost(written),
    }
}

/// Writes the entry of a number.
fn add_count(
    out: &mut String,
    style: Style,
    label: &str,
    count: u64,
    Ghost(start): Ghost<Seq<char>>,
    Ghost(written): Ghost<Seq<char>>,
) -> (now: Ghost<Seq<char>>)
    requires
        old(out)@ == start + written,
    ensures
        final(out)@ == start + now@,
        now@ == written + entry(style, label@, decimal(count as nat)),
{
    let digits = decimal_text(count);
    add_entry(out, style, label, digits.as_str(), Ghost(start), Ghost(written))
}

/// Writes the entry of a number that may be missing.
fn add_optional_count(
    out: &mut String,
    style: Style,
    label: &str,
    count: Option<u32>,
    Ghost(start): Ghost<Seq<char>>,
    Ghost(written): Ghost<Seq<char>>,
) -> (now: Ghost<Seq<char>>)
    requires
        old(out)@ == start + written,
    ensures
        final(out)@ == start + now@,
        now@ == written + optional_entry(
            style,
            label@,
            match count {
                Some(count) => Some(decimal(count as nat)),
                None => None,
            },
        ),
{
    match count {
        Some(count) => add_count(out, style, label, count as u64, Ghost(start), Ghost(written)),
        None => Ghost(written),
    }
}

/// Writes the entry of a flag.
fn add_flag(
    out: &mut String,
    style: Style,
    label: &str,
    value: bool,
    Ghost(start): Ghost<Seq<char>>,
    Ghost(written): Ghost<Seq<char>>,
) -> (now: Ghost<Seq<char>>)
    requires
        old(out)@ == start + written,
    ensures
        final(out)@ == start + now@,
        now@ == written + entry(style, label@, flag(value)),
{
    if value {
        add_entry(out, style, label, "true", Ghost(start), Ghost(written))
    } else {
        add_entry(out, style, label, "false", Ghost(start), Ghost(written))
    }
}

fn push_first_message(out: &mut String, style: Style, output: &Vec<OutputMessage>)
    ensures
        final(out)@ == old(out)@ + first_message(style, output@),
{
    let ghost start = out@;
    if output.len() > 0 {
        let first = &output[0];
        push_entry(out, style, "Message ID", first.id.as_str());
        let written = Ghost(entry(style, "Message ID"@, first.id@));
        let written = add_entry(
            out,
            style,
            "Message Status",
            first.status.as_str(),
            Ghost(start),
            written,
        );
        let _ = add_entry(out, style, "Role", first.role.as_str(), Ghost(start), written);
    }
}

fn push_metadata(out: &mut String, style: Style, response: &ResponseApiResponse)
    ensures
        final(out)@ == old(out)@ + metadata_section(style, *response),
{
    let ghost start = out@;
    push_heading(out, style, "Response Metadata");
    let written = Ghost(heading(style, "Response Metadata"@));
    let written = add_entry(out, style, "Response ID", response.id.as_str(), Ghost(start), written);
    let written = add_entry(out, style, "Model", response.model.as_str(), Ghost(start), written);
    let written = add_count(out, style, "Created At", response.created_at, Ghost(start), written);
    let written = add_entry(out, style, "Status", response.status.as_str(), Ghost(start), written);
    let written = add_entry(out, style, "Object", response.object.as_str(), Ghost(start), written);
    push_first_message(out, style, &response.output);
    proof {
        lemma_append_twice(start, written@, first_message(style, response.output@));
    }
}

fn push_configuration(
    out: &mut String,
    style: Style,
    response: &ResponseApiResponse,
    temperature: &str,
    top_p: &str,
)
    ensures
        final(out)@ == old(out)@ + configuration_section(style, *response, temperature@, top_p@),
{
    let ghost start = out@;
    push_heading(out, style, "Configuration");
    let written = Ghost(heading(style, "Configuration"@));
    let written = add_entry(out, style, "Temperature", temperature, Ghost(start), written);
    let written = add_entry(out, style, "Top P", top_p, Ghost(start), written);
    let written = add_entry(
        out,
        style,
        "Tool Choice",
        response.tool_choice.as_str(),
        Ghost(start),
        written,
    );
    let written = add_entry(
        out,
        style,
        "Truncation",
        response.truncation.as_str(),
        Ghost(start),
        written,
    );
    let written = add_flag(out, style, "Store", response.store, Ghost(start), written);
    let _ = add_flag(
        out,
        style,
        "Parallel Tool Calls",
        response.parallel_tool_calls,
        Ghost(start),
        written,
    );
}

fn push_usage(out: &mut String, style: Style, usage: &Usage)
    ensures
        final(out)@ == old(out)@ + usage_section(style, *usage),
{
    let ghost start = out@;
    push_heading(out, style, "Token Usage");
    let written = Ghost(heading(style, "Token Usage"@));
    let written = add_count(
        out,
        style,
        "Input tokens",
        usage.input_tokens as u64,
        Ghost(start),
        written,
    );
    let written = add_count(
        out,
        style,
        "Output tokens",
        usage.output_tokens as u64,
        Ghost(start),
        written,
    );
    let written = add_count(
        out,
        style,
        "Total tokens",
        usage.total_tokens as u64,
        Ghost(start),
        written,
    );
    let cached = match &usage.input_tokens_details {
        Some(details) => details.cached_tokens,
        None => None,
    };
    let written = add_optional_count(out, style, "Cached tokens", cached, Ghost(start), written);
    let reasoning = match &usage.output_tokens_details {
        Some(details) => details.reasoning_tokens,
        None => None,
    };
    let _ = add_optional_count(out, style, "Reasoning tokens", reasoning, Ghost(start), written);
}

fn push_reasoning(out: &mut String, style: Style, reasoning: &Option<Reasoning>)
    ensures
        final(out)@ == old(out)@ + reasoning_section(style, *reasoning),
{
    let ghost start = out@;
    if let Some(reasoning) = reasoning {
        push_heading(out, style, "Reasoning");
        let written = Ghost(heading(style, "Reasoning"@));
        let effort = match &reasoning.effort {
            Some(effort) => Some(effort.as_str()),
            None => None,
        };
        let written = add_optional_entry(out, style, "Effort", effort, Ghost(start), written);
        if let Some(summary) = &reasoning.summary {
            push_prose_entry(out, style, "Summary", summary.as_str());
            proof {
                lemma_append_twice(start, written@, prose_entry(style, "Summary"@, summary@));
            }
        }
    }
}

fn push_previous(out: &mut String, style: Style, previous: &Option<String>)
    ensures
        final(out)@ == old(out)@ + previous_entry(style, *previous),
{
    if let Some(id) = previous {
        push_entry(out, style, "Previous Response ID", id.as_str());
    }
}

/// Lays out the details of an answer in the given style. The temperature and
/// the nucleus-sampling mass come as the texts that show them.
pub fn format_details(
    style: Style,
    response: &ResponseApiResponse,
    temperature: &str,
    top_p: &str,
) -> (info: String)
    ensures
        info@ == verbose_info(style, *response, temperature@, top_p@),
{
    let mut info = String::new();
    push_metadata(&mut info, style, response);
    push_configuration(&mut info, style, response, temperature, top_p);
    push_usage(&mut info, style, &response.usage);
    push_reasoning(&mut info, style, &response.reasoning);
    push_previous(&mut info, style, &response.previous_response_id);
    info
}

} // verus!
