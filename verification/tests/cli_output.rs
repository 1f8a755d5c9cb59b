use openai_api::api::binary32::Binary32;
use openai_api::api::errors::OpenAIError;
use openai_api::api::models::{
    ContentType, InputTokensDetails, OutputMessage, OutputTokensDetails, Reasoning,
    ResponseApiResponse, TextConfig, TextFormat, Usage,
};
use openai_api::cli::markdown::MarkdownRenderer;
use openai_api::cli::output::OutputFormatter;
use openai_api::cli::verbose::{format_details, Style};

fn fixture() -> ResponseApiResponse {
    ResponseApiResponse {
        id: "resp_67ccd2bed1ec8190b14f964abc0542670bb6a6b452d3795b".to_string(),
        object: "response".to_string(),
        created_at: 1741476542,
        status: "completed".to_string(),
        error: None,
        incomplete_details: None,
        instructions: None,
        max_output_tokens: None,
        model: "gpt-4.1-2025-04-14".to_string(),
        output: vec![OutputMessage {
            message_type: "message".to_string(),
            id: "msg_67ccd2bf17f0819081ff3bb2cf6508e60bb6a6b452d3795b".to_string(),
            status: "completed".to_string(),
            role: "assistant".to_string(),
            content: vec![ContentType::OutputText {
                text: "Hello! How can I assist you today?".to_string(),
                annotations: vec![],
            }],
        }],
        parallel_tool_calls: true,
        previous_response_id: None,
        reasoning: Some(Reasoning {
            effort: None,
            summary: None,
        }),
        store: true,
        temperature: Binary32::from_bits(1.0f32.to_bits()),
        text: TextConfig {
            format: TextFormat {
                format_type: "text".to_string(),
            },
        },
        tool_choice: "auto".to_string(),
        tools: vec![],
        top_p: Binary32::from_bits(1.0f32.to_bits()),
        truncation: "disabled".to_string(),
        usage: Usage {
            input_tokens: 36,
            output_tokens: 87,
            total_tokens: 123,
            input_tokens_details: Some(InputTokensDetails {
                cached_tokens: Some(0),
            }),
            output_tokens_details: Some(OutputTokensDetails {
                reasoning_tokens: Some(0),
            }),
        },
        user: None,
        metadata: Some(serde_json::Value::Object(serde_json::Map::new())),
    }
}

fn bare() -> ResponseApiResponse {
    ResponseApiResponse {
        output: vec![],
        reasoning: None,
        usage: Usage {
            input_tokens: 0,
            output_tokens: u32::MAX,
            total_tokens: 7,
            input_tokens_details: Some(InputTokensDetails {
                cached_tokens: None,
            }),
            output_tokens_details: None,
        },
        store: false,
        parallel_tool_calls: false,
        ..fixture()
    }
}

#[test]
fn the_three_token_counts_are_reported_as_they_came() {
    let response = fixture();
    assert_eq!(response.usage.input_tokens, 36);
    assert_eq!(response.usage.output_tokens, 87);
    assert_eq!(response.usage.total_tokens, 123);

    let plain = OutputFormatter::format_verbose_info(&response, "1", "1");
    assert!(plain.contains("  Input tokens: 36\n"));
    assert!(plain.contains("  Output tokens: 87\n"));
    assert!(plain.contains("  Total tokens: 123\n"));

    let marked = MarkdownRenderer::new().format_verbose_info(&response, "1", "1");
    assert!(marked.contains("- **Input tokens**: `36`\n"));
    assert!(marked.contains("- **Output tokens**: `87`\n"));
    assert!(marked.contains("- **Total tokens**: `123`\n"));

    assert_eq!(
        openai_api::utils::content::extract_response_content(&response),
        "Hello! How can I assist you today?"
    );
}

#[test]
fn the_plain_details_of_an_answer() {
    let expected = "\n📊 Response Metadata:\n\
\x20 Response ID: resp_67ccd2bed1ec8190b14f964abc0542670bb6a6b452d3795b\n\
\x20 Model: gpt-4.1-2025-04-14\n\
\x20 Created At: 1741476542\n\
\x20 Status: completed\n\
\x20 Object: response\n\
\x20 Message ID: msg_67ccd2bf17f0819081ff3bb2cf6508e60bb6a6b452d3795b\n\
\x20 Message Status: completed\n\
\x20 Role: assistant\n\
\n📊 Configuration:\n\
\x20 Temperature: 1\n\
\x20 Top P: 0.9\n\
\x20 Tool Choice: auto\n\
\x20 Truncation: disabled\n\
\x20 Store: true\n\
\x20 Parallel Tool Calls: true\n\
\n📊 Token Usage:\n\
\x20 Input tokens: 36\n\
\x20 Output tokens: 87\n\
\x20 Total tokens: 123\n\
\x20 Cached tokens: 0\n\
\x20 Reasoning tokens: 0\n\
\n📊 Reasoning:\n";
    assert_eq!(
        OutputFormatter::format_verbose_info(&fixture(), "1", "0.9"),
        expected
    );
    assert_eq!(
        format_details(Style::Plain, &fixture(), "1", "0.9"),
        expected
    );
}

#[test]
fn the_markdown_details_of_an_answer() {
    let expected = "\n## 📊 Response Metadata\n\n\
- **Response ID**: `resp_67ccd2bed1ec8190b14f964abc0542670bb6a6b452d3795b`\n\
- **Model**: `gpt-4.1-2025-04-14`\n\
- **Created At**: `1741476542`\n\
- **Status**: `completed`\n\
- **Object**: `response`\n\
- **Message ID**: `msg_67ccd2bf17f0819081ff3bb2cf6508e60bb6a6b452d3795b`\n\
- **Message Status**: `completed`\n\
- **Role**: `assistant`\n\
\n## 📊 Configuration\n\n\
- **Temperature**: `1`\n\
- **Top P**: `0.9`\n\
- **Tool Choice**: `auto`\n\
- **Truncation**: `disabled`\n\
- **Store**: `true`\n\
- **Parallel Tool Calls**: `true`\n\
\n## 📊 Token Usage\n\n\
- **Input tokens**: `36`\n\
- **Output tokens**: `87`\n\
- **Total tokens**: `123`\n\
- **Cached tokens**: `0`\n\
- **Reasoning tokens**: `0`\n\
\n## 📊 Reasoning\n\n";
    assert_eq!(
        MarkdownRenderer::new().format_verbose_info(&fixture(), "1", "0.9"),
        expected
    );
    assert_eq!(
        format_details(Style::Markdown, &fixture(), "1", "0.9"),
        expected
    );
}

#[test]
fn details_leave_out_what_the_answer_leaves_out() {
    let expected = "\n📊 Response Metadata:\n\
\x20 Response ID: resp_67ccd2bed1ec8190b14f964abc0542670bb6a6b452d3795b\n\
\x20 Model: gpt-4.1-2025-04-14\n\
\x20 Created At: 1741476542\n\
\x20 Status: completed\n\
\x20 Object: response\n\
\n📊 Configuration:\n\
\x20 Temperature: 0.7\n\
\x20 Top P: 1\n\
\x20 Tool Choice: auto\n\
\x20 Truncation: disabled\n\
\x20 Store: false\n\
\x20 Parallel Tool Calls: false\n\
\n📊 Token Usage:\n\
\x20 Input tokens: 0\n\
\x20 Output tokens: 4294967295\n\
\x20 Total tokens: 7\n";
    assert_eq!(
        OutputFormatter::format_verbose_info(&bare(), "0.7", "1"),
        expected
    );
}

#[test]
fn details_show_reasoning_and_the_earlier_answer() {
    let response = ResponseApiResponse {
        reasoning: Some(Reasoning {
            effort: Some("high".to_string()),
            summary: Some("Thought *hard* about it".to_string()),
        }),
        previous_response_id: Some("resp_0".to_string()),
        usage: Usage {
            input_tokens: 1,
            output_tokens: 2,
            total_tokens: 3,
            input_tokens_details: None,
            output_tokens_details: Some(OutputTokensDetails {
                reasoning_tokens: Some(2),
            }),
        },
        ..bare()
    };
    let plain = OutputFormatter::format_verbose_info(&response, "1", "1");
    assert!(plain.ends_with(
        "\n📊 Token Usage:\n\
\x20 Input tokens: 1\n\
\x20 Output tokens: 2\n\
\x20 Total tokens: 3\n\
\x20 Reasoning tokens: 2\n\
\n📊 Reasoning:\n\
\x20 Effort: high\n\
\x20 Summary: Thought *hard* about it\n\
\x20 Previous Response ID: resp_0\n"
    ));
    let marked = MarkdownRenderer::new().format_verbose_info(&response, "1", "1");
    assert!(marked.ends_with(
        "\n## 📊 Token Usage\n\n\
- **Input tokens**: `1`\n\
- **Output tokens**: `2`\n\
- **Total tokens**: `3`\n\
- **Reasoning tokens**: `2`\n\
\n## 📊 Reasoning\n\n\
- **Effort**: `high`\n\
- **Summary**: Thought *hard* about it\n\
- **Previous Response ID**: `resp_0`\n"
    ));
}

#[test]
fn details_show_only_the_first_message() {
    let mut response = fixture();
    response.output.push(OutputMessage {
        message_type: "message".to_string(),
        id: "msg_second".to_string(),
        status: "failed".to_string(),
        role: "tool".to_string(),
        content: vec![],
    });
    let plain = OutputFormatter::format_verbose_info(&response, "1", "1");
    assert!(plain.contains("  Message ID: msg_67ccd2bf17f0819081ff3bb2cf6508e60bb6a6b452d3795b\n"));
    assert!(!plain.contains("msg_second"));
    assert!(!plain.contains("failed"));
}

#[test]
fn format_response_without_details() {
    let text = OutputFormatter::format_response(&fixture(), false, "1", "1")
        .ok()
        .unwrap();
    assert_eq!(
        text,
        "\n📝 Response:\nHello! How can I assist you today?\n"
    );
}

#[test]
fn format_response_with_details() {
    let text = OutputFormatter::format_response(&fixture(), true, "1", "0.9")
        .ok()
        .unwrap();
    let details = OutputFormatter::format_verbose_info(&fixture(), "1", "0.9");
    assert_eq!(
        text,
        format!(
            "\n📝 Response:\nHello! How can I assist you today?\n{}",
            details
        )
    );
}

#[test]
fn format_response_of_messages_without_content() {
    let mut response = fixture();
    response.output[0].content.clear();
    let text = OutputFormatter::format_response(&response, false, "1", "1")
        .ok()
        .unwrap();
    assert_eq!(text, "\n📝 Response:\nNo content available\n");
}

#[test]
fn format_response_refuses_an_answer_without_messages() {
    for verbose in [false, true] {
        match OutputFormatter::format_response(&bare(), verbose, "1", "1") {
            Err(OpenAIError::NoOutputMessages) => {}
            other => panic!("expected no output messages, got {:?}", other),
        }
    }
}

#[test]
fn render_response_marks_plain_text_as_plain() {
    let rendering = MarkdownRenderer::new()
        .render_response(&fixture(), false, "1", "1")
        .ok()
        .unwrap();
    assert_eq!(rendering.heading, "\n📝 Response:");
    assert_eq!(rendering.content, "Hello! How can I assist you today?");
    assert!(!rendering.markdown);
    assert_eq!(rendering.verbose_info, None);
}

#[test]
fn render_response_marks_markdown_as_markdown() {
    let mut response = fixture();
    response.output[0].content = vec![
        ContentType::Text {
            text: "# Title".to_string(),
        },
        ContentType::Text {
            text: "body".to_string(),
        },
    ];
    let renderer = MarkdownRenderer::default();
    let rendering = renderer
        .render_response(&response, true, "1", "0.9")
        .ok()
        .unwrap();
    assert_eq!(rendering.content, "# Title body");
    assert!(rendering.markdown);
    assert_eq!(
        rendering.verbose_info,
        Some(renderer.format_verbose_info(&response, "1", "0.9"))
    );
}

#[test]
fn render_response_sees_a_mark_that_the_joining_space_completes() {
    let mut response = fixture();
    response.output[0].content = vec![
        ContentType::Text {
            text: "item 1.".to_string(),
        },
        ContentType::Text {
            text: "next".to_string(),
        },
    ];
    let rendering = MarkdownRenderer::new()
        .render_response(&response, false, "1", "1")
        .ok()
        .unwrap();
    assert_eq!(rendering.content, "item 1. next");
    assert!(rendering.markdown);
}

#[test]
fn render_response_refuses_an_answer_without_messages() {
    for verbose in [false, true] {
        match MarkdownRenderer::new().render_response(&bare(), verbose, "1", "1") {
            Err(OpenAIError::NoOutputMessages) => {}
            other => panic!("expected no output messages, got {:?}", other),
        }
    }
}
