use openai_api::api::binary32::Binary32;
use openai_api::api::models::{
    ContentType, OutputMessage, ResponseApiResponse, TextConfig, TextFormat, Usage,
};
use openai_api::utils::content::{extract_content_from_array, extract_response_content};

fn one() -> Binary32 {
    Binary32::from_bits(1.0f32.to_bits())
}

#[test]
fn utils_content_test_extract_response_content() {
    let response = ResponseApiResponse {
        id: "test-123".to_string(),
        object: "response".to_string(),
        created_at: 1741476542,
        status: "completed".to_string(),
        error: None,
        incomplete_details: None,
        instructions: None,
        max_output_tokens: None,
        model: "gpt-4.1".to_string(),
        output: vec![OutputMessage {
            message_type: "message".to_string(),
            id: "msg-123".to_string(),
            status: "completed".to_string(),
            role: "assistant".to_string(),
            content: vec![ContentType::Text {
                text: "Simple message".to_string(),
            }],
        }],
        parallel_tool_calls: true,
        previous_response_id: None,
        reasoning: None,
        store: true,
        temperature: one(),
        text: TextConfig {
            format: TextFormat {
                format_type: "text".to_string(),
            },
        },
        tool_choice: "auto".to_string(),
        tools: vec![],
        top_p: one(),
        truncation: "disabled".to_string(),
        usage: Usage {
            input_tokens: 10,
            output_tokens: 20,
            total_tokens: 30,
            input_tokens_details: None,
            output_tokens_details: None,
        },
        user: None,
        metadata: None,
    };

    assert_eq!(extract_response_content(&response), "Simple message");
}

#[test]
fn test_extract_complex_content() {
    let content_array = vec![
        ContentType::Text {
            text: "Hello".to_string(),
        },
        ContentType::OutputText {
            text: "World".to_string(),
            annotations: vec![],
        },
    ];

    assert_eq!(extract_content_from_array(&content_array), "Hello World");
}

#[test]
fn test_extract_no_content() {
    let response = ResponseApiResponse {
        id: "test-123".to_string(),
        object: "response".to_string(),
        created_at: 1741476542,
        status: "completed".to_string(),
        error: None,
        incomplete_details: None,
        instructions: None,
        max_output_tokens: None,
        model: "gpt-4.1".to_string(),
        output: vec![],
        parallel_tool_calls: true,
        previous_response_id: None,
        reasoning: None,
        store: true,
        temperature: one(),
        text: TextConfig {
            format: TextFormat {
                format_type: "text".to_string(),
            },
        },
        tool_choice: "auto".to_string(),
        tools: vec![],
        top_p: one(),
        truncation: "disabled".to_string(),
        usage: Usage {
            input_tokens: 10,
            output_tokens: 20,
            total_tokens: 30,
            input_tokens_details: None,
            output_tokens_details: None,
        },
        user: None,
        metadata: None,
    };

    assert_eq!(extract_response_content(&response), "No content available");
}

#[test]
fn test_extract_empty_content_array() {
    let content_array: Vec<ContentType> = vec![];
    assert_eq!(
        extract_content_from_array(&content_array),
        "No content available"
    );
}

#[test]
fn test_extract_mixed_content() {
    let content_array = vec![
        ContentType::Text {
            text: "First".to_string(),
        },
        ContentType::Text {
            text: "Second".to_string(),
        },
        ContentType::OutputText {
            text: "Third".to_string(),
            annotations: vec![],
        },
    ];

    assert_eq!(
        extract_content_from_array(&content_array),
        "First Second Third"
    );
}

fn plain(text: &str) -> ContentType {
    ContentType::Text {
        text: text.to_string(),
    }
}

fn rendered(text: &str) -> ContentType {
    ContentType::OutputText {
        text: text.to_string(),
        annotations: vec![serde_json::Value::from("note")],
    }
}

fn message(content: Vec<ContentType>) -> OutputMessage {
    OutputMessage {
        message_type: "message".to_string(),
        id: "msg".to_string(),
        status: "completed".to_string(),
        role: "assistant".to_string(),
        content,
    }
}

fn answer(output: Vec<OutputMessage>) -> ResponseApiResponse {
    ResponseApiResponse {
        id: "resp".to_string(),
        object: "response".to_string(),
        created_at: 0,
        status: "completed".to_string(),
        error: None,
        incomplete_details: None,
        instructions: None,
        max_output_tokens: None,
        model: "m".to_string(),
        output,
        parallel_tool_calls: false,
        previous_response_id: None,
        reasoning: None,
        store: false,
        temperature: one(),
        text: TextConfig {
            format: TextFormat {
                format_type: "text".to_string(),
            },
        },
        tool_choice: "auto".to_string(),
        tools: vec![],
        top_p: one(),
        truncation: "disabled".to_string(),
        usage: Usage {
            input_tokens: 0,
            output_tokens: 0,
            total_tokens: 0,
            input_tokens_details: None,
            output_tokens_details: None,
        },
        user: None,
        metadata: None,
    }
}

#[test]
fn one_text_item_is_shown_as_it_is() {
    assert_eq!(
        extract_response_content(&answer(vec![message(vec![plain("Hello")])])),
        "Hello"
    );
}

#[test]
fn two_items_of_one_message_are_joined_by_a_space() {
    let response = answer(vec![message(vec![
        plain("Hello"),
        ContentType::OutputText {
            text: "World".to_string(),
            annotations: vec![],
        },
    ])]);
    assert_eq!(extract_response_content(&response), "Hello World");
}

#[test]
fn the_order_of_the_items_shows() {
    assert_eq!(
        extract_content_from_array(&[plain("World"), plain("Hello")]),
        "World Hello"
    );
    assert_eq!(
        extract_content_from_array(&[plain("Hello"), plain("World")]),
        "Hello World"
    );
}

#[test]
fn the_kind_of_an_item_does_not_show() {
    let kinds = [
        vec![plain("a"), plain("b")],
        vec![rendered("a"), plain("b")],
        vec![plain("a"), rendered("b")],
        vec![rendered("a"), rendered("b")],
    ];
    for content in kinds {
        assert_eq!(extract_content_from_array(&content), "a b");
        assert_eq!(
            extract_response_content(&answer(vec![message(content)])),
            "a b"
        );
    }
}

#[test]
fn messages_are_read_one_after_the_other() {
    let response = answer(vec![
        message(vec![plain("one"), rendered("two")]),
        message(vec![]),
        message(vec![plain("three")]),
        message(vec![rendered("four"), plain("five")]),
    ]);
    assert_eq!(
        extract_response_content(&response),
        "one two three four five"
    );
}

#[test]
fn messages_without_content_read_as_no_content() {
    let response = answer(vec![message(vec![]), message(vec![])]);
    assert_eq!(extract_response_content(&response), "No content available");
}

#[test]
fn empty_texts_are_parts_too() {
    assert_eq!(extract_content_from_array(&[plain("")]), "");
    assert_eq!(extract_content_from_array(&[plain(""), plain("")]), " ");
    assert_eq!(
        extract_content_from_array(&[plain("a"), plain(""), rendered("b")]),
        "a  b"
    );
    assert_eq!(
        extract_response_content(&answer(vec![message(vec![plain("")])])),
        ""
    );
}

#[test]
fn texts_are_not_trimmed_or_changed() {
    assert_eq!(
        extract_content_from_array(&[plain(" a\n"), rendered("\tß→𝄞 ")]),
        " a\n \tß→𝄞 "
    );
    assert_eq!(
        extract_content_from_array(&[plain("No content available")]),
        "No content available"
    );
}

#[test]
fn the_array_reads_as_its_message_does() {
    let contents = [
        vec![],
        vec![plain("x")],
        vec![plain("x"), rendered("y"), plain("z")],
    ];
    for content in contents {
        let from_array = extract_content_from_array(&content);
        let from_message = extract_response_content(&answer(vec![message(content)]));
        assert_eq!(from_array, from_message);
    }
}
