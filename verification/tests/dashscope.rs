use uni_llm::error::DashScopeError;
use uni_llm::request::{
    ApiEndpoint, Content, GenerationRequest, GenerationRequestBuilder, MediaElement, Message, Parameters, Role,
    VideoInput,
};
use uni_llm::response::{
    parse_u16_text, status_code_of, Choice, GenerationResponse, Output, ResponseContent, ResponseMessage,
    StatusCodeValue, Usage,
};
use uni_llm::task::{TaskCancelResponse, TaskListItem, TaskListResponse, TaskStatus};

fn request_for(model: &str) -> GenerationRequest {
    GenerationRequest::builder().model(model).messages(vec![Message::user(Content::text("hi"))]).build().unwrap()
}

#[test]
fn endpoint_follows_the_model_name() {
    assert_eq!(request_for("qwen-plus").resolved_endpoint(), ApiEndpoint::TextGeneration);
    assert_eq!(request_for("qwen-vl-max").resolved_endpoint(), ApiEndpoint::MultimodalGeneration);
    assert_eq!(request_for("qwen3-vl-plus").resolved_endpoint(), ApiEndpoint::MultimodalGeneration);
    assert_eq!(request_for("qwen3.5-plus").resolved_endpoint(), ApiEndpoint::MultimodalGeneration);
    assert_eq!(request_for("some-vision-model").resolved_endpoint(), ApiEndpoint::MultimodalGeneration);
    assert_eq!(request_for("qwen3-max").resolved_endpoint(), ApiEndpoint::TextGeneration);
}

#[test]
fn explicit_endpoint_wins() {
    let r = GenerationRequestBuilder::new()
        .model("qwen-vl-max")
        .messages(vec![])
        .endpoint(ApiEndpoint::TextGeneration)
        .build()
        .unwrap();
    assert_eq!(r.resolved_endpoint(), ApiEndpoint::TextGeneration);
}

#[test]
fn build_requires_model_and_messages() {
    match GenerationRequest::builder().messages(vec![]).build() {
        Err(DashScopeError::InvalidConfiguration(m)) => assert_eq!(m, "model is required"),
        other => panic!("unexpected {:?}", other),
    }
    match GenerationRequest::builder().model("qwen-plus").build() {
        Err(DashScopeError::InvalidConfiguration(m)) => assert_eq!(m, "messages is required"),
        other => panic!("unexpected {:?}", other),
    }
}

#[test]
fn builder_sets_each_parameter() {
    let r = GenerationRequest::builder()
        .model("qwen-plus")
        .messages(vec![Message::system(Content::text("s")), Message::assistant(Content::from("a".to_string()))])
        .temperature(0.8f32.to_bits())
        .top_p(0.9f32.to_bits())
        .max_tokens(300)
        .result_format("message")
        .stop(vec!["END".to_string()])
        .stream(true)
        .build()
        .unwrap();
    let p = r.parameters.unwrap();
    assert_eq!(p.temperature.map(f32::from_bits), Some(0.8));
    assert_eq!(p.top_p.map(f32::from_bits), Some(0.9));
    assert_eq!(p.max_tokens, Some(300));
    assert_eq!(p.result_format.as_deref(), Some("message"));
    assert_eq!(p.stop, Some(vec!["END".to_string()]));
    assert_eq!(p.stream, Some(true));
    assert!(p.incremental_output.is_none());
    assert_eq!(r.input.messages.len(), 2);
    assert_eq!(r.input.messages[0].role, Role::System);
    let q = GenerationRequest::builder().parameters(Parameters::default()).model("m").messages(vec![]).build().unwrap();
    assert!(q.parameters.unwrap().temperature.is_none());
}

#[test]
fn media_elements() {
    let i = MediaElement::image("http://img");
    assert_eq!(i.image.as_deref(), Some("http://img"));
    assert!(i.text.is_none() && i.video.is_none() && i.audio.is_none() && i.fps.is_none());
    let v = MediaElement::video(VideoInput::Multiple(vec!["f1".to_string(), "f2".to_string()]), Some(2.0f32.to_bits()));
    assert!(matches!(v.video, Some(VideoInput::Multiple(ref fs)) if fs.len() == 2));
    assert_eq!(v.fps.map(f32::from_bits), Some(2.0));
    assert_eq!(MediaElement::audio("a.wav").audio.as_deref(), Some("a.wav"));
    assert_eq!(MediaElement::text("t").text.as_deref(), Some("t"));
    let c = Content::multimodal(vec![MediaElement::text("t")]);
    assert!(matches!(c, Content::Multimodal(ref es) if es.len() == 1));
    assert!(matches!(Content::from(vec![MediaElement::image("x")]), Content::Multimodal(_)));
}

fn response(output: Output) -> GenerationResponse {
    GenerationResponse { request_id: Some("r".to_string()), output, usage: None }
}

fn choice(content: Option<ResponseContent>) -> Choice {
    Choice {
        finish_reason: Some("stop".to_string()),
        message: ResponseMessage { role: "assistant".to_string(), content },
    }
}

#[test]
fn response_text_prefers_output_text() {
    let r = response(Output {
        text: Some("plain".to_string()),
        finish_reason: None,
        choices: Some(vec![choice(Some(ResponseContent::Text("other".to_string())))]),
    });
    assert_eq!(r.text().as_deref(), Some("plain"));
}

#[test]
fn response_text_from_the_first_choice() {
    let r = response(Output {
        text: None,
        finish_reason: None,
        choices: Some(vec![choice(Some(ResponseContent::Text("hello".to_string())))]),
    });
    assert_eq!(r.text().as_deref(), Some("hello"));
    let mm = response(Output {
        text: None,
        finish_reason: None,
        choices: Some(vec![choice(Some(ResponseContent::Multimodal(vec![
            MediaElement::image("x"),
            MediaElement::text("seen"),
            MediaElement::text("later"),
        ])))]),
    });
    assert_eq!(mm.text().as_deref(), Some("seen"));
    let no_text = response(Output {
        text: None,
        finish_reason: None,
        choices: Some(vec![choice(Some(ResponseContent::Multimodal(vec![MediaElement::image("x")])))]),
    });
    assert_eq!(no_text.text().as_deref(), Some(""));
}

#[test]
fn response_text_absent() {
    assert!(response(Output { text: None, finish_reason: None, choices: None }).text().is_none());
    assert!(response(Output { text: None, finish_reason: None, choices: Some(vec![]) }).text().is_none());
    assert!(response(Output { text: None, finish_reason: None, choices: Some(vec![choice(None)]) }).text().is_none());
}

#[test]
fn status_codes_as_numbers_or_strings() {
    assert_eq!(parse_u16_text("200"), Some(200));
    assert_eq!(parse_u16_text("+404"), Some(404));
    assert_eq!(parse_u16_text("0065535"), Some(65535));
    assert_eq!(parse_u16_text("65536"), None);
    assert_eq!(parse_u16_text(""), None);
    assert_eq!(parse_u16_text("+"), None);
    assert_eq!(parse_u16_text("-1"), None);
    assert_eq!(parse_u16_text("20O"), None);
    assert_eq!(parse_u16_text(" 200"), None);
    for s in ["0", "7", "200", "65535", "99999", "+1", "1+", "١٢"] {
        assert_eq!(parse_u16_text(s), s.parse::<u16>().ok(), "{}", s);
    }
    assert_eq!(status_code_of(None), Ok(None));
    assert_eq!(status_code_of(Some(StatusCodeValue::Num(500))), Ok(Some(500)));
    assert_eq!(status_code_of(Some(StatusCodeValue::Str("201".to_string()))), Ok(Some(201)));
    assert_eq!(status_code_of(Some(StatusCodeValue::Str("ok".to_string()))), Err("ok".to_string()));
}

#[test]
fn usage_and_task_types() {
    let u = Usage { input_tokens: Some(1), output_tokens: Some(2), total_tokens: None };
    assert_eq!(u, Usage { input_tokens: Some(1), output_tokens: Some(2), total_tokens: None });
    assert_ne!(TaskStatus::Pending, TaskStatus::Succeeded);
    let list = TaskListResponse {
        request_id: None,
        data: vec![TaskListItem { task_id: "t".to_string(), status: "RUNNING".to_string(), model_name: None, request_id: None }],
        total: Some(1),
        page_no: Some(1),
        page_size: Some(10),
        code: None,
        message: None,
    };
    assert_eq!(list.data[0].task_id, "t");
    assert!(TaskCancelResponse { request_id: None }.request_id.is_none());
}
