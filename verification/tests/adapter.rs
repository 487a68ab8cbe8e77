use cursor_api::adapter::{
    decoded_image, image_format, split_base64_image, AdapterError, ImageFormat, Openai,
};
use cursor_api::model::{
    ChatCompletionContentPartText, ChatCompletionContentText, ChatCompletionTool,
    FunctionDefinition, ImageUrl, Parameters,
};

#[test]
fn image_url_extract_strips_the_data_prefix() {
    let u = ImageUrl { url: "data:image/png;base64,AAAA".to_string() };
    assert_eq!(u.extract(), Ok("png;base64,AAAA"));
    let u = ImageUrl { url: "https://example.com/a.png".to_string() };
    assert_eq!(u.extract(), Err("https://example.com/a.png"));
    let u = ImageUrl { url: "data:image".to_string() };
    assert_eq!(u.extract(), Err("data:image"));
}

#[test]
fn image_formats_named() {
    assert_eq!(image_format("png"), Some(ImageFormat::Png));
    assert_eq!(image_format("jpg"), Some(ImageFormat::Jpeg));
    assert_eq!(image_format("jpeg"), Some(ImageFormat::Jpeg));
    assert_eq!(image_format("gif"), Some(ImageFormat::Gif));
    assert_eq!(image_format("webp"), Some(ImageFormat::WebP));
    assert_eq!(image_format("PNG"), None);
    assert_eq!(image_format("bmp"), None);
    assert_eq!(image_format(""), None);
}

#[test]
fn split_base64_image_cases() {
    assert_eq!(split_base64_image("gif;base64,R0lG"), Ok((ImageFormat::Gif, "R0lG")));
    assert_eq!(split_base64_image("png;base64,a;base64,b"), Ok((ImageFormat::Png, "a;base64,b")));
    assert_eq!(split_base64_image("png,AAAA"), Err(AdapterError::Base64DecodeFailed));
    assert_eq!(split_base64_image("bmp;base64,AAAA"), Err(AdapterError::UnsupportedImageFormat));
}

#[test]
fn process_base64_image_decodes_payload() {
    assert_eq!(
        Openai::_process_base64_image("png;base64,aGVsbG8="),
        Ok((b"hello".to_vec(), ImageFormat::Png))
    );
    assert_eq!(
        Openai::_process_base64_image("jpeg;base64,AAEC"),
        Ok((vec![0, 1, 2], ImageFormat::Jpeg))
    );
    assert_eq!(
        Openai::_process_base64_image("webp;base64,"),
        Ok((vec![], ImageFormat::WebP))
    );
}

#[test]
fn process_base64_image_errors() {
    assert_eq!(
        Openai::_process_base64_image("png;base64,!!!!"),
        Err(AdapterError::Base64DecodeFailed)
    );
    assert_eq!(Openai::_process_base64_image("pngAAAA"), Err(AdapterError::Base64DecodeFailed));
    assert_eq!(
        Openai::_process_base64_image("tiff;base64,AAAA"),
        Err(AdapterError::UnsupportedImageFormat)
    );
}

#[test]
fn decoded_image_pairs_bytes_with_format() {
    assert_eq!(decoded_image(Some(vec![7]), ImageFormat::Gif), Ok((vec![7], ImageFormat::Gif)));
    assert_eq!(decoded_image(None, ImageFormat::Gif), Err(AdapterError::Base64DecodeFailed));
}

#[test]
fn tool_result_pieces_and_hint() {
    let s = ChatCompletionContentText::String("done".to_string());
    assert!(!s.is_error());
    assert_eq!(s.size_hint(), Some(1));
    let mut b = vec!["x".to_string()];
    s.add_to(&mut b);
    assert_eq!(b, vec!["x".to_string(), "done".to_string()]);

    let a = ChatCompletionContentText::Array(vec![
        ChatCompletionContentPartText::Text { text: "one".to_string() },
        ChatCompletionContentPartText::Other,
        ChatCompletionContentPartText::Thinking { thinking: "three".to_string() },
    ]);
    assert_eq!(a.size_hint(), Some(3));
    let mut b = Vec::new();
    a.add_to(&mut b);
    assert_eq!(b, vec!["one".to_string(), String::new(), "three".to_string()]);
    assert_eq!(b.len(), 3);
}

#[test]
fn tool_extract_gives_name_description_parameters() {
    let def = FunctionDefinition {
        name: "search".to_string(),
        description: Some("find things".to_string()),
        parameters: Parameters::from_entries(vec![
            ("type".to_string(), serde_json::Value::String("object".to_string())),
            ("required".to_string(), serde_json::Value::Array(vec![])),
        ]),
    };
    let (name, description, parameters) = ChatCompletionTool::Function { function: def }.extract();
    assert_eq!(name, "search");
    assert_eq!(description.as_deref(), Some("find things"));
    let parameters = parameters.into_entries();
    assert_eq!(parameters.len(), 2);
    assert_eq!(parameters[0].0, "type");
    assert_eq!(parameters[1].1, serde_json::Value::Array(vec![]));
}

#[test]
fn text_is_the_result_pieces_joined() {
    let make = || {
        ChatCompletionContentText::Array(vec![
            ChatCompletionContentPartText::Text { text: "a".to_string() },
            ChatCompletionContentPartText::InputJson { input: "{}".to_string() },
            ChatCompletionContentPartText::Thinking { thinking: "c".to_string() },
        ])
    };
    let mut pieces = Vec::new();
    make().add_to(&mut pieces);
    assert_eq!(make().text(), pieces.join("\n"));
}

#[test]
fn repeated_parameter_keys_keep_first_place_and_last_value() {
    let p = Parameters::from_entries(vec![
        ("a".to_string(), serde_json::Value::from(1)),
        ("b".to_string(), serde_json::Value::from(2)),
        ("a".to_string(), serde_json::Value::from(3)),
    ]);
    assert_eq!(p.entries().len(), 2);
    let e = p.into_entries();
    assert_eq!(e[0], ("a".to_string(), serde_json::Value::from(3)));
    assert_eq!(e[1], ("b".to_string(), serde_json::Value::from(2)));
}
