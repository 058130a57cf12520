use how_to::chat::{bearer_token, build_request_body, endpoint_url, extract_reply, request_value};
use how_to::cli::{decide, CliAction};
use how_to::config::{
    default_model, default_prompt, generated_config_value, generated_json_text, Configuration,
};
use how_to::errors::CliError;
use how_to::json::{json_text, obj_get, str_of, JsonValue};

fn sample_config(key: &str, prompt: &str, model: &str) -> Configuration {
    Configuration {
        api_key: key.to_string(),
        prompt: prompt.to_string(),
        model: model.to_string(),
    }
}

#[test]
fn request_body_two_messages_in_order() {
    let config = sample_config("A", "B", "C");
    let body = build_request_body(&config, "how do I list files");
    assert_eq!(
        body,
        "{\"model\":\"C\",\"messages\":[{\"role\":\"system\",\"content\":\"B\"},{\"role\":\"user\",\"content\":\"how do I list files\"}]}"
    );
}

#[test]
fn request_body_parses_back_with_contents_verbatim() {
    let config = sample_config("secret", "Answer tersely, \"please\".", "gpt-3.5-turbo");
    let user = "what does `ls -la`\ndo?";
    let body = build_request_body(&config, user);
    let v: serde_json::Value = serde_json::from_str(&body).expect("the body must be valid JSON");
    assert_eq!(v["model"], "gpt-3.5-turbo");
    let messages = v["messages"].as_array().expect("messages must be an array");
    assert_eq!(messages.len(), 2);
    assert_eq!(messages[0]["role"], "system");
    assert_eq!(messages[0]["content"], "Answer tersely, \"please\".");
    assert_eq!(messages[1]["role"], "user");
    assert_eq!(messages[1]["content"], user);
}

#[test]
fn environment_override_takes_precedence() {
    let loaded = sample_config("A", "B", "C");
    let resolved = loaded.with_overrides(Some("Z".to_string()), None, None);
    assert_eq!(resolved.api_key, "Z");
    assert_eq!(resolved.prompt, "B");
    assert_eq!(resolved.model, "C");
}

#[test]
fn resolve_applies_overrides_over_loaded_file() {
    let loaded = Ok(sample_config("A", "B", "C"));
    let resolved =
        Configuration::resolve(loaded, Some("Z".to_string()), None, Some("M".to_string()))
            .expect("a loaded configuration resolves");
    assert_eq!(resolved.api_key, "Z");
    assert_eq!(resolved.prompt, "B");
    assert_eq!(resolved.model, "M");
}

#[test]
fn generation_twice_keeps_only_second_key() {
    let first = generated_json_text("first-key");
    let second = generated_json_text("second-key");
    assert!(!second.contains("first-key"));
    let config = Configuration::from_json_text(&second).expect("generated text must parse");
    assert_eq!(config.api_key, "second-key");
    assert_eq!(config.prompt, default_prompt());
    assert_eq!(config.model, default_model());
    assert_ne!(first, second);
}

#[test]
fn generated_text_is_pretty_object() {
    let text = generated_json_text("k");
    assert!(text.starts_with("{\n  \"api_key\": \"k\",\n"));
    assert!(text.ends_with("\"\n}"));
}

#[test]
fn generated_value_holds_key_and_defaults() {
    let v = generated_config_value("some-key");
    let config = Configuration::from_json_value(&v).expect("the generated document is complete");
    assert_eq!(config.api_key, "some-key");
    assert_eq!(config.prompt, default_prompt());
    assert_eq!(config.model, default_model());
}

#[test]
fn missing_file_without_full_overrides_is_config_missing() {
    let r = Configuration::resolve(
        Err(CliError::ConfigMissing),
        Some("Z".to_string()),
        None,
        None,
    );
    assert!(matches!(r, Err(CliError::ConfigMissing)));
}

#[test]
fn missing_file_with_full_overrides_resolves() {
    let r = Configuration::resolve(
        Err(CliError::ConfigMissing),
        Some("k".to_string()),
        Some("p".to_string()),
        Some("m".to_string()),
    )
    .expect("a full override set resolves");
    assert_eq!(r.api_key, "k");
    assert_eq!(r.prompt, "p");
    assert_eq!(r.model, "m");
}

#[test]
fn malformed_file_text_is_config_invalid() {
    let r = Configuration::from_json_text("{\"api_key\": \"a\",");
    assert!(matches!(r, Err(CliError::ConfigInvalid)));
}

#[test]
fn well_formed_file_text_loads() {
    let text = "{\"api_key\": \"a\", \"prompt\": \"p\", \"model\": \"m\"}";
    let config = Configuration::from_json_text(text).expect("complete text must load");
    assert_eq!(config.api_key, "a");
    assert_eq!(config.prompt, "p");
    assert_eq!(config.model, "m");
}

#[test]
fn file_text_missing_a_field_is_config_invalid() {
    let text = "{\"api_key\": \"a\", \"prompt\": \"p\"}";
    let r = Configuration::from_json_text(text);
    assert!(matches!(r, Err(CliError::ConfigInvalid)));
}

#[test]
fn file_text_with_non_string_field_is_config_invalid() {
    let text = "{\"api_key\": \"a\", \"prompt\": \"p\", \"model\": 3}";
    let r = Configuration::from_json_text(text);
    assert!(matches!(r, Err(CliError::ConfigInvalid)));
}

#[test]
fn successful_response_yields_reply() {
    let body = "{\"choices\":[{\"message\":{\"content\":\"ls -la\"}}]}";
    let reply = extract_reply(body).expect("a complete response yields its reply");
    assert_eq!(reply, "ls -la");
}

#[test]
fn response_without_choices_is_response_format_error() {
    let body = "{\"id\":\"x\"}";
    assert!(matches!(extract_reply(body), Err(CliError::ResponseFormat)));
}

#[test]
fn response_with_empty_choices_is_response_format_error() {
    let body = "{\"choices\":[]}";
    assert!(matches!(extract_reply(body), Err(CliError::ResponseFormat)));
}

#[test]
fn response_with_non_string_content_is_response_format_error() {
    let body = "{\"choices\":[{\"message\":{\"content\":7}}]}";
    assert!(matches!(extract_reply(body), Err(CliError::ResponseFormat)));
}

#[test]
fn unparsable_response_is_response_format_error() {
    assert!(matches!(extract_reply("not json"), Err(CliError::ResponseFormat)));
}

#[test]
fn no_arguments_is_usage() {
    assert!(matches!(decide(None, None), CliAction::Usage));
}

#[test]
fn prompt_and_generate_together_is_usage() {
    let r = decide(Some("p".to_string()), Some("k".to_string()));
    assert!(matches!(r, CliAction::Usage));
}

#[test]
fn prompt_alone_asks() {
    let r = decide(Some("p".to_string()), None);
    assert!(matches!(r, CliAction::Ask(p) if p == "p"));
}

#[test]
fn generate_key_alone_generates() {
    let r = decide(None, Some("k".to_string()));
    assert!(matches!(r, CliAction::Generate(k) if k == "k"));
}

#[test]
fn bearer_token_prefixes_the_key() {
    let config = sample_config("abc123", "p", "m");
    assert_eq!(bearer_token(&config), "Bearer abc123");
}

#[test]
fn endpoint_is_the_chat_completions_url() {
    assert_eq!(endpoint_url(), "https://api.openai.com/v1/chat/completions");
}

#[test]
fn serializer_and_parser_round_trip() {
    let v = JsonValue::Obj(vec![
        ("a".to_string(), JsonValue::Arr(vec![JsonValue::Null, JsonValue::Bool(true)])),
        ("b \"q\"".to_string(), JsonValue::Str("line\nbreak\tand \\ \u{1}".to_string())),
    ]);
    let text = json_text(&v);
    let back: serde_json::Value = serde_json::from_str(&text).expect("serialized text must parse");
    assert_eq!(back["a"], serde_json::Value::Array(vec![
        serde_json::Value::Null,
        serde_json::Value::Bool(true),
    ]));
    assert_eq!(back["b \"q\""], "line\nbreak\tand \\ \u{1}");
}

#[test]
fn escaping_flows_through_generated_config() {
    let key = "we\"ird\\key\nwith\tcontrol\u{2}chars";
    let text = generated_json_text(key);
    let config = Configuration::from_json_text(&text).expect("generated text must parse");
    assert_eq!(config.api_key, key);
}

#[test]
fn request_value_document_shape() {
    let config = sample_config("k", "sys", "m");
    let v = request_value(&config, "usr");
    let model = obj_get(&v, "model").expect("the document names a model");
    assert_eq!(str_of(model).expect("the model is a string"), "m");
    let body = json_text(&v);
    let parsed: serde_json::Value = serde_json::from_str(&body).unwrap();
    assert_eq!(parsed["messages"][0]["role"], "system");
    assert_eq!(parsed["messages"][0]["content"], "sys");
    assert_eq!(parsed["messages"][1]["role"], "user");
    assert_eq!(parsed["messages"][1]["content"], "usr");
}

#[test]
fn error_messages_are_not_empty() {
    let errors = vec![
        CliError::Usage,
        CliError::ConfigMissing,
        CliError::ConfigInvalid,
        CliError::Transport("connection refused".to_string()),
        CliError::ResponseFormat,
    ];
    for e in errors {
        assert!(!e.message().is_empty());
    }
}

#[test]
fn transport_message_names_the_cause() {
    let e = CliError::Transport("connection refused".to_string());
    assert!(e.message().contains("connection refused"));
}
