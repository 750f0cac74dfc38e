use tl_cli::translation::client::{ChatCompletionRequest, Message, OutboundRequest};
use tl_cli::translation::{TranslationClient, TranslationRequest};

fn create_test_request() -> TranslationRequest {
    TranslationRequest {
        source_text: "Hello, world!".to_string(),
        target_language: "ja".to_string(),
        model: "gemma3:12b".to_string(),
        endpoint: "http://localhost:11434".to_string(),
        style: None,
    }
}

#[test]
fn test_cache_key_is_consistent() {
    let request = create_test_request();
    let key1 = request.cache_key();
    let key2 = request.cache_key();
    assert_eq!(key1, key2);
}

#[test]
fn test_cache_key_is_hex_string() {
    let request = create_test_request();
    let key = request.cache_key();
    // SHA-256 produces 64 hex characters
    assert_eq!(key.len(), 64);
    assert!(key.chars().all(|c| c.is_ascii_hexdigit()));
}

#[test]
fn test_cache_key_differs_for_different_source_text() {
    let request1 = create_test_request();
    let mut request2 = create_test_request();
    request2.source_text = "Different text".to_string();
    assert_ne!(request1.cache_key(), request2.cache_key());
}

#[test]
fn test_cache_key_differs_for_different_target_language() {
    let request1 = create_test_request();
    let mut request2 = create_test_request();
    request2.target_language = "en".to_string();
    assert_ne!(request1.cache_key(), request2.cache_key());
}

#[test]
fn test_cache_key_differs_for_different_model() {
    let request1 = create_test_request();
    let mut request2 = create_test_request();
    request2.model = "gpt-4o".to_string();
    assert_ne!(request1.cache_key(), request2.cache_key());
}

#[test]
fn test_cache_key_differs_for_different_endpoint() {
    let request1 = create_test_request();
    let mut request2 = create_test_request();
    request2.endpoint = "https://api.openai.com".to_string();
    assert_ne!(request1.cache_key(), request2.cache_key());
}

#[test]
fn test_prompt_hash_is_consistent() {
    let hash1 = TranslationRequest::prompt_hash();
    let hash2 = TranslationRequest::prompt_hash();
    assert_eq!(hash1, hash2);
}

#[test]
fn test_prompt_hash_is_hex_string() {
    let hash = TranslationRequest::prompt_hash();
    // SHA-256 produces 64 hex characters
    assert_eq!(hash.len(), 64);
    assert!(hash.chars().all(|c| c.is_ascii_hexdigit()));
}

#[test]
fn test_translation_client_new() {
    let client = TranslationClient::new(
        "http://localhost:11434".to_string(),
        Some("test-api-key".to_string()),
    );
    assert_eq!(client.endpoint, "http://localhost:11434");
    assert_eq!(client.api_key, Some("test-api-key".to_string()));
}

#[test]
fn test_translation_client_new_without_api_key() {
    let client = TranslationClient::new("http://localhost:11434".to_string(), None);
    assert_eq!(client.endpoint, "http://localhost:11434");
    assert!(client.api_key.is_none());
}

#[test]
fn test_build_url_without_trailing_slash() {
    let client = TranslationClient::new("http://localhost:11434".to_string(), None);
    assert_eq!(client.build_url(), "http://localhost:11434/v1/chat/completions");
}

#[test]
fn test_build_url_with_trailing_slash() {
    let client = TranslationClient::new("http://localhost:11434/".to_string(), None);
    assert_eq!(client.build_url(), "http://localhost:11434/v1/chat/completions");
}

#[test]
fn build_url_drops_every_trailing_slash() {
    let client = TranslationClient::new("http://host///".to_string(), None);
    assert_eq!(client.build_url(), "http://host/v1/chat/completions");
    let bare = TranslationClient::new("//".to_string(), None);
    assert_eq!(bare.build_url(), "/v1/chat/completions");
    let inner = TranslationClient::new("http://host/api/".to_string(), None);
    assert_eq!(inner.build_url(), "http://host/api/v1/chat/completions");
}

#[test]
fn prompt_hash_has_the_expected_value() {
    assert_eq!(
        TranslationRequest::prompt_hash(),
        "7a42c599c7cb1e00180ee2f8f7035e041248eb6542200e0315ba2d050da888ab"
    );
}

#[test]
fn cache_key_has_the_expected_value() {
    assert_eq!(
        create_test_request().cache_key(),
        "76e492eb2e3da0c1338f25833aa20684fca262b4ae851679c7abbefa0537883c"
    );
}

#[test]
fn cache_key_escapes_text_as_json() {
    let request = TranslationRequest {
        source_text: "He said \"hi\"\n\tこんにちは \\ end".to_string(),
        target_language: "ja".to_string(),
        model: "m".to_string(),
        endpoint: "e".to_string(),
        style: None,
    };
    assert_eq!(
        request.cache_key(),
        "dbaf57113deba3a081e5dd7731094b08a719020516c97d04c4c185e9ddcf6061"
    );
}

#[test]
fn cache_key_tells_absent_style_from_empty_style() {
    let absent = create_test_request();
    let mut empty = create_test_request();
    empty.style = Some(String::new());
    let mut casual = create_test_request();
    casual.style = Some("Use a casual tone.".to_string());
    assert_eq!(
        empty.cache_key(),
        "7907c49725c1d4e3c246f2578019646a5cfcd43366f5d32be16fb383b57b9663"
    );
    assert_eq!(
        casual.cache_key(),
        "1b8012f38587bd69531bea9a2b35b2a11429a9d31ce4a3f01173252f510a3081"
    );
    assert_ne!(absent.cache_key(), empty.cache_key());
    assert_ne!(absent.cache_key(), casual.cache_key());
    assert_ne!(empty.cache_key(), casual.cache_key());
}

#[test]
fn cache_key_is_the_same_for_equal_requests() {
    let a = create_test_request();
    let b = a.clone();
    assert_eq!(a.cache_key(), b.cache_key());
    assert_eq!(a.cache_key(), create_test_request().cache_key());
}

#[test]
fn cache_key_changes_with_each_single_field() {
    let base = create_test_request();
    let mut variants = Vec::new();
    let mut v = create_test_request();
    v.source_text = "Hello, world?".to_string();
    variants.push(v);
    let mut v = create_test_request();
    v.target_language = "jb".to_string();
    variants.push(v);
    let mut v = create_test_request();
    v.model = "gemma3:12c".to_string();
    variants.push(v);
    let mut v = create_test_request();
    v.endpoint = "http://localhost:11435".to_string();
    variants.push(v);
    let mut v = create_test_request();
    v.style = Some("s".to_string());
    variants.push(v);
    let mut keys = vec![base.cache_key()];
    for variant in &variants {
        keys.push(variant.cache_key());
    }
    for i in 0..keys.len() {
        for j in 0..keys.len() {
            if i != j {
                assert_ne!(keys[i], keys[j]);
            }
        }
    }
}

#[test]
fn cache_key_does_not_confuse_neighbouring_fields() {
    let mut a = create_test_request();
    a.model = "ab".to_string();
    a.source_text = "c".to_string();
    let mut b = create_test_request();
    b.model = "a".to_string();
    b.source_text = "bc".to_string();
    assert_ne!(a.cache_key(), b.cache_key());
}

#[test]
fn for_translation_builds_system_and_user_messages() {
    let request = ChatCompletionRequest::for_translation("gpt-4o", "Translate.", "Hello");
    assert_eq!(request.model, "gpt-4o");
    assert!(request.stream);
    assert_eq!(request.messages.len(), 2);
    assert_eq!(request.messages[0].role, "system");
    assert_eq!(request.messages[0].content, "Translate.");
    assert_eq!(request.messages[1].role, "user");
    assert_eq!(request.messages[1].content, "Hello");
}

#[test]
fn chat_request_body_is_exact_json() {
    let request = ChatCompletionRequest::for_translation("gpt-4o", "Say \"hi\"", "a\nb");
    assert_eq!(
        request.to_json(),
        "{\"model\":\"gpt-4o\",\"messages\":[{\"role\":\"system\",\"content\":\"Say \\\"hi\\\"\"},{\"role\":\"user\",\"content\":\"a\\nb\"}],\"stream\":true}"
    );
    let parsed: serde_json::Value = serde_json::from_str(&request.to_json()).unwrap();
    assert_eq!(parsed["messages"][1]["content"].as_str(), Some("a\nb"));
    assert_eq!(parsed["stream"].as_bool(), Some(true));
}

#[test]
fn chat_request_body_with_other_message_counts() {
    let empty = ChatCompletionRequest { model: "m".to_string(), messages: vec![], stream: false };
    assert_eq!(empty.to_json(), "{\"model\":\"m\",\"messages\":[],\"stream\":false}");
    let three = ChatCompletionRequest {
        model: "m".to_string(),
        messages: vec![
            Message { role: "system", content: "1".to_string() },
            Message { role: "user", content: "2".to_string() },
            Message { role: "user", content: "3".to_string() },
        ],
        stream: true,
    };
    assert_eq!(
        three.to_json(),
        "{\"model\":\"m\",\"messages\":[{\"role\":\"system\",\"content\":\"1\"},{\"role\":\"user\",\"content\":\"2\"},{\"role\":\"user\",\"content\":\"3\"}],\"stream\":true}"
    );
}

#[test]
fn client_builds_the_outbound_request() {
    let client = TranslationClient::new("http://host/".to_string(), Some("sk-1".to_string()));
    let mut request = create_test_request();
    request.style = Some("Use a casual tone.".to_string());
    let outbound: OutboundRequest = client.chat_request(&request);
    assert_eq!(outbound.url, "http://host/v1/chat/completions");
    assert_eq!(outbound.authorization, Some("Bearer sk-1".to_string()));
    let body: serde_json::Value = serde_json::from_str(&outbound.body).unwrap();
    assert_eq!(body["model"].as_str(), Some("gemma3:12b"));
    assert_eq!(body["stream"].as_bool(), Some(true));
    assert_eq!(body["messages"][0]["role"].as_str(), Some("system"));
    assert_eq!(
        body["messages"][0]["content"].as_str(),
        Some("You are a translator. Translate the following text to ja. Output only the translated text without any explanations. Preserve the original formatting including blank lines and whitespace. Use a casual tone.")
    );
    assert_eq!(body["messages"][1]["role"].as_str(), Some("user"));
    assert_eq!(body["messages"][1]["content"].as_str(), Some("Hello, world!"));

    let anonymous = TranslationClient::new("http://host".to_string(), None);
    assert_eq!(anonymous.chat_request(&request).authorization, None);
    let copy = outbound.duplicate();
    assert_eq!(copy.url, outbound.url);
    assert_eq!(copy.authorization, outbound.authorization);
    assert_eq!(copy.body, outbound.body);
}
