use damq_backend::request::build_media_list_request;
use damq_backend::request::escape_json_chars;

const PREFIX: &str = "{\"query\":\"query ($userName: String) { MediaListCollection(userName: $userName, type: ANIME) { lists { name entries { media { id title { romaji english } format status } score progress status } } } }\",\"variables\":{\"userName\":\"";

#[test]
fn plain_username_is_embedded_as_it_is() {
    let body = build_media_list_request("nova");
    assert_eq!(body, format!("{}nova\"}}}}", PREFIX));
}

#[test]
fn quotes_and_backslashes_are_escaped() {
    let body = build_media_list_request("a\"b\\c");
    assert_eq!(body, format!("{}a\\\"b\\\\c\"}}}}", PREFIX));
}

#[test]
fn control_characters_become_unicode_escapes() {
    let body = build_media_list_request("a\nb\tc");
    assert_eq!(body, format!("{}a\\u000ab\\u0009c\"}}}}", PREFIX));
}

#[test]
fn request_stays_a_json_document_whatever_the_username_holds() {
    let body = build_media_list_request("\"}},\"injected\":{\"");
    let doc: serde_json::Value = serde_json::from_str(&body).unwrap();
    assert_eq!(
        doc["variables"]["userName"].as_str().unwrap(),
        "\"}},\"injected\":{\""
    );
    assert!(doc["query"].as_str().unwrap().starts_with("query ($userName: String)"));
}

#[test]
fn escaping_leaves_ordinary_text_alone() {
    let escaped = escape_json_chars("ordinary_user_42");
    let text: String = escaped.into_iter().collect();
    assert_eq!(text, "ordinary_user_42");
}

#[test]
fn escaping_rewrites_each_special_character() {
    let escaped = escape_json_chars("\"\\\u{1f}");
    let text: String = escaped.into_iter().collect();
    assert_eq!(text, "\\\"\\\\\\u001f");
}
