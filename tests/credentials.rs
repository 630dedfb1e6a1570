use get_flight_data::json_operations::{default_document, get_json_data, set_json_data, JsonKey};
use get_flight_data::scheduler::save_credentials;

#[test]
fn write_then_read_round_trip() {
    let document = set_json_data(JsonKey::Name, "pilot42", "SECRET-REDACTED");
    assert_eq!(get_json_data(&document, JsonKey::Name), ("pilot42".to_string(), None));
    assert_eq!(get_json_data(&document, JsonKey::Key), ("SECRET-REDACTED".to_string(), None));
    let document = set_json_data(JsonKey::Key, "k-9", "pilot42");
    assert_eq!(get_json_data(&document, JsonKey::Key), ("k-9".to_string(), None));
    assert_eq!(get_json_data(&document, JsonKey::Name), ("pilot42".to_string(), None));
}

#[test]
fn document_layout() {
    assert_eq!(
        set_json_data(JsonKey::Name, "a", "b"),
        "{\n\t\"simBrief_userName\": \"a\",\n\t\"api_token\": \"b\"\n}"
    );
    assert_eq!(
        set_json_data(JsonKey::Key, "a", "b"),
        "{\n\t\"simBrief_userName\": \"b\",\n\t\"api_token\": \"a\"\n}"
    );
}

#[test]
fn repeated_reads_agree() {
    let document = set_json_data(JsonKey::Name, "pilot", "key");
    let first = get_json_data(&document, JsonKey::Name);
    let second = get_json_data(&document, JsonKey::Name);
    assert_eq!(first, second);
}

#[test]
fn corrupt_document_is_repaired() {
    let (value, repair) = get_json_data("{ not json", JsonKey::Name);
    assert_eq!(value, "");
    assert_eq!(repair, Some(default_document()));
    let (value, repair) = get_json_data("{\"other\": 1}", JsonKey::Key);
    assert_eq!(value, "");
    assert!(repair.is_some());
    let repaired = default_document();
    assert_eq!(get_json_data(&repaired, JsonKey::Name), (String::new(), None));
    assert_eq!(get_json_data(&repaired, JsonKey::Key), (String::new(), None));
}

#[test]
fn save_trims_and_skips_unchanged() {
    let decision = save_credentials("  pilot  ", "", "old", "key");
    assert!(decision.saved);
    assert_eq!(decision.new_name, Some("pilot".to_string()));
    assert_eq!(decision.new_key, None);

    let decision = save_credentials("old", " key ", "old", "key");
    assert!(decision.saved);
    assert_eq!(decision.new_name, None);
    assert_eq!(decision.new_key, None);

    let decision = save_credentials("   ", "\t", "old", "key");
    assert!(!decision.saved);
    assert_eq!(decision.new_name, None);
    assert_eq!(decision.new_key, None);
}

#[test]
fn non_string_field_is_repaired() {
    let document = "{\"simBrief_userName\": 123, \"api_token\": \"k\"}";
    assert_eq!(get_json_data(document, JsonKey::Name), (String::new(), Some(default_document())));
    assert_eq!(get_json_data(document, JsonKey::Key), ("k".to_string(), None));
    let document = "{\"simBrief_userName\": null, \"api_token\": [1]}";
    assert_eq!(get_json_data(document, JsonKey::Key).0, "");
    assert!(get_json_data(document, JsonKey::Key).1.is_some());
}

#[test]
fn special_characters_survive_write_and_read() {
    let value = "a\"b\\c\td\u{1}e/é";
    let document = set_json_data(JsonKey::Key, value, "pi\"lot");
    assert_eq!(get_json_data(&document, JsonKey::Key), (value.to_string(), None));
    assert_eq!(get_json_data(&document, JsonKey::Name), ("pi\"lot".to_string(), None));
    let document = set_json_data(JsonKey::Name, "\\", "\n");
    assert_eq!(get_json_data(&document, JsonKey::Name), ("\\".to_string(), None));
    assert_eq!(get_json_data(&document, JsonKey::Key), ("\n".to_string(), None));
}

#[test]
fn escaped_document_text() {
    assert_eq!(
        set_json_data(JsonKey::Name, "a\"\\\u{1f}", "b"),
        "{\n\t\"simBrief_userName\": \"a\\\"\\\\\\u001f\",\n\t\"api_token\": \"b\"\n}"
    );
}
