//! Tests of the string-list payload codec, the language-code decoder, and
//! the request structures.

use bert_bridge::channel::Channel;
use bert_bridge::errors::BertError;
use bert_bridge::json::{parse_string_list, store_string_list_result};
use bert_bridge::language::{decode_languages, Language};
use bert_bridge::requests::{
    JSQaInput, TextGenerationInit, TranslationInit, TranslationModelInit, ZeroShotInput,
};

#[test]
fn parse_string_list_accepts_json_array_of_strings() {
    let parsed = parse_string_list(b"[\"good film\",\"bad film\"]").unwrap();
    assert_eq!(parsed, vec!["good film".to_string(), "bad film".to_string()]);
}

#[test]
fn parse_string_list_accepts_empty_array() {
    let parsed = parse_string_list(b"[]").unwrap();
    assert!(parsed.is_empty());
}

#[test]
fn parse_string_list_rejects_malformed_payload() {
    assert_eq!(parse_string_list(b"not json"), Err(BertError::Deserialization));
    assert_eq!(parse_string_list(b"{\"a\":1}"), Err(BertError::Deserialization));
    assert_eq!(parse_string_list(b"[1,2]"), Err(BertError::Deserialization));
    assert_eq!(parse_string_list(b""), Err(BertError::Deserialization));
}

#[test]
fn store_string_list_result_writes_json_to_result_slot() {
    let mut c = Channel::new();
    let outputs = vec!["a".to_string(), "b".to_string()];
    let n = store_string_list_result(&mut c, &outputs);
    let mut buf = vec![0u8; n];
    c.fill_result(&mut buf);
    assert_eq!(buf, b"[\"a\",\"b\"]".to_vec());
}

#[test]
fn string_list_round_trips_through_json() {
    let mut c = Channel::new();
    let outputs = vec!["ein Satz".to_string(), String::new(), "\"quoted\"".to_string()];
    let n = store_string_list_result(&mut c, &outputs);
    let mut buf = vec![0u8; n];
    c.fill_result(&mut buf);
    assert_eq!(parse_string_list(&buf).unwrap(), outputs);
}

#[test]
fn language_codes_decode_in_wire_order() {
    assert_eq!(Language::from_u8(0), Some(Language::Afrikaans));
    assert_eq!(Language::from_u8(4), Some(Language::English));
    assert_eq!(Language::from_u8(99), Some(Language::HaitianCreole));
    assert_eq!(Language::from_u8(100), None);
    assert_eq!(Language::from_u8(255), None);
}

#[test]
fn decode_languages_maps_every_code() {
    let langs = decode_languages(&vec![0, 3, 13]).unwrap();
    assert_eq!(langs, vec![Language::Afrikaans, Language::German, Language::French]);
    assert_eq!(decode_languages(&Vec::new()).unwrap(), Vec::new());
}

#[test]
fn decode_languages_rejects_out_of_range_code() {
    assert_eq!(decode_languages(&vec![0, 200, 3]), Err(BertError::Deserialization));
}

#[test]
fn request_structs_carry_plain_fields() {
    let qa = JSQaInput {
        question: "Where is Amy?".to_string(),
        context: "Amy lives in Amsterdam.".to_string(),
    };
    assert_eq!(qa.question, "Where is Amy?");
    assert_eq!(qa.context, "Amy lives in Amsterdam.");

    let gen = TextGenerationInit {
        inputs: vec!["The dog".to_string()],
        prefix: None,
    };
    assert_eq!(gen.inputs.len(), 1);
    assert!(gen.prefix.is_none());

    let model_init = TranslationModelInit {
        source_languages: vec![4],
        target_languages: vec![13],
    };
    assert_eq!(model_init.source_languages, vec![4]);
    assert_eq!(model_init.target_languages, vec![13]);

    let tr = TranslationInit {
        inputs: vec!["hello".to_string()],
        source_language: 4,
        target_language: 13,
    };
    assert_eq!(tr.source_language, 4);
    assert_eq!(tr.target_language, 13);

    let zs = ZeroShotInput {
        inputs: vec!["the weather is nice".to_string()],
        labels: vec!["weather".to_string(), "sports".to_string()],
        max_length: 128,
    };
    assert_eq!(zs.labels.len(), 2);
    assert_eq!(zs.max_length, 128);
}
