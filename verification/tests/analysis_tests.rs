//! Tests for analysis response parsing and severity mapping.

use local_guard::analysis::{
    map_risk_signals, parse_analysis_response, severity_to_level, AnalysisContractError,
    AnalysisResponse, CategoryAssessment, RiskLevel,
};
use local_guard::pipeline::parse_analysis;

#[test]
fn analysis_response_parsing_tests_accepts_valid_payload() {
    let raw = r#"{
        "schema_version":"v1",
        "request_id":"req-1",
        "model_results":[{"model":"m1","label":"ok","confidence":0.9}],
        "categories":[{"category":"credential_theft","severity":70}]
    }"#;

    let signals = parse_analysis(raw).expect("analysis payload should parse");
    assert_eq!(signals.len(), 1);
    assert_eq!(signals[0].category, "credential_theft");
}

#[test]
fn analysis_category_mapping_tests_preserve_unknown_categories() {
    let raw = r#"{
        "schema_version":"v1",
        "request_id":"req-2",
        "categories":[{"category":"future_category","severity":33}]
    }"#;

    let signals = parse_analysis(raw).expect("analysis payload should parse");
    assert_eq!(signals[0].category, "future_category");
    assert_eq!(signals[0].level, RiskLevel::Medium);
}

#[test]
fn preserves_unknown_categories() {
    let response = AnalysisResponse {
        schema_version: "v1".to_string(),
        request_id: "req-1".to_string(),
        categories: vec![CategoryAssessment {
            category: "new_future_category".to_string(),
            severity: 30,
        }],
    };

    let signals = map_risk_signals(&response);
    assert_eq!(signals[0].category, "new_future_category");
    assert_eq!(signals[0].level, RiskLevel::Medium);
}

#[test]
fn severity_bands_map_to_fixed_levels() {
    assert_eq!(severity_to_level(0), RiskLevel::Low);
    assert_eq!(severity_to_level(24), RiskLevel::Low);
    assert_eq!(severity_to_level(25), RiskLevel::Medium);
    assert_eq!(severity_to_level(33), RiskLevel::Medium);
    assert_eq!(severity_to_level(49), RiskLevel::Medium);
    assert_eq!(severity_to_level(50), RiskLevel::High);
    assert_eq!(severity_to_level(79), RiskLevel::High);
    assert_eq!(severity_to_level(80), RiskLevel::Critical);
    assert_eq!(severity_to_level(100), RiskLevel::Critical);
    assert_eq!(severity_to_level(101), RiskLevel::Unknown);
    assert_eq!(severity_to_level(255), RiskLevel::Unknown);
}

#[test]
fn malformed_json_fails_with_decode_error() {
    assert!(matches!(
        parse_analysis_response("{not json"),
        Err(AnalysisContractError::Decode(_))
    ));
    assert!(matches!(
        parse_analysis_response(r#"{"schema_version":"v1"}"#),
        Err(AnalysisContractError::Decode(_))
    ));
}

#[test]
fn blank_contract_fields_fail_with_contract_error() {
    assert!(matches!(
        parse_analysis_response(r#"{"schema_version":" ","request_id":"req"}"#),
        Err(AnalysisContractError::InvalidContract(_))
    ));
    assert!(matches!(
        parse_analysis_response(r#"{"schema_version":"v1","request_id":""}"#),
        Err(AnalysisContractError::InvalidContract(_))
    ));
}

#[test]
fn parser_handles_escapes_and_unknown_fields() {
    let raw = r#"{
        "schema_version":"v1",
        "request_id":"req-3",
        "extra":{"nested":[1,2,3],"flag":true,"note":null},
        "categories":[{"category":"Alpha\n","severity":5,"ignored":false}]
    }"#;
    let parsed = parse_analysis_response(raw).expect("payload should parse");
    assert_eq!(parsed.categories.len(), 1);
    assert_eq!(parsed.categories[0].category, "Alpha\n");
    assert_eq!(parsed.categories[0].severity, 5);
}

#[test]
fn parser_decodes_unicode_escapes() {
    let raw = r#"{"schema_version":"v1","request_id":"req-4",
        "categories":[{"category":"A\u00e9 \uD83D\uDE00","severity":1}]}"#;
    let parsed = parse_analysis_response(raw).expect("payload should parse");
    assert_eq!(parsed.categories[0].category, "A\u{e9} \u{1F600}");
}

#[test]
fn minimal_documents_parse_with_ids_verbatim() {
    let parsed = parse_analysis_response(r#"{"schema_version":"v9","request_id":"req-min"}"#)
        .expect("minimal document should parse");
    assert_eq!(parsed.schema_version, "v9");
    assert_eq!(parsed.request_id, "req-min");
    assert!(parsed.categories.is_empty());

    let signals = parse_analysis(r#"{"schema_version":"v9","request_id":"req-min"}"#)
        .expect("minimal document should parse");
    assert!(signals.is_empty());
}

#[test]
fn severity_above_byte_range_fails_decode() {
    let raw = r#"{"schema_version":"v1","request_id":"r","categories":[{"category":"x","severity":300}]}"#;
    assert!(matches!(
        parse_analysis_response(raw),
        Err(AnalysisContractError::Decode(_))
    ));
}
