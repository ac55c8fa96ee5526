//! Tests of the model catalog: metadata, lookup by identifier, and the
//! formatted information block.

use phi_local_llm::phi_models::CatalogError;
use phi_local_llm::{PhiFamily, PhiModel};

fn phi3(tags: &[&str]) -> PhiModel {
    PhiModel {
        family: PhiFamily::Phi3,
        parameters: "3.8B".to_string(),
        context_length: 4096,
        specialization: tags.iter().map(|t| t.to_string()).collect(),
        parameter_count_tenths: 38,
    }
}

#[test]
fn test_phi_model_info() {
    let phi3 = phi3(&["coding", "math"]);

    assert_eq!(phi3.parameter_count_tenths, 38);
    assert_eq!(phi3.context_length(), 4096);
    assert!(phi3.supports_coding());
    assert!(phi3.supports_math());
    assert!(phi3.is_edge_suitable());
}

#[test]
fn test_available_models() {
    let models = PhiModel::available_models();
    assert!(!models.is_empty());

    // Check that we have different model sizes
    let has_small = models.iter().any(|m| m.parameter_count_tenths <= 40);
    let has_large = models.iter().any(|m| m.parameter_count_tenths > 100);
    assert!(has_small);
    assert!(has_large);
}

#[test]
fn test_version_info() {
    assert!(!phi_local_llm::VERSION.is_empty());
    assert!(!phi_local_llm::NAME.is_empty());
    assert!(!phi_local_llm::DESCRIPTION.is_empty());
}

#[test]
fn test_by_id_returns_matching_variant() {
    let models = PhiModel::available_models();
    assert_eq!(models.len(), 5);
    for m in &models {
        let found = PhiModel::by_id(m.model_name()).expect("catalog identifier must resolve");
        assert_eq!(found.model_name(), m.model_name());
        assert_eq!(found.context_length, m.context_length);
        assert_eq!(found.parameter_count_tenths, m.parameter_count_tenths);
    }
}

#[test]
fn test_by_id_unknown_identifier() {
    assert!(matches!(PhiModel::by_id("microsoft/phi-99"), Err(CatalogError::NotFound)));
    assert!(matches!(PhiModel::by_id(""), Err(CatalogError::NotFound)));
    // Identifiers are exact: a prefix of a known identifier is unknown.
    assert!(matches!(PhiModel::by_id("microsoft/phi"), Err(CatalogError::NotFound)));
}

#[test]
fn test_model_names_and_repos() {
    let phi2 = PhiModel::by_id("microsoft/phi-2").unwrap();
    assert_eq!(phi2.family, PhiFamily::Phi2);
    assert_eq!(phi2.hf_repo(), "microsoft/phi-2");

    let phi4 = PhiModel::by_id("microsoft/Phi-4").unwrap();
    assert_eq!(phi4.family, PhiFamily::Phi4);
    assert_eq!(phi4.hf_repo(), "microsoft/Phi-4-onnx");
    assert_eq!(phi4.parameter_count_tenths, 140);
    assert!(!phi4.is_edge_suitable());
}

#[test]
fn test_catalog_metadata() {
    let models = PhiModel::available_models();
    assert_eq!(models[0].parameters, "2.7B");
    assert_eq!(models[0].context_length, 2048);
    assert_eq!(models[2].context_length, 131072);
    assert_eq!(models[3].parameters, "14B");
    for m in &models {
        assert!(m.parameter_count_tenths > 0);
        assert!(m.context_length > 0);
    }
}

#[test]
fn test_supports_coding_matches_substrings() {
    let m = phi3(&["code generation"]);
    assert!(m.supports_coding());
    let m = phi3(&["reasoning"]);
    assert!(!m.supports_coding());
    let m = phi3(&["logic"]);
    assert!(m.supports_math());
    let m = phi3(&[]);
    assert!(!m.supports_coding());
    assert!(!m.supports_math());
}

#[test]
fn test_recommended_use_cases() {
    let m = phi3(&["coding"]);
    let cases = m.recommended_use_cases();
    assert_eq!(
        cases,
        vec![
            "Code generation",
            "Math problem solving",
            "Reasoning tasks",
            "Edge deployment",
            "Real-time applications"
        ]
    );
}

#[test]
fn test_display_info() {
    let m = phi3(&["coding", "math"]);
    let info = m.display_info();
    assert_eq!(
        info,
        "🤖 microsoft/Phi-3-mini-4k-instruct (3.8B parameters)\n\
         📏 Context: 4096 tokens\n\
         🎯 Specializations: coding, math\n\
         💡 Use cases: Code generation, Math problem solving, Reasoning tasks, \
         Edge deployment, Real-time applications"
    );
}

#[test]
fn test_clone_keeps_fields() {
    let m = phi3(&["coding"]);
    let c = m.clone();
    assert_eq!(c.parameters, m.parameters);
    assert_eq!(c.context_length, m.context_length);
    assert_eq!(c.specialization, m.specialization);
    assert_eq!(c.parameter_count_tenths, m.parameter_count_tenths);
}
