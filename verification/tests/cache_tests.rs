//! Tests of the cache manager: canonical paths, fetch planning, the
//! at-most-one-fetch behavior, clearing, and the size counter.

use phi_local_llm::cache::cached_model_id;
use phi_local_llm::{EnsureAction, PhiFamily, PhiModel, PhiModelManager};

fn variant(family: PhiFamily, tags: &[&str]) -> PhiModel {
    PhiModel {
        family,
        parameters: "2.7B".to_string(),
        context_length: 2048,
        specialization: tags.iter().map(|t| t.to_string()).collect(),
        parameter_count_tenths: 27,
    }
}

#[test]
fn test_model_manager() {
    let manager = PhiModelManager::new("phi-test-cache".to_string());

    let phi2 = variant(PhiFamily::Phi2, &["test"]);

    assert!(!manager.is_cached(&phi2));
    assert_eq!(manager.cache_size(), 0);
}

#[test]
fn test_model_path_is_deterministic() {
    let manager = PhiModelManager::new("/models".to_string());
    let phi2 = variant(PhiFamily::Phi2, &[]);
    assert_eq!(manager.model_path(&phi2), "/models/microsoft_phi-2.onnx");
    assert_eq!(manager.model_path(&phi2), "/models/microsoft_phi-2.onnx");

    let phi3 = variant(PhiFamily::Phi3, &[]);
    assert_eq!(
        manager.model_path(&phi3),
        "/models/microsoft_Phi-3-mini-4k-instruct.onnx"
    );
}

#[test]
fn test_ensure_performs_at_most_one_fetch() {
    let mut manager = PhiModelManager::new("/models".to_string());
    let phi2 = variant(PhiFamily::Phi2, &[]);
    let mut fetches = 0;

    // First ensure: the artifact is missing, so a fetch is planned.
    match manager.ensure_model(&phi2) {
        EnsureAction::Cached { .. } => panic!("nothing is cached yet"),
        EnsureAction::Fetch {
            repo,
            staging_path,
            path,
        } => {
            fetches += 1;
            assert_eq!(repo, "microsoft/phi-2");
            assert_eq!(path, "/models/microsoft_phi-2.onnx");
            assert_eq!(staging_path, "/models/microsoft_phi-2.onnx.part");
            assert_ne!(staging_path, path);
            manager.record_fetched(&phi2, 22);
        }
    }

    // Second ensure without an intervening clear: a cache hit, no fetch.
    match manager.ensure_model(&phi2) {
        EnsureAction::Cached { path } => {
            assert_eq!(path, "/models/microsoft_phi-2.onnx");
        }
        EnsureAction::Fetch { .. } => {
            fetches += 1;
        }
    }
    assert_eq!(fetches, 1);
}

#[test]
fn test_clear_cache_uncaches_everything() {
    let mut manager = PhiModelManager::new("/models".to_string());
    let phi2 = variant(PhiFamily::Phi2, &[]);
    let phi3 = variant(PhiFamily::Phi3, &[]);

    manager.record_fetched(&phi2, 100);
    manager.record_fetched(&phi3, 200);
    assert!(manager.is_cached(&phi2));
    assert!(manager.is_cached(&phi3));

    manager.clear_cache();
    assert!(!manager.is_cached(&phi2));
    assert!(!manager.is_cached(&phi3));
    assert_eq!(manager.cache_size(), 0);
    assert!(manager.list_cached_models().is_empty());
}

#[test]
fn test_cache_size_round_trip() {
    let mut manager = PhiModelManager::new("/models".to_string());
    let phi2 = variant(PhiFamily::Phi2, &[]);

    // One successful ensure that wrote exactly 22 bytes.
    match manager.ensure_model(&phi2) {
        EnsureAction::Fetch { .. } => manager.record_fetched(&phi2, 22),
        EnsureAction::Cached { .. } => panic!("nothing is cached yet"),
    }
    assert_eq!(manager.cache_size(), 22);

    manager.clear_cache();
    assert_eq!(manager.cache_size(), 0);
}

#[test]
fn test_cache_size_sums_entries() {
    let mut manager = PhiModelManager::new("/models".to_string());
    manager.record_fetched(&variant(PhiFamily::Phi2, &[]), 7);
    manager.record_fetched(&variant(PhiFamily::Phi3, &[]), 5);
    manager.record_fetched(&variant(PhiFamily::Phi4, &[]), 11);
    assert_eq!(manager.cache_size(), 23);
}

#[test]
fn test_list_cached_models() {
    let mut manager = PhiModelManager::new("/models".to_string());
    assert!(manager.list_cached_models().is_empty());

    manager.record_fetched(&variant(PhiFamily::Phi2, &[]), 1);
    manager.record_fetched(&variant(PhiFamily::Phi3, &[]), 2);
    assert_eq!(
        manager.list_cached_models(),
        vec![
            "microsoft/phi-2".to_string(),
            "microsoft/Phi-3-mini-4k-instruct".to_string()
        ]
    );
}

#[test]
fn test_cached_model_id() {
    assert_eq!(
        cached_model_id("microsoft_phi-2.onnx"),
        Some("microsoft/phi-2".to_string())
    );
    assert_eq!(cached_model_id("foo_bar.onnx"), Some("foo/bar".to_string()));
    assert_eq!(cached_model_id(".onnx"), Some("".to_string()));
    assert_eq!(cached_model_id("readme.txt"), None);
    assert_eq!(cached_model_id("model.onnx.bak"), None);
    assert_eq!(cached_model_id(""), None);
}

#[test]
fn test_default_manager_location() {
    let manager = PhiModelManager::default();
    assert!(manager.cache_dir().ends_with("/vibecode/phi-models"));
    assert_eq!(manager.cache_size(), 0);
}

#[test]
fn test_model_file_name() {
    let phi35 = variant(PhiFamily::Phi3_5, &[]);
    assert_eq!(
        PhiModelManager::model_file_name(&phi35),
        "microsoft_Phi-3.5-mini-instruct.onnx"
    );
}
