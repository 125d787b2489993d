//! Provider configuration rules.

use wake::{ProviderConfig, ToolCallMethod, WakeConfig};

fn base_config() -> WakeConfig {
    WakeConfig {
        providers: Vec::new(),
        selected_provider: 0,
    }
}

fn env(pairs: &[(&str, &str)]) -> Vec<(String, String)> {
    pairs
        .iter()
        .map(|(k, v)| (k.to_string(), v.to_string()))
        .collect()
}

#[test]
fn add_and_select_providers() {
    let mut config = base_config();
    let i = config.add_provider(
        "openai".to_string(),
        env(&[("OPENAI_API_KEY", "SECRET-REDACTED")]),
        "gpt".to_string(),
    );
    assert_eq!(i, 0);
    let j = config.add_provider("ollama".to_string(), env(&[]), "llama".to_string());
    assert_eq!(j, 1);
    assert_eq!(config.providers.len(), 2);
    assert_eq!(config.providers[0].tool_method, ToolCallMethod::FunctionCall);

    assert!(config.set_selected_provider(1).is_ok());
    assert_eq!(config.get_selected_provider().unwrap().provider, "ollama");

    let err = config.set_selected_provider(5).unwrap_err();
    assert_eq!(err, "Provider index 5 out of bounds (have 2 providers)");
    assert_eq!(config.selected_provider, 1);
}

#[test]
fn selected_provider_mut_edits_in_place() {
    let mut config = base_config();
    config.add_provider("openai".to_string(), env(&[]), "gpt".to_string());
    {
        let p = config.get_selected_provider_mut().unwrap();
        p.model = "gpt-next".to_string();
    }
    assert_eq!(config.get_selected_provider().unwrap().model, "gpt-next");

    config.selected_provider = 9;
    assert!(config.get_selected_provider().is_none());
    assert!(config.get_selected_provider_mut().is_none());
}

#[test]
fn duplicate_detection_is_exact() {
    let mut config = base_config();
    config.add_provider(
        "openai".to_string(),
        env(&[("KEY", "v")]),
        "gpt".to_string(),
    );
    assert!(config.is_duplicate_config("openai", &env(&[("KEY", "v")]), "gpt"));
    assert!(!config.is_duplicate_config("openai", &env(&[("KEY", "w")]), "gpt"));
    assert!(!config.is_duplicate_config("openai", &env(&[("KEY", "v")]), "gpt4"));
    assert!(!config.is_duplicate_config("mistral", &env(&[("KEY", "v")]), "gpt"));
}

#[test]
fn remove_provider_adjusts_selection() {
    let mut config = base_config();
    config.add_provider("a".to_string(), env(&[]), "m0".to_string());
    config.add_provider("b".to_string(), env(&[]), "m1".to_string());
    config.add_provider("c".to_string(), env(&[]), "m2".to_string());
    config.set_selected_provider(2).unwrap();

    let removed = config.remove_provider(0).unwrap();
    assert_eq!(removed.provider, "a");
    // The selection still names the same provider, now shifted down.
    assert_eq!(config.selected_provider, 1);
    assert_eq!(config.get_selected_provider().unwrap().provider, "c");

    let err = config.remove_provider(7).unwrap_err();
    assert_eq!(err, "Provider index 7 out of bounds (have 2 providers)");

    config.remove_provider(1).unwrap();
    let err = config.remove_provider(0).unwrap_err();
    assert_eq!(err, "Cannot remove the last provider");
}

#[test]
fn selection_clamped_past_end() {
    let mut config = base_config();
    config.add_provider("a".to_string(), env(&[]), "m0".to_string());
    config.add_provider("b".to_string(), env(&[]), "m1".to_string());
    config.set_selected_provider(1).unwrap();
    config.remove_provider(1).unwrap();
    // Removing the selected last entry clamps to the new last entry.
    assert_eq!(config.selected_provider, 0);
}

#[test]
fn list_and_find_providers() {
    let mut config = base_config();
    config.add_provider("openai".to_string(), env(&[]), "gpt".to_string());
    config.add_provider("ollama".to_string(), env(&[]), "llama".to_string());
    config.add_provider("openai".to_string(), env(&[]), "gpt4".to_string());

    let listed = config.list_providers();
    assert_eq!(listed.len(), 3);
    assert_eq!(listed[0], (0, "openai", "gpt"));
    assert_eq!(listed[2], (2, "openai", "gpt4"));

    assert_eq!(config.find_providers_by_type("openai"), vec![0, 2]);
    assert_eq!(config.find_providers_by_type("ollama"), vec![1]);
    assert_eq!(config.find_providers_by_type("none"), Vec::<usize>::new());
}

#[test]
fn default_names_the_hosted_provider() {
    let config = WakeConfig::default();
    assert_eq!(config.providers.len(), 1);
    assert_eq!(config.providers[0].provider, "ovhcloud");
    assert_eq!(config.providers[0].model, "Qwen3-32B");
    assert_eq!(config.providers[0].env_vars.len(), 1);
    assert_eq!(config.providers[0].env_vars[0].0, "OVH_BASE_URL");
    assert_eq!(config.selected_provider, 0);
    let loaded: ProviderConfig = config.providers[0].clone();
    assert_eq!(loaded.tool_method, ToolCallMethod::FunctionCall);
}

#[test]
fn clamp_selected_resets_out_of_range() {
    let mut config = base_config();
    config.clamp_selected();
    assert_eq!(config.selected_provider, 0);
    config.add_provider("a".to_string(), env(&[]), "m".to_string());
    config.selected_provider = 3;
    config.clamp_selected();
    assert_eq!(config.selected_provider, 0);
}
