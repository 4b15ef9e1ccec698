use cursor_server::catalog::{ModelConfig, PluginModelDescriptor, TooltipData};
use cursor_server::models::{
    available_model, available_models_addition, available_plugin_model, provider_host,
    usable_model, usable_models_addition, usable_plugin_model,
};
use cursor_server::variants::{context_options, model_parameters, model_variant, model_variants};

fn stale_plugin_model() -> PluginModelDescriptor {
    PluginModelDescriptor {
        id: "plugin:codex/codex/gpt-test".into(),
        plugin_id: "codex-auth".into(),
        plugin_name: "Codex".into(),
        provider_id: "codex".into(),
        model_id: "gpt-test".into(),
        display_name: "GPT Test".into(),
        description: None,
        icon: String::new(),
        provider_type: "openai".into(),
        context_window_tokens: None,
        max_output_tokens: None,
        thinking: false,
        images: true,
    }
}

fn configured_model(group_name: Option<&str>, base_url: &str, tokens: Option<u64>) -> ModelConfig {
    ModelConfig {
        model_hash: "hash-1".into(),
        display_name: "Model X".into(),
        context_window_tokens: tokens,
        tooltip_data: "A configured model".into(),
        group_name: group_name.map(String::from),
        base_url: base_url.into(),
    }
}

#[test]
fn plugin_models_expose_effort_even_with_stale_thinking_metadata() {
    let model = stale_plugin_model();
    let available = available_plugin_model(&model);
    assert_eq!(available.supports_thinking, Some(true));
    assert!(available
        .parameter_definitions
        .iter()
        .any(|parameter| parameter.id == "reasoning"));
    assert!(available.variants.iter().any(|variant| {
        variant
            .parameter_values
            .iter()
            .any(|parameter| parameter.id == "reasoning")
    }));
    assert!(usable_plugin_model(&model).thinking_details.is_some());
}

#[test]
fn builtin_context_options_without_a_configured_window() {
    let contexts = context_options(None);
    let values: Vec<(&str, &str)> = contexts.iter().map(|(v, d)| (v.as_str(), d.as_str())).collect();
    assert_eq!(
        values,
        vec![("200k", "200K"), ("356k", "356K"), ("500k", "500K"), ("800k", "800K"), ("1m", "1M")]
    );
}

#[test]
fn configured_window_matching_a_builtin_size_adds_nothing() {
    assert_eq!(context_options(Some(200_000)).len(), 5);
    assert_eq!(context_options(Some(1_000_000)).len(), 5);
    assert_eq!(context_options(Some(356_000)).len(), 5);
}

#[test]
fn configured_window_is_added_as_a_custom_option() {
    let contexts = context_options(Some(128_000));
    assert_eq!(contexts.len(), 6);
    assert_eq!(contexts[5], ("128000".to_string(), "128K (Custom)".to_string()));
    let contexts = context_options(Some(2_000_000));
    assert_eq!(contexts[5], ("2000000".to_string(), "2M (Custom)".to_string()));
    let contexts = context_options(Some(1500));
    assert_eq!(contexts[5], ("1500".to_string(), "1500 (Custom)".to_string()));
}

#[test]
fn parameters_of_thinking_and_plain_models() {
    let contexts = context_options(None);
    let thinking = model_parameters(&contexts, true);
    let ids: Vec<&str> = thinking.iter().map(|p| p.id.as_str()).collect();
    assert_eq!(ids, vec!["context", "reasoning", "fast"]);
    let efforts: Vec<&str> = thinking[1]
        .parameter_type
        .as_ref()
        .unwrap()
        .enum_parameter
        .as_ref()
        .unwrap()
        .values
        .iter()
        .map(|v| v.value.as_str())
        .collect();
    assert_eq!(efforts, vec!["low", "medium", "high", "xhigh", "max"]);
    assert_eq!(thinking[1].is_cycleable_by_hotkey, Some(true));
    let fast = thinking[2].parameter_type.as_ref().unwrap().boolean_parameter.as_ref().unwrap();
    assert_eq!(fast.values[0].value, "false");
    assert_eq!(fast.values[0].display_name, None);
    assert_eq!(fast.values[1].value, "true");
    assert_eq!(fast.values[1].increases_model_cost, Some(true));
    let plain = model_parameters(&contexts, false);
    let ids: Vec<&str> = plain.iter().map(|p| p.id.as_str()).collect();
    assert_eq!(ids, vec!["context", "fast"]);
    let context_values = plain[0].parameter_type.as_ref().unwrap().enum_parameter.as_ref().unwrap();
    assert_eq!(context_values.values.len(), 5);
    assert_eq!(context_values.values[4].display_name.as_deref(), Some("1M"));
}

#[test]
fn default_variant_has_no_suffix() {
    let tooltip = TooltipData { markdown_content: Some("tip".into()) };
    let v = model_variant("m", "Model", &tooltip, "200k", "200K", None, false);
    assert_eq!(v.display_name, "Model");
    assert_eq!(v.is_default_max_config, Some(true));
    assert_eq!(v.is_default_non_max_config, Some(true));
    assert_eq!(v.variant_string_representation.as_deref(), Some("m[context=200k,fast=false]"));
    assert_eq!(v.legacy_slug.as_deref(), Some("m-200k"));
    assert!(!v.is_max_mode);
    assert_eq!(v.tooltip_data.unwrap().markdown_content.as_deref(), Some("tip"));
}

#[test]
fn variant_names_and_slugs() {
    let tooltip = TooltipData { markdown_content: None };
    let v = model_variant("m", "Model", &tooltip, "500k", "500K", Some(("xhigh", "Extra High")), true);
    assert_eq!(
        v.display_name,
        "Model <span style=\"color: var(--cursor-text-tertiary);\">500K Extra High Fast</span>"
    );
    assert_eq!(v.display_name_outside_picker.as_deref(), Some(v.display_name.as_str()));
    assert_eq!(v.is_default_non_max_config, None);
    assert_eq!(
        v.variant_string_representation.as_deref(),
        Some("m[context=500k,reasoning=xhigh,fast=true]")
    );
    assert_eq!(v.legacy_slug.as_deref(), Some("m-500k-xhigh-fast"));
    let values: Vec<(&str, &str)> =
        v.parameter_values.iter().map(|p| (p.id.as_str(), p.value.as_str())).collect();
    assert_eq!(values, vec![("context", "500k"), ("reasoning", "xhigh"), ("fast", "true")]);

    let high = model_variant("m", "Model", &tooltip, "200k", "200K", Some(("high", "High")), false);
    assert_eq!(
        high.display_name,
        "Model <span style=\"color: var(--cursor-text-tertiary);\">High</span>"
    );
    assert_eq!(high.is_default_max_config, Some(true));
    let low = model_variant("m", "Model", &tooltip, "200k", "200K", Some(("low", "Low")), false);
    assert_eq!(low.is_default_max_config, None);
}

#[test]
fn variant_grid_covers_every_point() {
    let tooltip = TooltipData { markdown_content: None };
    let contexts = context_options(None);
    let thinking = model_variants("m", "Model", &tooltip, &contexts, true);
    assert_eq!(thinking.len(), 50);
    assert_eq!(thinking[0].legacy_slug.as_deref(), Some("m-200k-low"));
    assert_eq!(thinking[1].legacy_slug.as_deref(), Some("m-200k-low-fast"));
    assert_eq!(thinking[49].legacy_slug.as_deref(), Some("m-1m-max-fast"));
    let defaults: Vec<usize> = thinking
        .iter()
        .enumerate()
        .filter(|(_, v)| v.is_default_non_max_config == Some(true))
        .map(|(i, _)| i)
        .collect();
    assert_eq!(defaults, vec![4]);
    let plain = model_variants("m", "Model", &tooltip, &contexts, false);
    assert_eq!(plain.len(), 10);
    assert_eq!(plain[3].legacy_slug.as_deref(), Some("m-356k-fast"));
}

#[test]
fn configured_model_entry() {
    let model = configured_model(Some("Team"), "https://api.example.com", Some(64_000));
    let entry = available_model(&model);
    assert_eq!(entry.name, "hash-1");
    assert!(entry.default_on);
    assert_eq!(entry.supports_max_mode, Some(true));
    assert_eq!(entry.supports_images, Some(true));
    assert_eq!(entry.client_display_name.as_deref(), Some("Model X"));
    assert_eq!(entry.server_model_name.as_deref(), Some("hash-1"));
    assert_eq!(entry.vendor_name.as_deref(), Some("cursor"));
    let vendor = entry.vendor.as_ref().unwrap();
    assert_eq!((vendor.id, vendor.display_name.as_str()), (6, "Cursor"));
    assert_eq!(entry.named_model_section_index, Some(1));
    assert_eq!(entry.model_picker_badges.len(), 1);
    assert_eq!(entry.model_picker_badges[0].label, "Team");
    assert_eq!(entry.model_picker_badges[0].variant, 1);
    assert_eq!(entry.variants.len(), 60);
    assert_eq!(entry.legacy_slugs.len(), 60);
    assert_eq!(entry.legacy_slugs[59], "hash-1-64000-max-fast");
    assert_eq!(
        entry.tooltip_data.as_ref().unwrap().markdown_content.as_deref(),
        Some("A configured model")
    );
}

#[test]
fn badge_falls_back_to_the_provider_host() {
    let model = configured_model(None, "  https://API.Example.com/v1 ", None);
    let entry = available_model(&model);
    assert_eq!(entry.model_picker_badges[0].label, "api.example.com");
    assert_eq!(provider_host("not a url"), "not a url");
    assert_eq!(provider_host("  not a url "), "  not a url ");
    assert_eq!(provider_host(" http://Local.Host:8080/x "), "local.host");
}

#[test]
fn plugin_model_entry() {
    let mut model = stale_plugin_model();
    model.description = Some("Plugin model".into());
    let entry = available_plugin_model(&model);
    assert_eq!(entry.supports_max_mode, Some(false));
    assert_eq!(entry.supports_images, Some(true));
    assert_eq!(entry.vendor_name.as_deref(), Some("openai"));
    assert_eq!(entry.model_picker_badges[0].label, "Codex");
    assert_eq!(entry.variants.len(), 50);
    assert_eq!(
        entry.tooltip_data_for_max_mode.as_ref().unwrap().markdown_content.as_deref(),
        Some("Plugin model")
    );
}

#[test]
fn additions_list_configured_models_before_plugin_models() {
    let models = vec![configured_model(Some("G"), "https://a.example", None)];
    let plugins = vec![stale_plugin_model()];
    let available = available_models_addition(&models, &plugins);
    assert_eq!(available.model_names, vec!["hash-1".to_string(), "plugin:codex/codex/gpt-test".to_string()]);
    assert_eq!(available.models.len(), 2);
    assert_eq!(available.models[1].name, "plugin:codex/codex/gpt-test");
    let usable = usable_models_addition(&models, &plugins);
    assert_eq!(usable.models.len(), 2);
    assert_eq!(usable.models[0].model_id, "hash-1");
    assert_eq!(usable.models[0].display_name_short, "Model X");
    assert_eq!(usable.models[1].display_model_id, "plugin:codex/codex/gpt-test");
    let single = usable_model(&models[0]);
    assert!(single.thinking_details.is_some());
}

#[test]
fn opaque_hosts_are_lowered() {
    assert_eq!(provider_host("foo://Host.Example/x"), "host.example");
}

#[test]
fn every_variant_selects_offered_values() {
    let model = configured_model(None, "https://a.example", Some(90_000));
    let entry = available_model(&model);
    for variant in &entry.variants {
        assert_eq!(variant.parameter_values.len(), entry.parameter_definitions.len());
        for (value, definition) in variant.parameter_values.iter().zip(&entry.parameter_definitions) {
            assert_eq!(value.id, definition.id);
            let kind = definition.parameter_type.as_ref().unwrap();
            let offered: Vec<&str> = match (&kind.enum_parameter, &kind.boolean_parameter) {
                (Some(e), _) => e.values.iter().map(|v| v.value.as_str()).collect(),
                (None, Some(b)) => b.values.iter().map(|v| v.value.as_str()).collect(),
                (None, None) => Vec::new(),
            };
            assert!(offered.contains(&value.value.as_str()));
        }
    }
    let defaults = entry
        .variants
        .iter()
        .filter(|v| v.is_default_non_max_config == Some(true))
        .count();
    assert_eq!(defaults, 1);
}
