//! Building the catalog entries that describe configured and plugin models.

use vstd::prelude::*;
use crate::bindings::{lowercase_text, to_lowercase, url_host, url_host_text};
use crate::catalog::{
    copy_opt_string, opt_text, AvailableModel, AvailableModelVendor, AvailableModelView,
    AvailableModelsAddition, ModelConfig, ModelDetails, ModelDetailsView, ModelPickerBadge,
    ModelVariant, PluginModelDescriptor, ThinkingDetails, TooltipData, UsableModelsAddition,
    VariantView,
};
use crate::text::{decimal_text, owned, trim, trimmed_text};
use crate::token::{is_digit, lemma_decimal_digits};
use crate::variants::{
    builtin_contexts_text, context_options, context_options_text, default_context,
    effort_axis_text, has_single_default, law_variant_grid_size, lemma_single_default,
    lemma_variant_origin, model_parameters, model_variants, parameters_text, variant_views,
    variants_text,
};

verus! {

/// The tooltip of a configured model.
pub fn model_tooltip(model: &ModelConfig) -> (r: TooltipData)
    ensures
        r@ == Some(model.tooltip_data@),
{
    TooltipData { markdown_content: Some(model.tooltip_data.clone()) }
}

/// The badge label used for a model without a group: the host of its base
/// URL (read with surrounding whitespace ignored) in lower case, or the base
/// URL as it is where no host can be read.
pub open spec fn provider_host_text(base_url: Seq<char>) -> Seq<char> {
    match url_host_text(trimmed_text(base_url)) {
        Some(h) => lowercase_text(h),
        None => base_url,
    }
}

/// The host of a provider's base URL, for a badge.
pub fn provider_host(base_url: &str) -> (r: String)
    ensures
        r@ == provider_host_text(base_url@),
{
    let t = trim(base_url);
    match url_host(t.as_str()) {
        Some(h) => to_lowercase(h.as_str()),
        None => owned(base_url),
    }
}

/// The legacy slugs that a list of variants carries, in order.
pub open spec fn slugs_of(vs: Seq<VariantView>) -> Seq<Seq<char>>
    decreases vs.len(),
{
    if vs.len() == 0 {
        Seq::<Seq<char>>::empty()
    } else {
        match vs.last().legacy_slug {
            Some(s) => slugs_of(vs.drop_last()).push(s),
            None => slugs_of(vs.drop_last()),
        }
    }
}

fn legacy_slugs(variants: &Vec<ModelVariant>) -> (r: Vec<String>)
    ensures
        r@.map_values(|s: String| s@) == slugs_of(variant_views(variants@)),
{
    let ghost vs = variant_views(variants@);
    let mut r: Vec<String> = Vec::new();
    let mut i: usize = 0;
    while i < variants.len()
        invariant
            i <= variants@.len(),
            vs == variant_views(variants@),
            r@.map_values(|s: String| s@) == slugs_of(vs.take(i as int)),
        decreases variants.len() - i,
    {
        assert(vs.take(i + 1).drop_last() =~= vs.take(i as int));
        assert(vs.take(i + 1).last() == variants@[i as int]@);
        let ghost before = r@;
        match &variants[i].legacy_slug {
            Some(s) => {
                r.push(s.clone());
                assert(r@.map_values(|s: String| s@) =~= before.map_values(|s: String| s@).push(
                    s@,
                ));
            },
            None => {},
        }
        i = i + 1;
    }
    assert(vs.take(variants@.len() as int) =~= vs);
    r
}

/// The catalog entry of a configured model: a thinking model with every
/// context, effort and fast variant, labelled with its group or provider.
pub open spec fn available_model_text(m: ModelConfig) -> AvailableModelView {
    let contexts = context_options_text(m.context_window_tokens);
    let tooltip = Some(m.tooltip_data@);
    let variants = variants_text(
        m.model_hash@,
        m.display_name@,
        tooltip,
        contexts,
        effort_axis_text(true),
    );
    AvailableModelView {
        name: m.model_hash@,
        default_on: true,
        supports_agent: Some(true),
        degradation_status: Some(0),
        tooltip_data: Some(tooltip),
        supports_thinking: Some(true),
        supports_images: Some(true),
        supports_max_mode: Some(true),
        client_display_name: Some(m.display_name@),
        server_model_name: Some(m.model_hash@),
        supports_non_max_mode: Some(true),
        tooltip_data_for_max_mode: Some(tooltip),
        is_recommended_for_background_composer: Some(false),
        supports_plan_mode: Some(true),
        inputbox_short_model_name: Some(m.display_name@),
        supports_sandboxing: Some(true),
        supports_cmd_k: Some(false),
        parameter_definitions: parameters_text(contexts, true),
        variants,
        legacy_slugs: slugs_of(variants),
        named_model_section_index: Some(1),
        vendor_name: Some("cursor"@),
        vendor: Some((6, "Cursor"@)),
        model_picker_badges: seq![
            (
                match m.group_name {
                    Some(g) => g@,
                    None => provider_host_text(m.base_url@),
                },
                1,
                false,
            ),
        ],
    }
}

fn single_badge(label: String) -> (r: Vec<ModelPickerBadge>)
    ensures
        r@.map_values(|b: ModelPickerBadge| (b.label@, b.variant, b.dismiss_on_selection))
            == seq![(label@, 1i32, false)],
{
    let mut r: Vec<ModelPickerBadge> = Vec::new();
    let ghost l = label@;
    r.push(ModelPickerBadge { label, variant: 1, dismiss_on_selection: false });
    assert(r@.map_values(|b: ModelPickerBadge| (b.label@, b.variant, b.dismiss_on_selection))
        =~= seq![(l, 1i32, false)]);
    r
}

/// The catalog entry that describes a configured model.
pub fn available_model(model: &ModelConfig) -> (r: AvailableModel)
    ensures
        r@ == available_model_text(*model),
{
    let contexts = context_options(model.context_window_tokens);
    let tooltip = model_tooltip(model);
    let variants = model_variants(
        model.model_hash.as_str(),
        model.display_name.as_str(),
        &tooltip,
        &contexts,
        true,
    );
    let legacy_slugs = legacy_slugs(&variants);
    let label = match &model.group_name {
        Some(g) => g.clone(),
        None => provider_host(model.base_url.as_str()),
    };
    let r = AvailableModel {
        name: model.model_hash.clone(),
        default_on: true,
        supports_agent: Some(true),
        degradation_status: Some(0),
        tooltip_data: Some(tooltip.copy()),
        supports_thinking: Some(true),
        supports_images: Some(true),
        supports_max_mode: Some(true),
        client_display_name: Some(model.display_name.clone()),
        server_model_name: Some(model.model_hash.clone()),
        supports_non_max_mode: Some(true),
        tooltip_data_for_max_mode: Some(tooltip),
        is_recommended_for_background_composer: Some(false),
        supports_plan_mode: Some(true),
        inputbox_short_model_name: Some(model.display_name.clone()),
        supports_sandboxing: Some(true),
        supports_cmd_k: Some(false),
        parameter_definitions: model_parameters(&contexts, true),
        variants,
        legacy_slugs,
        named_model_section_index: Some(1),
        vendor_name: Some(owned("cursor")),
        vendor: Some(AvailableModelVendor { id: 6, display_name: owned("Cursor") }),
        model_picker_badges: single_badge(label),
    };
    assert(r@ == available_model_text(*model));
    r
}


/// The catalog entry of a plugin model.  Every plugin model is offered as a
/// thinking model with the full effort axis, whatever its descriptor says
/// about reasoning: the plugin provider validates the chosen effort itself.
pub open spec fn available_plugin_model_text(p: PluginModelDescriptor) -> AvailableModelView {
    let contexts = context_options_text(None);
    let tooltip = opt_text(p.description);
    let variants = variants_text(p.id@, p.display_name@, tooltip, contexts, effort_axis_text(true));
    AvailableModelView {
        name: p.id@,
        default_on: true,
        supports_agent: Some(true),
        degradation_status: Some(0),
        tooltip_data: Some(tooltip),
        supports_thinking: Some(true),
        supports_images: Some(p.images),
        supports_max_mode: Some(false),
        client_display_name: Some(p.display_name@),
        server_model_name: Some(p.id@),
        supports_non_max_mode: Some(true),
        tooltip_data_for_max_mode: Some(tooltip),
        is_recommended_for_background_composer: Some(false),
        supports_plan_mode: Some(true),
        inputbox_short_model_name: Some(p.display_name@),
        supports_sandboxing: Some(true),
        supports_cmd_k: Some(false),
        parameter_definitions: parameters_text(contexts, true),
        variants,
        legacy_slugs: slugs_of(variants),
        named_model_section_index: Some(1),
        vendor_name: Some(p.provider_type@),
        vendor: Some((6, p.provider_type@)),
        model_picker_badges: seq![(p.plugin_name@, 1, false)],
    }
}

/// The catalog entry that describes a plugin model.
pub fn available_plugin_model(model: &PluginModelDescriptor) -> (r: AvailableModel)
    ensures
        r@ == available_plugin_model_text(*model),
        r.supports_images == Some(model.images),
{
    let tooltip = TooltipData { markdown_content: copy_opt_string(&model.description) };
    let contexts = context_options(None);
    let variants = model_variants(
        model.id.as_str(),
        model.display_name.as_str(),
        &tooltip,
        &contexts,
        true,
    );
    let legacy_slugs = legacy_slugs(&variants);
    let r = AvailableModel {
        name: model.id.clone(),
        default_on: true,
        supports_agent: Some(true),
        degradation_status: Some(0),
        tooltip_data: Some(tooltip.copy()),
        supports_thinking: Some(true),
        supports_images: Some(model.images),
        supports_max_mode: Some(false),
        client_display_name: Some(model.display_name.clone()),
        server_model_name: Some(model.id.clone()),
        supports_non_max_mode: Some(true),
        tooltip_data_for_max_mode: Some(tooltip.copy()),
        is_recommended_for_background_composer: Some(false),
        supports_plan_mode: Some(true),
        inputbox_short_model_name: Some(model.display_name.clone()),
        supports_sandboxing: Some(true),
        supports_cmd_k: Some(false),
        parameter_definitions: model_parameters(&contexts, true),
        variants,
        legacy_slugs,
        named_model_section_index: Some(1),
        vendor_name: Some(model.provider_type.clone()),
        vendor: Some(
            AvailableModelVendor { id: 6, display_name: model.provider_type.clone() },
        ),
        model_picker_badges: single_badge(model.plugin_name.clone()),
    };
    assert(r@ == available_plugin_model_text(*model));
    r
}

/// The usable-model entry of a model with the given id and display name.
pub open spec fn model_details_text(id: Seq<char>, display_name: Seq<char>) -> ModelDetailsView {
    ModelDetailsView {
        model_id: id,
        display_model_id: id,
        display_name,
        display_name_short: display_name,
        has_thinking_details: true,
    }
}

/// The usable-model entry that describes a plugin model.
pub fn usable_plugin_model(model: &PluginModelDescriptor) -> (r: ModelDetails)
    ensures
        r@ == model_details_text(model.id@, model.display_name@),
        r.model_id@ == model.id@,
        r.display_model_id@ == model.id@,
        r.display_name@ == model.display_name@,
        r.display_name_short@ == model.display_name@,
        r.thinking_details is Some,
{
    ModelDetails {
        model_id: model.id.clone(),
        display_model_id: model.id.clone(),
        display_name: model.display_name.clone(),
        display_name_short: model.display_name.clone(),
        thinking_details: Some(ThinkingDetails {  }),
    }
}

/// The usable-model entry that describes a configured model.
pub fn usable_model(model: &ModelConfig) -> (r: ModelDetails)
    ensures
        r@ == model_details_text(model.model_hash@, model.display_name@),
        r.model_id@ == model.model_hash@,
        r.display_model_id@ == model.model_hash@,
        r.display_name@ == model.display_name@,
        r.display_name_short@ == model.display_name@,
        r.thinking_details is Some,
{
    ModelDetails {
        model_id: model.model_hash.clone(),
        display_model_id: model.model_hash.clone(),
        display_name: model.display_name.clone(),
        display_name_short: model.display_name.clone(),
        thinking_details: Some(ThinkingDetails {  }),
    }
}

/// The views of a list of catalog entries.
pub open spec fn available_views(v: Seq<AvailableModel>) -> Seq<AvailableModelView> {
    v.map_values(|m: AvailableModel| m@)
}

/// The names that the local catalog announces: configured models' hashes,
/// then plugin models' ids.
pub open spec fn catalog_names_text(models: Seq<ModelConfig>, plugins: Seq<PluginModelDescriptor>) -> Seq<
    Seq<char>,
> {
    models.map_values(|m: ModelConfig| m.model_hash@) + plugins.map_values(
        |p: PluginModelDescriptor| p.id@,
    )
}

/// The local catalog entries: configured models, then plugin models.
pub open spec fn catalog_entries_text(
    models: Seq<ModelConfig>,
    plugins: Seq<PluginModelDescriptor>,
) -> Seq<AvailableModelView> {
    models.map_values(|m: ModelConfig| available_model_text(m)) + plugins.map_values(
        |p: PluginModelDescriptor| available_plugin_model_text(p),
    )
}

/// The local models to append to Cursor's `AvailableModels` answer.
pub fn available_models_addition(
    models: &Vec<ModelConfig>,
    plugin_models: &Vec<PluginModelDescriptor>,
) -> (r: AvailableModelsAddition)
    ensures
        r.model_names@.map_values(|s: String| s@) == catalog_names_text(models@, plugin_models@),
        available_views(r.models@) == catalog_entries_text(models@, plugin_models@),
{
    let mut names: Vec<String> = Vec::new();
    let mut entries: Vec<AvailableModel> = Vec::new();
    let mut i: usize = 0;
    while i < models.len()
        invariant
            i <= models@.len(),
            names@.map_values(|s: String| s@) == models@.take(i as int).map_values(
                |m: ModelConfig| m.model_hash@,
            ),
            available_views(entries@) == models@.take(i as int).map_values(
                |m: ModelConfig| available_model_text(m),
            ),
        decreases models.len() - i,
    {
        let ghost names_before = names@;
        let ghost entries_before = entries@;
        names.push(models[i].model_hash.clone());
        let entry = available_model(&models[i]);
        entries.push(entry);
        assert(models@.take(i + 1) =~= models@.take(i as int).push(models@[i as int]));
        assert(names@.map_values(|s: String| s@) =~= names_before.map_values(|s: String| s@).push(
            models@[i as int].model_hash@,
        ));
        assert(available_views(entries@) =~= available_views(entries_before).push(entry@));
        i = i + 1;
    }
    assert(models@.take(models@.len() as int) =~= models@);
    let ghost model_names = names@.map_values(|s: String| s@);
    let ghost model_entries = available_views(entries@);
    let mut j: usize = 0;
    while j < plugin_models.len()
        invariant
            j <= plugin_models@.len(),
            names@.map_values(|s: String| s@) == model_names + plugin_models@.take(
                j as int,
            ).map_values(|p: PluginModelDescriptor| p.id@),
            available_views(entries@) == model_entries + plugin_models@.take(j as int).map_values(
                |p: PluginModelDescriptor| available_plugin_model_text(p),
            ),
        decreases plugin_models.len() - j,
    {
        let ghost names_before = names@;
        let ghost entries_before = entries@;
        names.push(plugin_models[j].id.clone());
        let entry = available_plugin_model(&plugin_models[j]);
        entries.push(entry);
        assert(plugin_models@.take(j + 1) =~= plugin_models@.take(j as int).push(
            plugin_models@[j as int],
        ));
        assert(names@.map_values(|s: String| s@) =~= names_before.map_values(|s: String| s@).push(
            plugin_models@[j as int].id@,
        ));
        assert(available_views(entries@) =~= available_views(entries_before).push(entry@));
        j = j + 1;
    }
    assert(plugin_models@.take(plugin_models@.len() as int) =~= plugin_models@);
    AvailableModelsAddition { model_names: names, models: entries }
}

/// The names that the local catalog announces are, one for one and in
/// order, the names of its entries.
pub proof fn law_catalog_names_match_entries(models: Seq<ModelConfig>, plugins: Seq<PluginModelDescriptor>)
    ensures
        catalog_names_text(models, plugins).len() == catalog_entries_text(models, plugins).len(),
        forall|i: int|
            0 <= i < catalog_names_text(models, plugins).len() ==> #[trigger] catalog_names_text(
                models,
                plugins,
            )[i] == catalog_entries_text(models, plugins)[i].name,
{
    let names = catalog_names_text(models, plugins);
    let entries = catalog_entries_text(models, plugins);
    assert forall|i: int| 0 <= i < names.len() implies #[trigger] names[i] == entries[i].name by {
        if i < models.len() {
            assert(names[i] == models[i].model_hash@);
            assert(entries[i] == available_model_text(models[i]));
        } else {
            let j = i - models.len();
            assert(names[i] == plugins[j].id@);
            assert(entries[i] == available_plugin_model_text(plugins[j]));
        }
    }
}

/// The views of a list of usable-model entries.
pub open spec fn details_views(v: Seq<ModelDetails>) -> Seq<ModelDetailsView> {
    v.map_values(|m: ModelDetails| m@)
}

/// The usable-model entries: configured models, then plugin models.
pub open spec fn usable_entries_text(
    models: Seq<ModelConfig>,
    plugins: Seq<PluginModelDescriptor>,
) -> Seq<ModelDetailsView> {
    models.map_values(|m: ModelConfig| model_details_text(m.model_hash@, m.display_name@))
        + plugins.map_values(|p: PluginModelDescriptor| model_details_text(p.id@, p.display_name@))
}

/// The local models to append to Cursor's `GetUsableModels` answer.
pub fn usable_models_addition(
    models: &Vec<ModelConfig>,
    plugin_models: &Vec<PluginModelDescriptor>,
) -> (r: UsableModelsAddition)
    ensures
        details_views(r.models@) == usable_entries_text(models@, plugin_models@),
{
    let mut entries: Vec<ModelDetails> = Vec::new();
    let mut i: usize = 0;
    while i < models.len()
        invariant
            i <= models@.len(),
            details_views(entries@) == models@.take(i as int).map_values(
                |m: ModelConfig| model_details_text(m.model_hash@, m.display_name@),
            ),
        decreases models.len() - i,
    {
        let ghost before = entries@;
        let entry = usable_model(&models[i]);
        entries.push(entry);
        assert(models@.take(i + 1) =~= models@.take(i as int).push(models@[i as int]));
        assert(details_views(entries@) =~= details_views(before).push(entry@));
        i = i + 1;
    }
    assert(models@.take(models@.len() as int) =~= models@);
    let ghost model_entries = details_views(entries@);
    let mut j: usize = 0;
    while j < plugin_models.len()
        invariant
            j <= plugin_models@.len(),
            details_views(entries@) == model_entries + plugin_models@.take(j as int).map_values(
                |p: PluginModelDescriptor| model_details_text(p.id@, p.display_name@),
            ),
        decreases plugin_models.len() - j,
    {
        let ghost before = entries@;
        let entry = usable_plugin_model(&plugin_models[j]);
        entries.push(entry);
        assert(plugin_models@.take(j + 1) =~= plugin_models@.take(j as int).push(
            plugin_models@[j as int],
        ));
        assert(details_views(entries@) =~= details_views(before).push(entry@));
        j = j + 1;
    }
    assert(plugin_models@.take(plugin_models@.len() as int) =~= plugin_models@);
    UsableModelsAddition { models: entries }
}


/// Whether a variant selects some effort level.
pub open spec fn selects_effort(v: VariantView) -> bool {
    exists|m: int| 0 <= m < v.parameter_values.len() && #[trigger] v.parameter_values[m].0 == "reasoning"@
}

/// Every plugin model is published as a thinking model with an Effort
/// parameter, and every one of its variants selects an effort level, even
/// where the plugin's descriptor says it does not reason; its usable-model
/// entry carries thinking details.
pub proof fn law_plugin_models_expose_effort(p: PluginModelDescriptor)
    ensures
        available_plugin_model_text(p).supports_thinking == Some(true),
        exists|m: int|
            0 <= m < available_plugin_model_text(p).parameter_definitions.len()
                && #[trigger] available_plugin_model_text(p).parameter_definitions[m].id == "reasoning"@,
        available_plugin_model_text(p).variants.len() > 0,
        forall|k: int|
            0 <= k < available_plugin_model_text(p).variants.len() ==> selects_effort(
                #[trigger] available_plugin_model_text(p).variants[k],
            ),
        model_details_text(p.id@, p.display_name@).has_thinking_details,
{
    let a = available_plugin_model_text(p);
    let contexts = context_options_text(None);
    let tooltip = opt_text(p.description);
    let axis = effort_axis_text(true);
    assert(a.parameter_definitions[1].id == "reasoning"@);
    law_variant_grid_size(p.id@, p.display_name@, tooltip, contexts, true);
    assert forall|k: int| 0 <= k < a.variants.len() implies selects_effort(#[trigger] a.variants[k]) by {
        let (i, j, f) = lemma_variant_origin(p.id@, p.display_name@, tooltip, contexts, axis, k);
        let v = a.variants[k];
        assert(v.parameter_values[1].0 == "reasoning"@);
    }
}


proof fn lemma_default_context_first(tokens: Option<u64>)
    ensures
        context_options_text(tokens).len() > 0,
        context_options_text(tokens)[0].0 == default_context(),
        forall|i: int|
            0 < i < context_options_text(tokens).len() ==> #[trigger] context_options_text(
                tokens,
            )[i].0 != default_context(),
{
    reveal_strlit("200k");
    reveal_strlit("356k");
    reveal_strlit("500k");
    reveal_strlit("800k");
    reveal_strlit("1m");
    let c = context_options_text(tokens);
    let base = builtin_contexts_text();
    assert(base[1].0 != default_context());
    assert(base[2].0 != default_context());
    assert(base[3].0 != default_context());
    assert(base[4].0 != default_context());
    if let Some(t) = tokens {
        if c.len() == 6 {
            let d = decimal_text(t as nat);
            lemma_decimal_digits(t as nat);
            assert(c[5].0 == d);
            if d == default_context() {
                assert(d[3] == 'k');
                assert(is_digit(d[3]));
            }
        }
    }
}

/// Every catalog entry, of a configured model or of a plugin model, marks
/// exactly one variant as its default: the default context size with high
/// effort, not fast.
pub proof fn law_catalog_entries_have_one_default(m: ModelConfig, p: PluginModelDescriptor)
    ensures
        has_single_default(available_model_text(m).variants),
        has_single_default(available_plugin_model_text(p).variants),
{
    lemma_default_context_first(m.context_window_tokens);
    lemma_default_context_first(None);
    lemma_single_default(
        m.model_hash@,
        m.display_name@,
        Some(m.tooltip_data@),
        context_options_text(m.context_window_tokens),
    );
    lemma_single_default(
        p.id@,
        p.display_name@,
        opt_text(p.description),
        context_options_text(None),
    );
}


/// A plugin model's catalog entry offers image input exactly when the
/// plugin's descriptor says the model takes images, while a configured
/// model's entry always offers it.
pub proof fn law_image_support_follows_the_descriptor(p: PluginModelDescriptor, m: ModelConfig)
    ensures
        available_plugin_model_text(p).supports_images == Some(p.images),
        available_model_text(m).supports_images == Some(true),
{
}

/// A usable-model entry is listed under the model's id and shown under the
/// model's display name, in full and short form, with thinking details.
pub proof fn law_usable_entries_show_display_names(id: Seq<char>, display_name: Seq<char>)
    ensures
        model_details_text(id, display_name).model_id == id,
        model_details_text(id, display_name).display_model_id == id,
        model_details_text(id, display_name).display_name == display_name,
        model_details_text(id, display_name).display_name_short == display_name,
        model_details_text(id, display_name).has_thinking_details,
{
}

/// The usable-model list shows every configured model under its display
/// name and id (its hash), then every plugin model under its display name
/// and id.
pub proof fn law_usable_list_shows_display_names(models: Seq<ModelConfig>, plugins: Seq<PluginModelDescriptor>)
    ensures
        usable_entries_text(models, plugins).len() == models.len() + plugins.len(),
        forall|i: int|
            0 <= i < models.len() ==> #[trigger] usable_entries_text(models, plugins)[i].display_name
                == models[i].display_name@ && usable_entries_text(models, plugins)[i].model_id
                == models[i].model_hash@,
        forall|j: int|
            0 <= j < plugins.len() ==> #[trigger] usable_entries_text(models, plugins)[models.len()
                + j].display_name == plugins[j].display_name@ && usable_entries_text(models, plugins)[
                models.len() + j].model_id == plugins[j].id@,
{
    let e = usable_entries_text(models, plugins);
    assert forall|j: int| 0 <= j < plugins.len() implies #[trigger] e[models.len() + j].display_name
        == plugins[j].display_name@ && e[models.len() + j].model_id == plugins[j].id@ by {
        assert(e[models.len() + j] == model_details_text(plugins[j].id@, plugins[j].display_name@));
    }
}

} // verus!
