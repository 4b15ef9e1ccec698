//! The model catalog that is published to Cursor: its messages and their
//! mathematical views.

use vstd::prelude::*;

verus! {

/// A configured model of the local store.
#[derive(Clone, Debug)]
pub struct ModelConfig {
    pub model_hash: String,
    pub display_name: String,
    pub context_window_tokens: Option<u64>,
    pub tooltip_data: String,
    pub group_name: Option<String>,
    pub base_url: String,
}

/// A model that a plugin provider offers.
#[derive(Clone, Debug)]
pub struct PluginModelDescriptor {
    pub id: String,
    pub plugin_id: String,
    pub plugin_name: String,
    pub provider_id: String,
    pub model_id: String,
    pub display_name: String,
    pub description: Option<String>,
    pub icon: String,
    pub provider_type: String,
    pub context_window_tokens: Option<u64>,
    pub max_output_tokens: Option<u64>,
    pub thinking: bool,
    pub images: bool,
}

/// The view of an optional string.
pub open spec fn opt_text(o: Option<String>) -> Option<Seq<char>> {
    match o {
        Some(s) => Some(s@),
        None => None,
    }
}

/// A copy of an optional string.
pub fn copy_opt_string(o: &Option<String>) -> (r: Option<String>)
    ensures
        opt_text(r) == opt_text(*o),
{
    match o {
        Some(s) => Some(s.clone()),
        None => None,
    }
}

#[derive(Clone, Debug)]
pub struct TooltipData {
    pub markdown_content: Option<String>,
}

impl View for TooltipData {
    type V = Option<Seq<char>>;

    open spec fn view(&self) -> Option<Seq<char>> {
        opt_text(self.markdown_content)
    }
}

impl TooltipData {
    /// A copy of this tooltip.
    pub fn copy(&self) -> (r: TooltipData)
        ensures
            r@ == self@,
    {
        TooltipData { markdown_content: copy_opt_string(&self.markdown_content) }
    }
}

#[derive(Clone, Debug)]
pub struct EnumParameterValue {
    pub value: String,
    pub display_name: Option<String>,
}

pub struct EnumValueView {
    pub value: Seq<char>,
    pub display_name: Option<Seq<char>>,
}

impl View for EnumParameterValue {
    type V = EnumValueView;

    open spec fn view(&self) -> EnumValueView {
        EnumValueView { value: self.value@, display_name: opt_text(self.display_name) }
    }
}

#[derive(Clone, Debug)]
pub struct EnumParameter {
    pub values: Vec<EnumParameterValue>,
}

#[derive(Clone, Debug)]
pub struct BooleanParameterValue {
    pub value: String,
    pub display_name: Option<String>,
    pub increases_model_cost: Option<bool>,
}

pub struct BooleanValueView {
    pub value: Seq<char>,
    pub display_name: Option<Seq<char>>,
    pub increases_model_cost: Option<bool>,
}

impl View for BooleanParameterValue {
    type V = BooleanValueView;

    open spec fn view(&self) -> BooleanValueView {
        BooleanValueView {
            value: self.value@,
            display_name: opt_text(self.display_name),
            increases_model_cost: self.increases_model_cost,
        }
    }
}

#[derive(Clone, Debug)]
pub struct BooleanParameter {
    pub values: Vec<BooleanParameterValue>,
}

#[derive(Clone, Debug)]
pub struct ModelParameterType {
    pub boolean_parameter: Option<BooleanParameter>,
    pub enum_parameter: Option<EnumParameter>,
}

pub struct ParameterTypeView {
    pub boolean_values: Option<Seq<BooleanValueView>>,
    pub enum_values: Option<Seq<EnumValueView>>,
}

impl View for ModelParameterType {
    type V = ParameterTypeView;

    open spec fn view(&self) -> ParameterTypeView {
        ParameterTypeView {
            boolean_values: match self.boolean_parameter {
                Some(b) => Some(b.values@.map_values(|v: BooleanParameterValue| v@)),
                None => None,
            },
            enum_values: match self.enum_parameter {
                Some(e) => Some(e.values@.map_values(|v: EnumParameterValue| v@)),
                None => None,
            },
        }
    }
}

#[derive(Clone, Debug)]
pub struct ModelParameterDefinition {
    pub id: String,
    pub name: String,
    pub markdown_tooltip: Option<String>,
    pub parameter_type: Option<ModelParameterType>,
    pub is_cycleable_by_hotkey: Option<bool>,
}

pub struct ParameterDefinitionView {
    pub id: Seq<char>,
    pub name: Seq<char>,
    pub markdown_tooltip: Option<Seq<char>>,
    pub parameter_type: Option<ParameterTypeView>,
    pub is_cycleable_by_hotkey: Option<bool>,
}

impl View for ModelParameterDefinition {
    type V = ParameterDefinitionView;

    open spec fn view(&self) -> ParameterDefinitionView {
        ParameterDefinitionView {
            id: self.id@,
            name: self.name@,
            markdown_tooltip: opt_text(self.markdown_tooltip),
            parameter_type: match self.parameter_type {
                Some(t) => Some(t@),
                None => None,
            },
            is_cycleable_by_hotkey: self.is_cycleable_by_hotkey,
        }
    }
}

#[derive(Clone, Debug)]
pub struct ModelParameterValue {
    pub id: String,
    pub value: String,
}

impl View for ModelParameterValue {
    type V = (Seq<char>, Seq<char>);

    open spec fn view(&self) -> (Seq<char>, Seq<char>) {
        (self.id@, self.value@)
    }
}

#[derive(Clone, Debug)]
pub struct ModelVariant {
    pub parameter_values: Vec<ModelParameterValue>,
    pub display_name: String,
    pub is_max_mode: bool,
    pub is_default_max_config: Option<bool>,
    pub is_default_non_max_config: Option<bool>,
    pub tooltip_data: Option<TooltipData>,
    pub display_name_outside_picker: Option<String>,
    pub variant_string_representation: Option<String>,
    pub legacy_slug: Option<String>,
}

pub struct VariantView {
    pub parameter_values: Seq<(Seq<char>, Seq<char>)>,
    pub display_name: Seq<char>,
    pub is_max_mode: bool,
    pub is_default_max_config: Option<bool>,
    pub is_default_non_max_config: Option<bool>,
    pub tooltip_data: Option<Option<Seq<char>>>,
    pub display_name_outside_picker: Option<Seq<char>>,
    pub variant_string_representation: Option<Seq<char>>,
    pub legacy_slug: Option<Seq<char>>,
}

impl View for ModelVariant {
    type V = VariantView;

    open spec fn view(&self) -> VariantView {
        VariantView {
            parameter_values: self.parameter_values@.map_values(|p: ModelParameterValue| p@),
            display_name: self.display_name@,
            is_max_mode: self.is_max_mode,
            is_default_max_config: self.is_default_max_config,
            is_default_non_max_config: self.is_default_non_max_config,
            tooltip_data: match self.tooltip_data {
                Some(t) => Some(t@),
                None => None,
            },
            display_name_outside_picker: opt_text(self.display_name_outside_picker),
            variant_string_representation: opt_text(self.variant_string_representation),
            legacy_slug: opt_text(self.legacy_slug),
        }
    }
}

#[derive(Clone, Debug)]
pub struct ModelPickerBadge {
    pub label: String,
    pub variant: i32,
    pub dismiss_on_selection: bool,
}

#[derive(Clone, Debug)]
pub struct AvailableModelVendor {
    pub id: i32,
    pub display_name: String,
}

#[derive(Clone, Debug)]
pub struct AvailableModel {
    pub name: String,
    pub default_on: bool,
    pub supports_agent: Option<bool>,
    pub degradation_status: Option<i32>,
    pub tooltip_data: Option<TooltipData>,
    pub supports_thinking: Option<bool>,
    pub supports_images: Option<bool>,
    pub supports_max_mode: Option<bool>,
    pub client_display_name: Option<String>,
    pub server_model_name: Option<String>,
    pub supports_non_max_mode: Option<bool>,
    pub tooltip_data_for_max_mode: Option<TooltipData>,
    pub is_recommended_for_background_composer: Option<bool>,
    pub supports_plan_mode: Option<bool>,
    pub inputbox_short_model_name: Option<String>,
    pub supports_sandboxing: Option<bool>,
    pub supports_cmd_k: Option<bool>,
    pub parameter_definitions: Vec<ModelParameterDefinition>,
    pub variants: Vec<ModelVariant>,
    pub legacy_slugs: Vec<String>,
    pub named_model_section_index: Option<i32>,
    pub vendor_name: Option<String>,
    pub vendor: Option<AvailableModelVendor>,
    pub model_picker_badges: Vec<ModelPickerBadge>,
}

pub struct AvailableModelView {
    pub name: Seq<char>,
    pub default_on: bool,
    pub supports_agent: Option<bool>,
    pub degradation_status: Option<i32>,
    pub tooltip_data: Option<Option<Seq<char>>>,
    pub supports_thinking: Option<bool>,
    pub supports_images: Option<bool>,
    pub supports_max_mode: Option<bool>,
    pub client_display_name: Option<Seq<char>>,
    pub server_model_name: Option<Seq<char>>,
    pub supports_non_max_mode: Option<bool>,
    pub tooltip_data_for_max_mode: Option<Option<Seq<char>>>,
    pub is_recommended_for_background_composer: Option<bool>,
    pub supports_plan_mode: Option<bool>,
    pub inputbox_short_model_name: Option<Seq<char>>,
    pub supports_sandboxing: Option<bool>,
    pub supports_cmd_k: Option<bool>,
    pub parameter_definitions: Seq<ParameterDefinitionView>,
    pub variants: Seq<VariantView>,
    pub legacy_slugs: Seq<Seq<char>>,
    pub named_model_section_index: Option<i32>,
    pub vendor_name: Option<Seq<char>>,
    pub vendor: Option<(i32, Seq<char>)>,
    pub model_picker_badges: Seq<(Seq<char>, i32, bool)>,
}

impl View for AvailableModel {
    type V = AvailableModelView;

    open spec fn view(&self) -> AvailableModelView {
        AvailableModelView {
            name: self.name@,
            default_on: self.default_on,
            supports_agent: self.supports_agent,
            degradation_status: self.degradation_status,
            tooltip_data: match self.tooltip_data {
                Some(t) => Some(t@),
                None => None,
            },
            supports_thinking: self.supports_thinking,
            supports_images: self.supports_images,
            supports_max_mode: self.supports_max_mode,
            client_display_name: opt_text(self.client_display_name),
            server_model_name: opt_text(self.server_model_name),
            supports_non_max_mode: self.supports_non_max_mode,
            tooltip_data_for_max_mode: match self.tooltip_data_for_max_mode {
                Some(t) => Some(t@),
                None => None,
            },
            is_recommended_for_background_composer: self.is_recommended_for_background_composer,
            supports_plan_mode: self.supports_plan_mode,
            inputbox_short_model_name: opt_text(self.inputbox_short_model_name),
            supports_sandboxing: self.supports_sandboxing,
            supports_cmd_k: self.supports_cmd_k,
            parameter_definitions: self.parameter_definitions@.map_values(
                |d: ModelParameterDefinition| d@,
            ),
            variants: self.variants@.map_values(|v: ModelVariant| v@),
            legacy_slugs: self.legacy_slugs@.map_values(|s: String| s@),
            named_model_section_index: self.named_model_section_index,
            vendor_name: opt_text(self.vendor_name),
            vendor: match self.vendor {
                Some(v) => Some((v.id, v.display_name@)),
                None => None,
            },
            model_picker_badges: self.model_picker_badges@.map_values(
                |b: ModelPickerBadge| (b.label@, b.variant, b.dismiss_on_selection),
            ),
        }
    }
}

/// The local models appended to Cursor's `AvailableModels` answer.
#[derive(Clone, Debug)]
pub struct AvailableModelsAddition {
    pub model_names: Vec<String>,
    pub models: Vec<AvailableModel>,
}

/// Thinking capabilities of a usable model; every field at its default.
#[derive(Clone, Debug)]
pub struct ThinkingDetails {}

/// A model entry of Cursor's `GetUsableModels` answer.
#[derive(Clone, Debug)]
pub struct ModelDetails {
    pub model_id: String,
    pub display_model_id: String,
    pub display_name: String,
    pub display_name_short: String,
    pub thinking_details: Option<ThinkingDetails>,
}

pub struct ModelDetailsView {
    pub model_id: Seq<char>,
    pub display_model_id: Seq<char>,
    pub display_name: Seq<char>,
    pub display_name_short: Seq<char>,
    pub has_thinking_details: bool,
}

impl View for ModelDetails {
    type V = ModelDetailsView;

    open spec fn view(&self) -> ModelDetailsView {
        ModelDetailsView {
            model_id: self.model_id@,
            display_model_id: self.display_model_id@,
            display_name: self.display_name@,
            display_name_short: self.display_name_short@,
            has_thinking_details: self.thinking_details is Some,
        }
    }
}

/// The local models appended to Cursor's `GetUsableModels` answer.
#[derive(Clone, Debug)]
pub struct UsableModelsAddition {
    pub models: Vec<ModelDetails>,
}

} // verus!
