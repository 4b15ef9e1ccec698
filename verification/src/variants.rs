//! The parameter axes of a published model and the grid of variants that
//! Cursor's model picker offers for them.

use vstd::prelude::*;
use vstd::string::StringExecFns;
use crate::catalog::{
    BooleanParameter, BooleanParameterValue, BooleanValueView, EnumParameter, EnumParameterValue,
    EnumValueView, ModelParameterDefinition, ModelParameterType, ModelParameterValue, ModelVariant,
    ParameterDefinitionView, ParameterTypeView, TooltipData, VariantView,
};
use crate::text::{decimal, decimal_text, join, join_text, owned, str_eq, texts};
use crate::token::{format_token_count, parse_token_count, token_count_of, token_count_text};

verus! {

/// The value of the context axis that stands for the default context size.
pub open spec fn default_context() -> Seq<char> {
    "200k"@
}

/// The built-in context sizes: (parameter value, display name).
pub open spec fn builtin_contexts_text() -> Seq<(Seq<char>, Seq<char>)> {
    seq![
        ("200k"@, "200K"@),
        ("356k"@, "356K"@),
        ("500k"@, "500K"@),
        ("800k"@, "800K"@),
        ("1m"@, "1M"@),
    ]
}

/// The effort levels: (parameter value, display name).
pub open spec fn efforts_text() -> Seq<(Seq<char>, Seq<char>)> {
    seq![
        ("low"@, "Low"@),
        ("medium"@, "Medium"@),
        ("high"@, "High"@),
        ("xhigh"@, "Extra High"@),
        ("max"@, "Max"@),
    ]
}

/// The views of a list of string pairs.
pub open spec fn pairs_text(v: Seq<(String, String)>) -> Seq<(Seq<char>, Seq<char>)> {
    v.map_values(|p: (String, String)| (p.0@, p.1@))
}

/// The context options of a model whose configured context window is
/// `tokens`: the built-in sizes, then the configured size as a custom option
/// unless a built-in size already stands for the same token count.
pub open spec fn context_options_text(tokens: Option<u64>) -> Seq<(Seq<char>, Seq<char>)> {
    let base = builtin_contexts_text();
    match tokens {
        None => base,
        Some(t) => if exists|i: int|
            0 <= i < base.len() && token_count_of(#[trigger] base[i].0) == Some(t) {
            base
        } else {
            base.push((decimal_text(t as nat), token_count_text(t) + " (Custom)"@))
        },
    }
}

fn push_pair(v: &mut Vec<(String, String)>, a: &str, b: &str)
    ensures
        pairs_text(final(v)@) == pairs_text(old(v)@).push((a@, b@)),
{
    let ghost before = v@;
    v.push((owned(a), owned(b)));
    assert(pairs_text(v@) =~= pairs_text(before).push((a@, b@)));
}

/// The built-in context sizes.
pub fn builtin_contexts() -> (r: Vec<(String, String)>)
    ensures
        pairs_text(r@) == builtin_contexts_text(),
{
    let mut r: Vec<(String, String)> = Vec::new();
    push_pair(&mut r, "200k", "200K");
    push_pair(&mut r, "356k", "356K");
    push_pair(&mut r, "500k", "500K");
    push_pair(&mut r, "800k", "800K");
    push_pair(&mut r, "1m", "1M");
    assert(pairs_text(r@) =~= builtin_contexts_text());
    r
}

/// The context options offered for a model with the given context window.
pub fn context_options(context_window_tokens: Option<u64>) -> (r: Vec<(String, String)>)
    ensures
        pairs_text(r@) == context_options_text(context_window_tokens),
{
    let mut contexts = builtin_contexts();
    if let Some(tokens) = context_window_tokens {
        let ghost base = builtin_contexts_text();
        let mut duplicate = false;
        let mut i: usize = 0;
        while i < contexts.len()
            invariant
                pairs_text(contexts@) == base,
                i <= contexts@.len(),
                duplicate == exists|j: int|
                    0 <= j < i && token_count_of(#[trigger] base[j].0) == Some(tokens),
            decreases contexts.len() - i,
        {
            assert(base[i as int].0 == contexts@[i as int].0@);
            if parse_token_count(contexts[i].0.as_str()) == Some(tokens) {
                duplicate = true;
            }
            i = i + 1;
        }
        if !duplicate {
            let value = decimal(tokens);
            let mut display_name = format_token_count(tokens);
            display_name.append(" (Custom)");
            let ghost before = contexts@;
            contexts.push((value, display_name));
            assert(pairs_text(contexts@) =~= pairs_text(before).push(
                (decimal_text(tokens as nat), token_count_text(tokens) + " (Custom)"@),
            ));
        }
    }
    contexts
}


/// The views of a list of parameter definitions.
pub open spec fn definitions_text(v: Seq<ModelParameterDefinition>) -> Seq<ParameterDefinitionView> {
    v.map_values(|d: ModelParameterDefinition| d@)
}

/// Enum choices offering each (value, display name) pair.
pub open spec fn enum_choices_text(pairs: Seq<(Seq<char>, Seq<char>)>) -> Seq<EnumValueView> {
    pairs.map_values(|p: (Seq<char>, Seq<char>)| EnumValueView { value: p.0, display_name: Some(p.1) })
}

/// The context-size parameter over the given options.
pub open spec fn context_parameter_text(contexts: Seq<(Seq<char>, Seq<char>)>) -> ParameterDefinitionView {
    ParameterDefinitionView {
        id: "context"@,
        name: "Context"@,
        markdown_tooltip: Some("Context size used to trigger conversation compaction."@),
        parameter_type: Some(
            ParameterTypeView { boolean_values: None, enum_values: Some(enum_choices_text(contexts)) },
        ),
        is_cycleable_by_hotkey: Some(false),
    }
}

/// The effort parameter.
pub open spec fn reasoning_parameter_text() -> ParameterDefinitionView {
    ParameterDefinitionView {
        id: "reasoning"@,
        name: "Effort"@,
        markdown_tooltip: Some("Effort the model uses to generate its response."@),
        parameter_type: Some(
            ParameterTypeView {
                boolean_values: None,
                enum_values: Some(enum_choices_text(efforts_text())),
            },
        ),
        is_cycleable_by_hotkey: Some(true),
    }
}

/// The fast-mode parameter.
pub open spec fn fast_parameter_text() -> ParameterDefinitionView {
    ParameterDefinitionView {
        id: "fast"@,
        name: "Fast"@,
        markdown_tooltip: Some("Significantly faster but consumes more usage"@),
        parameter_type: Some(
            ParameterTypeView {
                boolean_values: Some(
                    seq![
                        BooleanValueView {
                            value: "false"@,
                            display_name: None,
                            increases_model_cost: None,
                        },
                        BooleanValueView {
                            value: "true"@,
                            display_name: Some("Fast"@),
                            increases_model_cost: Some(true),
                        },
                    ],
                ),
                enum_values: None,
            },
        ),
        is_cycleable_by_hotkey: Some(false),
    }
}

/// The parameters of a model: context, then effort for a thinking model,
/// then fast mode.
pub open spec fn parameters_text(contexts: Seq<(Seq<char>, Seq<char>)>, thinking: bool) -> Seq<
    ParameterDefinitionView,
> {
    if thinking {
        seq![context_parameter_text(contexts), reasoning_parameter_text(), fast_parameter_text()]
    } else {
        seq![context_parameter_text(contexts), fast_parameter_text()]
    }
}

fn enum_choices(pairs: &Vec<(String, String)>) -> (r: Vec<EnumParameterValue>)
    ensures
        r@.map_values(|v: EnumParameterValue| v@) == enum_choices_text(pairs_text(pairs@)),
{
    let mut r: Vec<EnumParameterValue> = Vec::new();
    let mut i: usize = 0;
    while i < pairs.len()
        invariant
            i <= pairs@.len(),
            r@.map_values(|v: EnumParameterValue| v@) == enum_choices_text(
                pairs_text(pairs@).take(i as int),
            ),
        decreases pairs.len() - i,
    {
        let ghost before = r@;
        r.push(
            EnumParameterValue {
                value: pairs[i].0.clone(),
                display_name: Some(pairs[i].1.clone()),
            },
        );
        let ghost pt = pairs_text(pairs@);
        assert(pt[i as int] == (pairs@[i as int].0@, pairs@[i as int].1@));
        assert(r@.map_values(|v: EnumParameterValue| v@) =~= before.map_values(
            |v: EnumParameterValue| v@,
        ).push(EnumValueView { value: pt[i as int].0, display_name: Some(pt[i as int].1) }));
        assert(pt.take(i + 1) =~= pt.take(i as int).push(pt[i as int]));
        assert(enum_choices_text(pt.take(i + 1)) =~= enum_choices_text(pt.take(i as int)).push(
            EnumValueView { value: pt[i as int].0, display_name: Some(pt[i as int].1) },
        ));
        i = i + 1;
    }
    assert(pairs_text(pairs@).take(pairs@.len() as int) =~= pairs_text(pairs@));
    r
}

fn push_enum_choice(r: &mut Vec<EnumParameterValue>, value: &str, display_name: &str)
    ensures
        final(r)@.map_values(|v: EnumParameterValue| v@) == old(r)@.map_values(
            |v: EnumParameterValue| v@,
        ).push(EnumValueView { value: value@, display_name: Some(display_name@) }),
{
    let ghost before = r@;
    r.push(EnumParameterValue { value: owned(value), display_name: Some(owned(display_name)) });
    assert(r@.map_values(|v: EnumParameterValue| v@) =~= before.map_values(
        |v: EnumParameterValue| v@,
    ).push(EnumValueView { value: value@, display_name: Some(display_name@) }));
}

fn effort_choices() -> (r: Vec<EnumParameterValue>)
    ensures
        r@.map_values(|v: EnumParameterValue| v@) == enum_choices_text(efforts_text()),
{
    let mut r: Vec<EnumParameterValue> = Vec::new();
    push_enum_choice(&mut r, "low", "Low");
    push_enum_choice(&mut r, "medium", "Medium");
    push_enum_choice(&mut r, "high", "High");
    push_enum_choice(&mut r, "xhigh", "Extra High");
    push_enum_choice(&mut r, "max", "Max");
    assert(r@.map_values(|v: EnumParameterValue| v@) =~= enum_choices_text(efforts_text()));
    r
}

fn context_parameter(contexts: &Vec<(String, String)>) -> (r: ModelParameterDefinition)
    ensures
        r@ == context_parameter_text(pairs_text(contexts@)),
{
    ModelParameterDefinition {
        id: owned("context"),
        name: owned("Context"),
        markdown_tooltip: Some(owned("Context size used to trigger conversation compaction.")),
        parameter_type: Some(
            ModelParameterType {
                boolean_parameter: None,
                enum_parameter: Some(EnumParameter { values: enum_choices(contexts) }),
            },
        ),
        is_cycleable_by_hotkey: Some(false),
    }
}

fn reasoning_parameter() -> (r: ModelParameterDefinition)
    ensures
        r@ == reasoning_parameter_text(),
{
    ModelParameterDefinition {
        id: owned("reasoning"),
        name: owned("Effort"),
        markdown_tooltip: Some(owned("Effort the model uses to generate its response.")),
        parameter_type: Some(
            ModelParameterType {
                boolean_parameter: None,
                enum_parameter: Some(EnumParameter { values: effort_choices() }),
            },
        ),
        is_cycleable_by_hotkey: Some(true),
    }
}

fn fast_parameter() -> (r: ModelParameterDefinition)
    ensures
        r@ == fast_parameter_text(),
{
    let mut values: Vec<BooleanParameterValue> = Vec::new();
    values.push(
        BooleanParameterValue {
            value: owned("false"),
            display_name: None,
            increases_model_cost: None,
        },
    );
    values.push(
        BooleanParameterValue {
            value: owned("true"),
            display_name: Some(owned("Fast")),
            increases_model_cost: Some(true),
        },
    );
    let r = ModelParameterDefinition {
        id: owned("fast"),
        name: owned("Fast"),
        markdown_tooltip: Some(owned("Significantly faster but consumes more usage")),
        parameter_type: Some(
            ModelParameterType {
                boolean_parameter: Some(BooleanParameter { values }),
                enum_parameter: None,
            },
        ),
        is_cycleable_by_hotkey: Some(false),
    };
    assert(r@.parameter_type->0.boolean_values->0 =~= fast_parameter_text().parameter_type->0.boolean_values->0);
    r
}

/// The parameter definitions of a model with the given context options.
pub fn model_parameters(contexts: &Vec<(String, String)>, thinking: bool) -> (r: Vec<
    ModelParameterDefinition,
>)
    ensures
        definitions_text(r@) == parameters_text(pairs_text(contexts@), thinking),
{
    let mut parameters: Vec<ModelParameterDefinition> = Vec::new();
    parameters.push(context_parameter(contexts));
    if thinking {
        parameters.push(reasoning_parameter());
    }
    parameters.push(fast_parameter());
    assert(definitions_text(parameters@) =~= parameters_text(pairs_text(contexts@), thinking));
    parameters
}


/// The view of an effort level: (parameter value, display name).
pub open spec fn effort_text(e: Option<(&str, &str)>) -> Option<(Seq<char>, Seq<char>)> {
    match e {
        Some(p) => Some((p.0@, p.1@)),
        None => None,
    }
}

/// The text of a boolean parameter value.
pub open spec fn bool_text(b: bool) -> Seq<char> {
    if b {
        "true"@
    } else {
        "false"@
    }
}

/// The words after a variant's display name: the context size where it is
/// not the default, the effort level, and "Fast".
pub open spec fn suffix_parts_text(
    context: Seq<char>,
    context_name: Seq<char>,
    effort: Option<(Seq<char>, Seq<char>)>,
    fast: bool,
) -> Seq<Seq<char>> {
    (if context != default_context() {
        seq![context_name]
    } else {
        Seq::<Seq<char>>::empty()
    }) + (match effort {
        Some(e) => seq![e.1],
        None => Seq::<Seq<char>>::empty(),
    }) + (if fast {
        seq!["Fast"@]
    } else {
        Seq::<Seq<char>>::empty()
    })
}

/// A variant's display name: the model's name, followed by the suffix in a
/// dimmed span where there is one.
pub open spec fn variant_display_text(display_name: Seq<char>, suffix: Seq<char>) -> Seq<char> {
    if suffix.len() == 0 {
        display_name
    } else {
        display_name + " <span style=\"color: var(--cursor-text-tertiary);\">"@ + suffix
            + "</span>"@
    }
}

/// Whether a variant is the model's default configuration: the default
/// context size, not fast, and high effort where there is an effort axis.
pub open spec fn is_default_variant(
    context: Seq<char>,
    effort: Option<(Seq<char>, Seq<char>)>,
    fast: bool,
) -> bool {
    context == default_context() && !fast && match effort {
        None => true,
        Some(e) => e.0 == "high"@,
    }
}

/// The parameter values that select a variant.
pub open spec fn variant_values_text(
    context: Seq<char>,
    effort: Option<(Seq<char>, Seq<char>)>,
    fast: bool,
) -> Seq<(Seq<char>, Seq<char>)> {
    seq![("context"@, context)] + (match effort {
        Some(e) => seq![("reasoning"@, e.0)],
        None => Seq::<(Seq<char>, Seq<char>)>::empty(),
    }) + seq![("fast"@, bool_text(fast))]
}

/// The string representation of a variant.
pub open spec fn variant_repr_text(
    name: Seq<char>,
    context: Seq<char>,
    effort: Option<(Seq<char>, Seq<char>)>,
    fast: bool,
) -> Seq<char> {
    match effort {
        Some(e) => name + "[context="@ + context + ",reasoning="@ + e.0 + ",fast="@ + bool_text(fast)
            + "]"@,
        None => name + "[context="@ + context + ",fast="@ + bool_text(fast) + "]"@,
    }
}

/// The legacy slug of a variant: `<name>-<context>[-<effort>][-fast]`.
pub open spec fn legacy_slug_text(
    name: Seq<char>,
    context: Seq<char>,
    effort: Option<(Seq<char>, Seq<char>)>,
    fast: bool,
) -> Seq<char> {
    name + "-"@ + context + (match effort {
        Some(e) => "-"@ + e.0,
        None => Seq::<char>::empty(),
    }) + (if fast {
        "-fast"@
    } else {
        Seq::<char>::empty()
    })
}

/// One variant of a model.
pub open spec fn variant_text(
    name: Seq<char>,
    display_name: Seq<char>,
    tooltip: Option<Seq<char>>,
    context: Seq<char>,
    context_name: Seq<char>,
    effort: Option<(Seq<char>, Seq<char>)>,
    fast: bool,
) -> VariantView {
    let display = variant_display_text(
        display_name,
        join_text(suffix_parts_text(context, context_name, effort, fast), " "@),
    );
    let is_default = is_default_variant(context, effort, fast);
    VariantView {
        parameter_values: variant_values_text(context, effort, fast),
        display_name: display,
        is_max_mode: false,
        is_default_max_config: if is_default {
            Some(true)
        } else {
            None
        },
        is_default_non_max_config: if is_default {
            Some(true)
        } else {
            None
        },
        tooltip_data: Some(tooltip),
        display_name_outside_picker: Some(display),
        variant_string_representation: Some(variant_repr_text(name, context, effort, fast)),
        legacy_slug: Some(legacy_slug_text(name, context, effort, fast)),
    }
}

fn push_text(parts: &mut Vec<String>, t: &str)
    ensures
        texts(final(parts)@) == texts(old(parts)@).push(t@),
{
    let ghost before = parts@;
    parts.push(owned(t));
    assert(texts(parts@) =~= texts(before).push(t@));
}

fn push_value(values: &mut Vec<ModelParameterValue>, id: &str, value: &str)
    ensures
        final(values)@.map_values(|p: ModelParameterValue| p@) == old(values)@.map_values(
            |p: ModelParameterValue| p@,
        ).push((id@, value@)),
{
    let ghost before = values@;
    values.push(ModelParameterValue { id: owned(id), value: owned(value) });
    assert(values@.map_values(|p: ModelParameterValue| p@) =~= before.map_values(
        |p: ModelParameterValue| p@,
    ).push((id@, value@)));
}

fn fast_word(fast: bool) -> (r: &'static str)
    ensures
        r@ == bool_text(fast),
{
    if fast {
        "true"
    } else {
        "false"
    }
}

/// One variant of a model: a point of the context × effort × fast grid.
pub fn model_variant(
    name: &str,
    display_name: &str,
    tooltip: &TooltipData,
    context: &str,
    context_name: &str,
    effort: Option<(&str, &str)>,
    fast: bool,
) -> (r: ModelVariant)
    ensures
        r@ == variant_text(
            name@,
            display_name@,
            tooltip@,
            context@,
            context_name@,
            effort_text(effort),
            fast,
        ),
        r.is_default_max_config == r.is_default_non_max_config,
        r.is_default_max_config == Some(true) <==> (context@ == "200k"@ && !fast && match effort {
            None => true,
            Some(p) => p.0@ == "high"@,
        }),
        r.is_default_max_config is None || r.is_default_max_config == Some(true),
{
    let ghost e = effort_text(effort);
    let is_default_context = str_eq(context, "200k");
    let mut parts: Vec<String> = Vec::new();
    if !is_default_context {
        push_text(&mut parts, context_name);
    }
    if let Some((_, effort_name)) = effort {
        push_text(&mut parts, effort_name);
    }
    if fast {
        push_text(&mut parts, "Fast");
    }
    assert(texts(parts@) =~= suffix_parts_text(context@, context_name@, e, fast));
    let suffix = join(&parts, " ");
    let display = if suffix.as_str().is_empty() {
        owned(display_name)
    } else {
        let mut d = owned(display_name);
        d.append(" <span style=\"color: var(--cursor-text-tertiary);\">");
        d.append(suffix.as_str());
        d.append("</span>");
        d
    };
    let high = match effort {
        Some((level, _)) => str_eq(level, "high"),
        None => true,
    };
    let is_default = is_default_context && !fast && high;
    let mut parameter_values: Vec<ModelParameterValue> = Vec::new();
    push_value(&mut parameter_values, "context", context);
    if let Some((level, _)) = effort {
        push_value(&mut parameter_values, "reasoning", level);
    }
    push_value(&mut parameter_values, "fast", fast_word(fast));
    assert(parameter_values@.map_values(|p: ModelParameterValue| p@) =~= variant_values_text(
        context@,
        e,
        fast,
    ));
    let mut repr = owned(name);
    repr.append("[context=");
    repr.append(context);
    if let Some((level, _)) = effort {
        repr.append(",reasoning=");
        repr.append(level);
    }
    repr.append(",fast=");
    repr.append(fast_word(fast));
    repr.append("]");
    let mut slug = owned(name);
    slug.append("-");
    slug.append(context);
    if let Some((level, _)) = effort {
        slug.append("-");
        slug.append(level);
    }
    if fast {
        slug.append("-fast");
    }
    proof {
        if let Some(p) = e {
            assert(name@ + "-"@ + context@ + ("-"@ + p.0) =~= name@ + "-"@ + context@ + "-"@ + p.0);
        }
        assert(legacy_slug_text(name@, context@, e, fast) =~= slug@);
    }
    ModelVariant {
        parameter_values,
        display_name: display.clone(),
        is_max_mode: false,
        is_default_max_config: if is_default {
            Some(true)
        } else {
            None
        },
        is_default_non_max_config: if is_default {
            Some(true)
        } else {
            None
        },
        tooltip_data: Some(tooltip.copy()),
        display_name_outside_picker: Some(display),
        variant_string_representation: Some(repr),
        legacy_slug: Some(slug),
    }
}


/// The effort axis of the variant grid: the five effort levels for a
/// thinking model, a single "no effort" point otherwise.
pub open spec fn effort_axis_text(thinking: bool) -> Seq<Option<(Seq<char>, Seq<char>)>> {
    if thinking {
        seq![
            Some(("low"@, "Low"@)),
            Some(("medium"@, "Medium"@)),
            Some(("high"@, "High"@)),
            Some(("xhigh"@, "Extra High"@)),
            Some(("max"@, "Max"@)),
        ]
    } else {
        seq![None]
    }
}

/// The variants of one context size: for each effort point, not fast then fast.
pub open spec fn context_block_text(
    name: Seq<char>,
    display_name: Seq<char>,
    tooltip: Option<Seq<char>>,
    context: (Seq<char>, Seq<char>),
    axis: Seq<Option<(Seq<char>, Seq<char>)>>,
) -> Seq<VariantView>
    decreases axis.len(),
{
    if axis.len() == 0 {
        Seq::<VariantView>::empty()
    } else {
        context_block_text(name, display_name, tooltip, context, axis.drop_last()) + seq![
            variant_text(name, display_name, tooltip, context.0, context.1, axis.last(), false),
            variant_text(name, display_name, tooltip, context.0, context.1, axis.last(), true),
        ]
    }
}

/// The variant grid: context sizes outermost, then effort, then fast.
pub open spec fn variants_text(
    name: Seq<char>,
    display_name: Seq<char>,
    tooltip: Option<Seq<char>>,
    contexts: Seq<(Seq<char>, Seq<char>)>,
    axis: Seq<Option<(Seq<char>, Seq<char>)>>,
) -> Seq<VariantView>
    decreases contexts.len(),
{
    if contexts.len() == 0 {
        Seq::<VariantView>::empty()
    } else {
        variants_text(name, display_name, tooltip, contexts.drop_last(), axis)
            + context_block_text(name, display_name, tooltip, contexts.last(), axis)
    }
}

/// The views of a list of variants.
pub open spec fn variant_views(v: Seq<ModelVariant>) -> Seq<VariantView> {
    v.map_values(|m: ModelVariant| m@)
}

fn effort_axis(thinking: bool) -> (r: Vec<Option<(&'static str, &'static str)>>)
    ensures
        r@.map_values(|e: Option<(&str, &str)>| effort_text(e)) == effort_axis_text(thinking),
{
    let mut r: Vec<Option<(&'static str, &'static str)>> = Vec::new();
    if thinking {
        r.push(Some(("low", "Low")));
        r.push(Some(("medium", "Medium")));
        r.push(Some(("high", "High")));
        r.push(Some(("xhigh", "Extra High")));
        r.push(Some(("max", "Max")));
    } else {
        r.push(None);
    }
    assert(r@.map_values(|e: Option<(&str, &str)>| effort_text(e)) =~= effort_axis_text(thinking));
    r
}

/// The variants that Cursor's picker offers for a model: every context
/// size, every effort level (thinking models only), fast off and on.
pub fn model_variants(
    name: &str,
    display_name: &str,
    tooltip: &TooltipData,
    contexts: &Vec<(String, String)>,
    thinking: bool,
) -> (r: Vec<ModelVariant>)
    ensures
        variant_views(r@) == variants_text(
            name@,
            display_name@,
            tooltip@,
            pairs_text(contexts@),
            effort_axis_text(thinking),
        ),
{
    let efforts = effort_axis(thinking);
    let ghost axis = effort_axis_text(thinking);
    let ghost cs = pairs_text(contexts@);
    let mut variants: Vec<ModelVariant> = Vec::new();
    let mut i: usize = 0;
    while i < contexts.len()
        invariant
            i <= contexts@.len(),
            cs == pairs_text(contexts@),
            axis == effort_axis_text(thinking),
            efforts@.map_values(|e: Option<(&str, &str)>| effort_text(e)) == axis,
            variant_views(variants@) == variants_text(
                name@,
                display_name@,
                tooltip@,
                cs.take(i as int),
                axis,
            ),
        decreases contexts.len() - i,
    {
        let context = contexts[i].0.as_str();
        let context_name = contexts[i].1.as_str();
        let ghost ctx = cs[i as int];
        assert(ctx == (context@, context_name@));
        let ghost done = variant_views(variants@);
        let mut j: usize = 0;
        while j < efforts.len()
            invariant
                i < contexts@.len(),
                j <= efforts@.len(),
                ctx == (context@, context_name@),
                efforts@.map_values(|e: Option<(&str, &str)>| effort_text(e)) == axis,
                variant_views(variants@) == done + context_block_text(
                    name@,
                    display_name@,
                    tooltip@,
                    ctx,
                    axis.take(j as int),
                ),
            decreases efforts.len() - j,
        {
            let effort = efforts[j];
            assert(axis[j as int] == effort_text(effort));
            assert(axis.take(j + 1).drop_last() =~= axis.take(j as int));
            let ghost before = variant_views(variants@);
            let slow = model_variant(name, display_name, tooltip, context, context_name, effort, false);
            variants.push(slow);
            let quick = model_variant(name, display_name, tooltip, context, context_name, effort, true);
            variants.push(quick);
            assert(variant_views(variants@) =~= before + seq![slow@, quick@]);
            j = j + 1;
        }
        assert(axis.take(efforts@.len() as int) =~= axis);
        assert(cs.take(i + 1).drop_last() =~= cs.take(i as int));
        i = i + 1;
    }
    assert(cs.take(contexts@.len() as int) =~= cs);
    variants
}



/// Where in a context's block the variant of effort point `j` and fast flag
/// `f` stands.
pub open spec fn block_index(j: int, f: bool) -> int {
    2 * j + if f {
        1int
    } else {
        0int
    }
}

/// Where in the grid the variant of context `i`, effort point `j` and fast
/// flag `f` stands, for an effort axis of `a` points.
pub open spec fn grid_index(i: int, a: int, j: int, f: bool) -> int {
    i * (2 * a) + block_index(j, f)
}

proof fn lemma_block_position(
    name: Seq<char>,
    display_name: Seq<char>,
    tooltip: Option<Seq<char>>,
    context: (Seq<char>, Seq<char>),
    axis: Seq<Option<(Seq<char>, Seq<char>)>>,
)
    ensures
        context_block_text(name, display_name, tooltip, context, axis).len() == 2 * axis.len(),
        forall|j: int, f: bool|
            0 <= j < axis.len() ==> #[trigger] context_block_text(
                name,
                display_name,
                tooltip,
                context,
                axis,
            )[block_index(j, f)] == variant_text(
                name,
                display_name,
                tooltip,
                context.0,
                context.1,
                axis[j],
                f,
            ),
    decreases axis.len(),
{
    if axis.len() > 0 {
        lemma_block_position(name, display_name, tooltip, context, axis.drop_last());
        let b = context_block_text(name, display_name, tooltip, context, axis);
        let prefix = context_block_text(name, display_name, tooltip, context, axis.drop_last());
        assert forall|j: int, f: bool| 0 <= j < axis.len() implies #[trigger] b[block_index(j, f)]
            == variant_text(name, display_name, tooltip, context.0, context.1, axis[j], f) by {
            if j < axis.len() - 1 {
                assert(axis.drop_last()[j] == axis[j]);
                assert(b[block_index(j, f)] == prefix[block_index(j, f)]);
            }
        }
    }
}

/// The grid position of each variant: the variant of context `i`, effort
/// point `j` and fast flag `f` stands at `grid_index(i, |axis|, j, f)`.
pub proof fn lemma_variant_position(
    name: Seq<char>,
    display_name: Seq<char>,
    tooltip: Option<Seq<char>>,
    contexts: Seq<(Seq<char>, Seq<char>)>,
    axis: Seq<Option<(Seq<char>, Seq<char>)>>,
)
    ensures
        variants_text(name, display_name, tooltip, contexts, axis).len() == contexts.len() * (2
            * axis.len()),
        forall|i: int, j: int, f: bool|
            0 <= i < contexts.len() && 0 <= j < axis.len() ==> #[trigger] variants_text(
                name,
                display_name,
                tooltip,
                contexts,
                axis,
            )[grid_index(i, axis.len() as int, j, f)] == variant_text(
                name,
                display_name,
                tooltip,
                contexts[i].0,
                contexts[i].1,
                axis[j],
                f,
            ),
    decreases contexts.len(),
{
    let a = axis.len() as int;
    let w = 2 * a;
    if contexts.len() > 0 {
        let n = contexts.len() as int;
        lemma_variant_position(name, display_name, tooltip, contexts.drop_last(), axis);
        lemma_block_position(name, display_name, tooltip, contexts.last(), axis);
        let v = variants_text(name, display_name, tooltip, contexts, axis);
        let prefix = variants_text(name, display_name, tooltip, contexts.drop_last(), axis);
        let block = context_block_text(name, display_name, tooltip, contexts.last(), axis);
        assert(prefix.len() == (n - 1) * w);
        assert((n - 1) * w + w == n * w) by (nonlinear_arith);
        assert forall|i: int, j: int, f: bool|
            0 <= i < contexts.len() && 0 <= j < axis.len() implies #[trigger] v[grid_index(
            i,
            a,
            j,
            f,
        )] == variant_text(
            name,
            display_name,
            tooltip,
            contexts[i].0,
            contexts[i].1,
            axis[j],
            f,
        ) by {
            let off = block_index(j, f);
            assert(0 <= off < w);
            if i < n - 1 {
                assert(i * w + off < (n - 1) * w) by (nonlinear_arith)
                    requires
                        0 <= i < n - 1,
                        0 <= off < w,
                ;
                assert(contexts.drop_last()[i] == contexts[i]);
                assert(v[grid_index(i, a, j, f)] == prefix[grid_index(i, a, j, f)]);
            } else {
                assert(i * w == (n - 1) * w);
                assert(v[grid_index(i, a, j, f)] == block[off]);
            }
        }
    }
}

/// The variant grid has one variant per context size, effort point and
/// fast flag.
pub proof fn law_variant_grid_size(
    name: Seq<char>,
    display_name: Seq<char>,
    tooltip: Option<Seq<char>>,
    contexts: Seq<(Seq<char>, Seq<char>)>,
    thinking: bool,
)
    ensures
        variants_text(name, display_name, tooltip, contexts, effort_axis_text(thinking)).len()
            == contexts.len() * (if thinking {
            10int
        } else {
            2int
        }),
{
    lemma_variant_position(name, display_name, tooltip, contexts, effort_axis_text(thinking));
}


/// The grid point that each variant comes from.
pub proof fn lemma_variant_origin(
    name: Seq<char>,
    display_name: Seq<char>,
    tooltip: Option<Seq<char>>,
    contexts: Seq<(Seq<char>, Seq<char>)>,
    axis: Seq<Option<(Seq<char>, Seq<char>)>>,
    k: int,
) -> (r: (int, int, bool))
    requires
        0 <= k < variants_text(name, display_name, tooltip, contexts, axis).len(),
    ensures
        0 <= r.0 < contexts.len(),
        0 <= r.1 < axis.len(),
        k == grid_index(r.0, axis.len() as int, r.1, r.2),
        variants_text(name, display_name, tooltip, contexts, axis)[k] == variant_text(
            name,
            display_name,
            tooltip,
            contexts[r.0].0,
            contexts[r.0].1,
            axis[r.1],
            r.2,
        ),
{
    lemma_variant_position(name, display_name, tooltip, contexts, axis);
    let n = contexts.len() as int;
    let a = axis.len() as int;
    let w = 2 * a;
    assert(w > 0) by (nonlinear_arith)
        requires
            0 <= k < n * (2 * a),
            w == 2 * a,
            a >= 0,
            n >= 0,
    ;
    let i = k / w;
    let rem = k % w;
    vstd::arithmetic::div_mod::lemma_fundamental_div_mod(k, w);
    assert(0 <= rem < w);
    assert(0 <= i < n) by (nonlinear_arith)
        requires
            k == w * i + rem,
            0 <= rem < w,
            0 <= k < n * w,
    ;
    let j = rem / 2;
    let f = rem % 2 == 1;
    assert(rem == block_index(j, f));
    assert(0 <= j < a);
    assert(k == i * w + rem) by (nonlinear_arith)
        requires
            k == w * i + rem,
    ;
    assert(k == grid_index(i, a, j, f));
    assert(variants_text(name, display_name, tooltip, contexts, axis)[grid_index(i, a, j, f)]
        == variant_text(name, display_name, tooltip, contexts[i].0, contexts[i].1, axis[j], f));
    (i, j, f)
}

/// Whether a parameter offers `value` among its choices.
pub open spec fn offers(def: ParameterDefinitionView, value: Seq<char>) -> bool {
    match def.parameter_type {
        Some(t) => {
            ||| t.enum_values matches Some(vs) && exists|m: int|
                0 <= m < vs.len() && #[trigger] vs[m].value == value
            ||| t.boolean_values matches Some(bs) && exists|m: int|
                0 <= m < bs.len() && #[trigger] bs[m].value == value
        },
        None => false,
    }
}

/// Whether a variant sets each parameter, in the parameters' order, to a
/// value that the parameter offers.
pub open spec fn selects_offered_values(defs: Seq<ParameterDefinitionView>, v: VariantView) -> bool {
    &&& v.parameter_values.len() == defs.len()
    &&& forall|m: int|
        0 <= m < defs.len() ==> #[trigger] v.parameter_values[m].0 == defs[m].id && offers(
            defs[m],
            v.parameter_values[m].1,
        )
}

/// Every variant of a model selects, for each of the model's parameters in
/// order, one of the values that parameter offers: the picker never shows a
/// variant that its own parameter controls cannot reach.
pub proof fn law_variants_select_offered_values(
    name: Seq<char>,
    display_name: Seq<char>,
    tooltip: Option<Seq<char>>,
    contexts: Seq<(Seq<char>, Seq<char>)>,
    thinking: bool,
    k: int,
)
    requires
        0 <= k < variants_text(name, display_name, tooltip, contexts, effort_axis_text(thinking)).len(),
    ensures
        selects_offered_values(
            parameters_text(contexts, thinking),
            variants_text(name, display_name, tooltip, contexts, effort_axis_text(thinking))[k],
        ),
{
    let axis = effort_axis_text(thinking);
    let (i, j, f) = lemma_variant_origin(name, display_name, tooltip, contexts, axis, k);
    let v = variant_text(name, display_name, tooltip, contexts[i].0, contexts[i].1, axis[j], f);
    let defs = parameters_text(contexts, thinking);
    let pv = v.parameter_values;
    let ctx_choices = enum_choices_text(contexts);
    assert(ctx_choices[i].value == contexts[i].0);
    assert(offers(defs[0], pv[0].1));
    let fast_def = fast_parameter_text();
    let bs = fast_def.parameter_type->0.boolean_values->0;
    if f {
        assert(bs[1].value == pv[pv.len() - 1].1);
    } else {
        assert(bs[0].value == pv[pv.len() - 1].1);
    }
    assert(offers(fast_def, pv[pv.len() - 1].1));
    if thinking {
        let effort_choices = enum_choices_text(efforts_text());
        assert(axis[j] == Some(efforts_text()[j]));
        assert(effort_choices[j].value == pv[1].1);
        assert(offers(defs[1], pv[1].1));
        assert(pv.len() == 3);
    } else {
        assert(pv.len() == 2);
    }
}


/// Whether a variant is marked as the model's default configuration.
pub open spec fn is_marked_default(v: VariantView) -> bool {
    v.is_default_non_max_config == Some(true)
}

/// Whether exactly one variant of `vs` is marked as the default.
pub open spec fn has_single_default(vs: Seq<VariantView>) -> bool {
    exists|k: int|
        0 <= k < vs.len() && is_marked_default(#[trigger] vs[k]) && forall|k2: int|
            0 <= k2 < vs.len() && is_marked_default(#[trigger] vs[k2]) ==> k2 == k
}

/// A thinking model whose context options list the default context size
/// first and only there has exactly one default variant: default context,
/// high effort, not fast.
pub proof fn lemma_single_default(
    name: Seq<char>,
    display_name: Seq<char>,
    tooltip: Option<Seq<char>>,
    contexts: Seq<(Seq<char>, Seq<char>)>,
)
    requires
        contexts.len() > 0,
        contexts[0].0 == default_context(),
        forall|i: int| 0 < i < contexts.len() ==> #[trigger] contexts[i].0 != default_context(),
    ensures
        has_single_default(variants_text(name, display_name, tooltip, contexts, effort_axis_text(true))),
{
    let axis = effort_axis_text(true);
    let vs = variants_text(name, display_name, tooltip, contexts, axis);
    lemma_variant_position(name, display_name, tooltip, contexts, axis);
    reveal_strlit("low");
    reveal_strlit("medium");
    reveal_strlit("high");
    reveal_strlit("xhigh");
    reveal_strlit("max");
    let k = grid_index(0, 5, 2, false);
    assert(k == 4);
    let n = contexts.len() as int;
    assert(n * (2 * 5) >= 10) by (nonlinear_arith)
        requires
            n >= 1,
    ;
    assert(0 <= k < vs.len());
    assert(vs[grid_index(0, 5, 2, false)] == variant_text(
        name,
        display_name,
        tooltip,
        contexts[0].0,
        contexts[0].1,
        axis[2],
        false,
    ));
    assert(is_marked_default(vs[k]));
    assert forall|k2: int| 0 <= k2 < vs.len() && is_marked_default(#[trigger] vs[k2]) implies k2 == k by {
        let (i, j, f) = lemma_variant_origin(name, display_name, tooltip, contexts, axis, k2);
        assert(is_default_variant(contexts[i].0, axis[j], f));
        assert(i == 0);
        assert(!f);
        assert(j == 2);
    }
}


/// A variant is the default configuration, for max mode and for non-max
/// mode alike, exactly when it has the default context size ("200k"), is not
/// fast, and has high effort or no effort axis; every other variant carries
/// no default marker at all.  A fast variant is never a default.
pub proof fn law_default_marks_only_the_default_point(
    name: Seq<char>,
    display_name: Seq<char>,
    tooltip: Option<Seq<char>>,
    context: Seq<char>,
    context_name: Seq<char>,
    effort: Option<(Seq<char>, Seq<char>)>,
    fast: bool,
)
    ensures
        ({
            let v = variant_text(name, display_name, tooltip, context, context_name, effort, fast);
            &&& v.is_default_max_config == v.is_default_non_max_config
            &&& (v.is_default_max_config == Some(true)) == (context == "200k"@ && !fast && match effort {
                None => true,
                Some(e) => e.0 == "high"@,
            })
            &&& (v.is_default_max_config is None || v.is_default_max_config == Some(true))
            &&& fast ==> v.is_default_max_config is None
        }),
{
}

} // verus!
