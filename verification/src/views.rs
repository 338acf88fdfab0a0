//! What the models of the values show: all of them, in order.

use proc_macro2::{Ident, TokenStream};
use vstd::prelude::*;

use crate::collection::{collection_kept, collection_plan_outcome, config_outcome, option_span};
use crate::collection::{CollectionPlan, CollectionPlanView, ConfigView};
use crate::collection::EnumFilterCollectionConfig;
use crate::enum_plan::{enum_kept, enum_plan_outcome, EnumPlan, EnumPlanView};
use crate::extract::extract_outcome;
use crate::ident::option_text;
use crate::meta::{entries_view, is_of_kind, literal_span, literal_text, meta_path_value};
use crate::meta::{meta_text_value, meta_value, rules_view, Arguments, Entry, KeyRule};
use crate::meta::{Value, ValueKind, ValueView};
use crate::names::{option_names, Names};
use crate::payload::{payload_view, payloads_view, types_view};
use crate::syntax::{error_messages, error_place, fields_list, fields_style, fields_view};
use crate::syntax::{path_key, path_tokens, points_to, type_view, variants_view, Body, BodyView};
use crate::syntax::{Field, Input, TypeView, Variant};
use crate::token::{ident_place, ident_span, ident_text, option_tokens, place_of, printed};
use crate::token::{stream_place, stream_tokens, Place};

verus! {

/// A type shows its tokens and what they print as; a stream shows where its tokens stand, where it
/// has any; an identifier stands at one place.
pub proof fn law_streams_show(stream: TokenStream, ident: Ident)
    ensures
        type_view(stream).tokens == stream_tokens(stream),
        type_view(stream).text == printed(stream),
        option_tokens(Some(stream)) == Some(stream_tokens(stream)),
        option_tokens(None::<TokenStream>) is None,
        stream_tokens(stream).len() > 0 ==> place_of(stream) == Some(stream_place(stream)),
        stream_tokens(stream).len() == 0 ==> place_of(stream) is None,
        ident_place(ident).first == ident_span(ident),
        ident_place(ident).last == ident_span(ident),
        option_text(Some(ident)) == Some(ident_text(ident)),
        option_text(None::<Ident>) is None,
        option_span(Some(ident)) == Some(ident_span(ident)),
        option_span(None::<Ident>) is None,
{
}

/// An error points to a place where it stands there.
pub proof fn law_errors_point(error: syn::Error, place: Place)
    ensures
        points_to(error, Some(place)) <==> error_place(error) == place,
        points_to(error, None),
{
}

/// A field shows its name and its type.
pub proof fn law_fields_show(field: Field, fields: syn::Fields)
    ensures
        field@.ident == option_text(field.ident),
        field@.ty == type_view(field.ty),
        fields_view(fields).style == fields_style(fields),
        fields_view(fields).fields == fields_list(fields),
{
}

/// A variant shows its attributes, its name, its fields, its tokens and where it stands.
pub proof fn law_variants_show(variant: Variant, variants: Seq<Variant>, i: int)
    requires
        0 <= i < variants.len(),
    ensures
        variant@.attributes == variant.attributes@,
        variant@.ident == ident_text(variant.ident),
        variant@.fields == fields_view(variant.fields),
        variant@.tokens == stream_tokens(variant.tokens),
        variant@.place == place_of(variant.tokens),
        variants_view(variants).len() == variants.len(),
        variants_view(variants)[i] == variants[i]@,
{
}

/// An item shows its attributes, its visibility, its name, its body, its tokens and where it
/// stands.
pub proof fn law_items_show(item: Input)
    ensures
        item@.attributes == item.attributes@,
        item@.visibility == stream_tokens(item.visibility),
        item@.ident == ident_text(item.ident),
        item@.ident_place == ident_place(item.ident),
        item@.tokens == stream_tokens(item.tokens),
        item@.place == place_of(item.tokens),
        item@.body == match item.body {
            Body::Struct(fields) => BodyView::Struct(fields_view(fields)),
            Body::Enum(variants) => BodyView::Enum(variants_view(variants@)),
            Body::Union => BodyView::Union,
        },
{
}

/// A plan for an enum shows its visibility, its names and all of its variants.
pub proof fn law_enum_plans_show(plan: EnumPlan, i: int)
    requires
        0 <= i < plan.variants.len(),
    ensures
        plan@.visibility == stream_tokens(plan.visibility),
        plan@.ident == ident_text(plan.ident),
        plan@.names == plan.names@,
        plan@.variants.len() == plan.variants.len(),
        plan@.variants[i].ident == ident_text(plan.variants[i].ident),
        plan@.variants[i].marker == ident_text(plan.variants[i].marker),
        plan@.variants[i].style == plan.variants[i].style,
        plan@.variants[i].displays_variant == plan.variants[i].displays_variant,
        plan@.variants[i].payload == payload_view(plan.variants[i].payload),
{
}

/// Names show each of them.
pub proof fn law_names_show(names: Names)
    ensures
        names@.plugin == ident_text(names.plugin),
        names@.register_hooks == ident_text(names.register_hooks),
        names@.hook_sync == ident_text(names.hook_sync),
        names@.hook_cleanup == ident_text(names.hook_cleanup),
        names@.sync == ident_text(names.sync),
        names@.cleanup == ident_text(names.cleanup),
        option_names(Some(names)) == Some(names@),
        option_names(None::<Names>) is None,
{
}

/// Payload types show each of them, in order.
pub proof fn law_payloads_show(
    payloads: Seq<Option<TokenStream>>,
    types: Seq<TokenStream>,
    ty: TokenStream,
)
    ensures
        payload_view(Some(ty)) == Some(type_view(ty)),
        payload_view(None::<TokenStream>) is None,
        payloads_view(payloads).len() == payloads.len(),
        forall|i: int|
            0 <= i < payloads.len() ==> #[trigger] payloads_view(payloads)[i] == payload_view(
                payloads[i],
            ),
        types_view(types).len() == types.len(),
        forall|i: int|
            0 <= i < types.len() ==> #[trigger] types_view(types)[i] == type_view(types[i]),
{
}

/// An argument shows its key and its value, a list of them each in order.
pub proof fn law_entries_show(entry: Entry, entries: Seq<Entry>)
    ensures
        entry@.key == path_key(entry.key),
        entry@.value == match entry.value {
            Value::Absent => ValueView::Absent,
            Value::Path(path) => ValueView::Path(path_tokens(path)),
            Value::Text(literal) => ValueView::Text(literal_text(literal), literal_span(literal)),
        },
        entries_view(entries).len() == entries.len(),
        forall|i: int|
            0 <= i < entries.len() ==> #[trigger] entries_view(entries)[i] == entries[i]@,
{
}

/// Arguments show the list of them, the key that no rule names and the error that ended the
/// reading.
pub proof fn law_arguments_show(arguments: Arguments)
    ensures
        arguments@.entries == entries_view(arguments.entries@),
        arguments@.unsupported == match arguments.unsupported {
            Some(key) => Some(path_key(key)),
            None => None,
        },
        arguments.failure matches Some(error) ==> arguments@.failure == Some(error_messages(error))
            && arguments@.failure_place == Some(error_place(error)),
        arguments.failure is None ==> arguments@.failure is None
            && arguments@.failure_place is None,
{
}

/// Rules show their key and their kind, in order.
pub proof fn law_rules_show(rules: Seq<KeyRule>)
    ensures
        rules_view(rules).len() == rules.len(),
        forall|i: int|
            0 <= i < rules.len() ==> #[trigger] rules_view(rules)[i] == (rules[i].key@, rules[i].kind),
{
}

/// A value is of the kind that names it, and what follows a key is read as its rule says.
pub proof fn law_values_are_read_by_kind(
    meta: syn::meta::ParseNestedMeta,
    value: ValueView,
    kind: ValueKind,
)
    ensures
        is_of_kind(value, kind) <==> match kind {
            ValueKind::Absent => value is Absent,
            ValueKind::Path => value is Path,
            ValueKind::Text => value is Text,
        },
        meta_value(meta, kind) == match kind {
            ValueKind::Absent => Ok(ValueView::Absent),
            ValueKind::Path => match meta_path_value(meta) {
                Ok(path) => Ok(ValueView::Path(path)),
                Err(messages) => Err(messages),
            },
            ValueKind::Text => match meta_text_value(meta) {
                Ok(text) => Ok(ValueView::Text(text.0, text.1)),
                Err(messages) => Err(messages),
            },
        },
{
}

/// A configuration shows its enum, and its fields with where they stand.
pub proof fn law_configurations_show(config: EnumFilterCollectionConfig, plan: CollectionPlan)
    ensures
        config@.enum_path == path_tokens(config.enum_path),
        config@.iter_field == ident_text(config.iter_field),
        config@.iter_span == ident_span(config.iter_field),
        config@.map_field == option_text(config.map_field),
        config@.map_span == option_span(config.map_field),
        plan@.visibility == stream_tokens(plan.visibility),
        plan@.ident == ident_text(plan.ident),
        plan@.names == plan.names@,
        plan@.config == plan.config@,
{
}

/// What a function returns shows as a value, as the messages of an error, or as nothing.
pub proof fn law_outcomes_show(
    ty: TokenStream,
    plan: EnumPlan,
    config: EnumFilterCollectionConfig,
    collection: CollectionPlan,
    error: syn::Error,
)
    ensures
        extract_outcome(Ok(Some(ty))) == Ok::<_, Seq<Seq<char>>>(Some(type_view(ty))),
        extract_outcome(Ok(None)) == Ok::<Option<TypeView>, Seq<Seq<char>>>(None),
        extract_outcome(Err(error)) == Err::<Option<TypeView>, _>(
            error_messages(error),
        ),
        enum_plan_outcome(Some(Ok(plan))) == Some(Ok::<_, Seq<Seq<char>>>(plan@)),
        enum_plan_outcome(Some(Err(error))) == Some(
            Err::<EnumPlanView, _>(error_messages(error)),
        ),
        enum_plan_outcome(None) is None,
        config_outcome(Some(Ok(config))) == Some(Ok::<_, Seq<Seq<char>>>(config@)),
        config_outcome(Some(Err(error))) == Some(
            Err::<ConfigView, _>(error_messages(error)),
        ),
        config_outcome(None) is None,
        collection_plan_outcome(Some(Ok(collection))) == Some(Ok::<_, Seq<Seq<char>>>(collection@)),
        collection_plan_outcome(Some(Err(error))) == Some(
            Err::<CollectionPlanView, _>(error_messages(error)),
        ),
        collection_plan_outcome(None) is None,
{
}

/// A plan keeps what it is a plan of: the visibility and the names as they are, every variant
/// at its
/// place, and the names that are made of the type's at the place of that.
pub proof fn law_plans_keep_the_item(
    item: Input,
    variants: Vec<Variant>,
    plan: EnumPlan,
    collection: CollectionPlan,
)
    requires
        item.body == Body::Enum(variants),
    ensures
        enum_kept(item, plan) <==> {
            &&& plan.visibility == item.visibility
            &&& plan.ident == item.ident
            &&& ident_span(plan.names.plugin) == ident_span(item.ident)
            &&& plan.variants.len() == variants.len()
            &&& forall|i: int|
                0 <= i < variants.len() ==> (#[trigger] plan.variants@[i]).ident
                    == variants[i].ident && ident_span(plan.variants[i].marker) == ident_span(
                    item.ident,
                )
        },
        collection_kept(item, collection) <==> {
            &&& collection.visibility == item.visibility
            &&& collection.ident == item.ident
            &&& ident_span(collection.names.plugin) == ident_span(item.ident)
        },
{
}

} // verus!
