//! What the derives accept, what they refuse and with which messages, and what they read.

use proc_macro2::TokenStream;
use vstd::prelude::*;

use crate::collection::{arguments_place, body_refusal, collection_gives, collection_made_for};
use crate::collection::{collection_output, collection_plan, collection_planned, config};
use crate::collection::{config_from, config_place, field_text, field_unmade, fields_made};
use crate::collection::{first_attribute, item_arguments, item_fields_made, last_made, last_path};
use crate::collection::{last_span, last_text, CollectionNames, CollectionPlanView, ConfigView};
use crate::collection::{collection_plan_place, collection_rules, collection_tokens};
use crate::enum_filter::{enum_filter_gives, enum_filter_output, enum_filter_tokens};
use crate::enum_plan::{enum_plan, enum_plan_place, enum_planned, first_refused_place, made_for};
use crate::enum_plan::{lemma_decided_early, variant_plans, EnumPlanView, MadeNames};
use crate::enum_plan::VariantPlanView;
use crate::extract::{extract_place, extract_type, lemma_refused_early, opt_in_place, opts_in};
use crate::ident::{made_from, unraw};
use crate::meta::{meta_key, meta_value, nested_arguments, read_one, rule_for};
use crate::meta::{ArgumentsView, EntryView, ValueKind};
use crate::names::{names_for, names_made, NamesView};
use crate::syntax::{attribute_path, compile_errors, has_attribute, is_word_path, parsed_input};
use crate::syntax::{BodyView, FieldsStyle, InputView, TypeView, VariantView};
use crate::token::{Place, Token};

verus! {

/// A path is the one word given where that identifier is all there is of it.
pub proof fn law_word_path(path: Seq<Token>, word: Seq<char>)
    ensures
        is_word_path(path, word) <==> path.len() == 1 && path[0] == Token::Ident(word),
{
    if path.len() == 1 && path[0] == Token::Ident(word) {
        assert(path =~= seq![Token::Ident(word)]);
    }
}

/// Attributes have a name where one of them, at any place, has it as its path.
pub proof fn law_attribute_is_looked_for_everywhere(attributes: Seq<syn::Attribute>, word: Seq<char>)
    ensures
        has_attribute(attributes, word) <==> exists|i: int|
            0 <= i < attributes.len() && attribute_path(#[trigger] attributes[i]) == seq![
                Token::Ident(word),
            ],
{
}

/// What is read of an `#[enum_filter(...)]`, for which `extract` is the one key, without a value.
pub open spec fn extract_arguments(attribute: syn::Attribute) -> ArgumentsView {
    nested_arguments(
        attribute,
        seq![("extract"@, ValueKind::Absent)],
        "unsupported enum_filter attribute key, expected `extract`"@,
    )
}

/// Whether an attribute is an `#[enum_filter(...)]`.
pub open spec fn is_enum_filter(attribute: syn::Attribute) -> bool {
    attribute_path(attribute) == seq![Token::Ident("enum_filter"@)]
}

/// Whether an attribute is an `#[enum_filter(...)]` that is refused.
pub open spec fn is_refused(attribute: syn::Attribute) -> bool {
    is_enum_filter(attribute) && (extract_arguments(attribute).unsupported is Some
        || extract_arguments(attribute).failure is Some)
}

/// Whether an attribute is an `#[enum_filter(...)]` that names `extract`.
pub open spec fn asks_for_extraction(attribute: syn::Attribute) -> bool {
    is_enum_filter(attribute) && exists|k: int|
        0 <= k < extract_arguments(attribute).entries.len() && (#[trigger] extract_arguments(
            attribute,
        ).entries[k]).key == seq![Token::Ident("extract"@)]
}

/// Where no attribute is refused, a variant opts into extraction exactly where one of its
/// attributes, at any place, is an `#[enum_filter(...)]` that names `extract`.
pub proof fn law_any_attribute_opts_in(attributes: Seq<syn::Attribute>)
    requires
        forall|i: int| 0 <= i < attributes.len() ==> !is_refused(#[trigger] attributes[i]),
    ensures
        opts_in(attributes) == Ok::<bool, Seq<Seq<char>>>(
            exists|i: int|
                0 <= i < attributes.len() && asks_for_extraction(#[trigger] attributes[i]),
        ),
    decreases attributes.len(),
{
    if attributes.len() > 0 {
        let shorter = attributes.drop_last();
        let last = attributes[attributes.len() - 1];
        assert forall|i: int| 0 <= i < shorter.len() implies !is_refused(#[trigger] shorter[i]) by {
            assert(shorter[i] == attributes[i]);
        }
        law_any_attribute_opts_in(shorter);
        assert(!is_refused(last));
        let before = exists|i: int|
            0 <= i < shorter.len() && asks_for_extraction(#[trigger] shorter[i]);
        let now = exists|i: int|
            0 <= i < attributes.len() && asks_for_extraction(#[trigger] attributes[i]);
        assert(now == (before || asks_for_extraction(last))) by {
            if before {
                let i = choose|i: int|
                    0 <= i < shorter.len() && asks_for_extraction(#[trigger] shorter[i]);
                assert(asks_for_extraction(attributes[i]));
            }
            if now && !asks_for_extraction(last) {
                let i = choose|i: int|
                    0 <= i < attributes.len() && asks_for_extraction(#[trigger] attributes[i]);
                assert(asks_for_extraction(shorter[i]));
            }
        }
    }
}

/// A variant is refused with what the first of its attributes that is refused is refused with: the
/// message on keys where there is another key than `extract`, else those of the syntax error; and
/// the error points to what is wrong there.
pub proof fn law_first_refused_attribute_decides(attributes: Seq<syn::Attribute>, i: int)
    requires
        0 <= i < attributes.len(),
        forall|j: int| 0 <= j < i ==> !is_refused(#[trigger] attributes[j]),
        is_refused(attributes[i]),
    ensures
        opts_in(attributes) == Err::<bool, Seq<Seq<char>>>(
            if extract_arguments(attributes[i]).unsupported is Some {
                seq!["unsupported enum_filter attribute key, expected `extract`"@]
            } else {
                extract_arguments(attributes[i]).failure->0
            },
        ),
        opt_in_place(attributes) == extract_arguments(attributes[i]).failure_place,
{
    let upto = attributes.take(i + 1);
    assert(upto.drop_last() =~= attributes.take(i));
    assert(upto.last() == attributes[i]);
    assert forall|j: int| 0 <= j < i implies !is_refused(#[trigger] attributes.take(i)[j]) by {
        assert(attributes.take(i)[j] == attributes[j]);
    }
    law_any_attribute_opts_in(attributes.take(i));
    lemma_refused_early(attributes, i);
}

/// What comes of a variant that is not refused for its attributes: where it opts in, the type
/// of its
/// one field is extracted, or it is refused as having none or more than one; else nothing is
/// extracted.
pub proof fn law_what_is_extracted(variant: VariantView)
    requires
        forall|i: int|
            0 <= i < variant.attributes.len() ==> !is_refused(#[trigger] variant.attributes[i]),
    ensures
        extract_type(variant) == if exists|i: int|
            0 <= i < variant.attributes.len() && asks_for_extraction(
                #[trigger] variant.attributes[i],
            ) {
            if variant.fields.style == FieldsStyle::Unnamed && variant.fields.fields.len() == 1 {
                Ok(Some(variant.fields.fields[0].ty))
            } else {
                Err(
                    seq!["#[enum_filter(extract)] requires a tuple variant with exactly one field"@],
                )
            }
        } else {
            Ok::<Option<TypeView>, Seq<Seq<char>>>(None)
        },
        extract_place(variant) == variant.place,
{
    law_any_attribute_opts_in(variant.attributes);
}

/// A variant with a refused attribute is refused with what that is refused with.
pub proof fn law_refused_attribute_refuses_the_variant(variant: VariantView, i: int)
    requires
        0 <= i < variant.attributes.len(),
        forall|j: int| 0 <= j < i ==> !is_refused(#[trigger] variant.attributes[j]),
        is_refused(variant.attributes[i]),
    ensures
        extract_type(variant) == Err::<Option<TypeView>, Seq<Seq<char>>>(
            if extract_arguments(variant.attributes[i]).unsupported is Some {
                seq!["unsupported enum_filter attribute key, expected `extract`"@]
            } else {
                extract_arguments(variant.attributes[i]).failure->0
            },
        ),
        extract_place(variant) == extract_arguments(variant.attributes[i]).failure_place,
{
    law_first_refused_attribute_decides(variant.attributes, i);
}

/// The first rule that names a key is the one that counts.
pub proof fn law_first_rule_counts(
    rules: Seq<(Seq<char>, ValueKind)>,
    key: Seq<Token>,
    i: int,
)
    requires
        0 <= i < rules.len(),
        key == seq![Token::Ident(rules[i].0)],
        forall|j: int| 0 <= j < i ==> key != seq![Token::Ident((#[trigger] rules[j]).0)],
    ensures
        rule_for(rules, key) == Some(rules[i].1),
    decreases i,
{
    if i > 0 {
        let rest = rules.skip(1);
        assert(key != seq![Token::Ident(rules[0].0)]);
        assert(rest[i - 1] == rules[i]);
        assert forall|j: int| 0 <= j < i - 1 implies key != seq![
            Token::Ident((#[trigger] rest[j]).0),
        ] by {
            assert(rest[j] == rules[j + 1]);
        }
        law_first_rule_counts(rest, key, i - 1);
    }
}

/// A key that no rule names has none.
pub proof fn law_other_keys_have_no_rule(rules: Seq<(Seq<char>, ValueKind)>, key: Seq<Token>)
    requires
        forall|j: int| 0 <= j < rules.len() ==> key != seq![Token::Ident((#[trigger] rules[j]).0)],
    ensures
        rule_for(rules, key) is None,
    decreases rules.len(),
{
    if rules.len() > 0 {
        let rest = rules.skip(1);
        assert(key != seq![Token::Ident(rules[0].0)]);
        assert forall|j: int| 0 <= j < rest.len() implies key != seq![
            Token::Ident((#[trigger] rest[j]).0),
        ] by {
            assert(rest[j] == rules[j + 1]);
        }
        law_other_keys_have_no_rule(rest, key);
    }
}

/// An argument is accepted where a rule names its key and what follows the key can be read as the
/// first such rule says; it then joins those before it, and nothing else changes. Where what
/// follows
/// cannot be read, it is refused with the errors of that; where no rule names its key, with the
/// given message, and the key is kept. No argument before it is lost either way.
pub proof fn law_an_argument_is_read(
    rules: Seq<(Seq<char>, ValueKind)>,
    message: Seq<char>,
    entries: Seq<EntryView>,
    unsupported: Option<Seq<Token>>,
    meta: syn::meta::ParseNestedMeta,
)
    ensures
        ({
            let read = read_one(rules, message, entries, unsupported, meta);
            let named = rule_for(rules, meta_key(meta));
            let value = meta_value(meta, named->0);
            &&& entries.is_prefix_of(read.entries)
            &&& read.refusal is None <==> named is Some && value is Ok
            &&& read.refusal is None ==> read.entries.len() == entries.len() + 1
                && read.entries.last() == (EntryView { key: meta_key(meta), value: value->Ok_0 })
            &&& read.refusal is Some ==> read.entries == entries
            &&& named is Some && value is Err ==> read.refusal == Some(value->Err_0)
            &&& named is None ==> read.refusal == Some(seq![message])
            &&& read.unsupported == if named is None {
                Some(meta_key(meta))
            } else {
                unsupported
            }
        }),
{
}

/// The plan for an enum whose variants are all accepted and whose names could all be made: it keeps
/// the visibility and the name, and has for every variant, in order, its name, the marker that was
/// made for it, the style of its fields, its payload, and whether it is a unit variant with a
/// `#[strum(...)]` on it or on the enum.
pub open spec fn whole_plan(
    item: InputView,
    variants: Seq<VariantView>,
    markers: Seq<Option<Seq<char>>>,
    names: NamesView,
) -> EnumPlanView {
    EnumPlanView {
        visibility: item.visibility,
        ident: item.ident,
        names,
        variants: Seq::new(
            variants.len(),
            |i: int|
                VariantPlanView {
                    ident: variants[i].ident,
                    marker: markers[i]->0,
                    style: variants[i].fields.style,
                    displays_variant: variants[i].fields.style == FieldsStyle::Unit && (
                    has_attribute(item.attributes, "strum"@) || has_attribute(
                        variants[i].attributes,
                        "strum"@,
                    )),
                    payload: extract_type(variants[i])->Ok_0,
                },
        ),
    }
}

/// Variants that are accepted and whose markers were made are planned one by one.
proof fn lemma_all_planned(
    item: InputView,
    variants: Seq<VariantView>,
    markers: Seq<Option<Seq<char>>>,
    names: NamesView,
)
    requires
        markers.len() == variants.len(),
        forall|i: int| 0 <= i < variants.len() ==> extract_type(#[trigger] variants[i]) is Ok,
        forall|i: int| 0 <= i < markers.len() ==> (#[trigger] markers[i]) is Some,
    ensures
        variant_plans(item, variants, markers) == Some(
            Ok::<Seq<VariantPlanView>, Seq<Seq<char>>>(
                whole_plan(item, variants, markers, names).variants,
            ),
        ),
    decreases variants.len(),
{
    let whole = whole_plan(item, variants, markers, names).variants;
    if variants.len() == 0 {
        assert(whole =~= Seq::empty());
    } else {
        let shorter = variants.drop_last();
        let fewer = markers.drop_last();
        assert forall|i: int| 0 <= i < shorter.len() implies extract_type(
            #[trigger] shorter[i],
        ) is Ok by {
            assert(shorter[i] == variants[i]);
        }
        assert forall|i: int| 0 <= i < fewer.len() implies (#[trigger] fewer[i]) is Some by {
            assert(fewer[i] == markers[i]);
        }
        lemma_all_planned(item, shorter, fewer, names);
        let before = whole_plan(item, shorter, fewer, names).variants;
        assert(extract_type(variants[variants.len() - 1]) is Ok);
        assert(markers[markers.len() - 1] is Some);
        assert forall|i: int| 0 <= i < before.len() implies before[i] == whole[i] by {
            assert(shorter[i] == variants[i]);
            assert(fewer[i] == markers[i]);
        }
        assert(whole =~= before.push(whole.last()));
    }
}

/// An enum whose variants are all accepted and whose names could all be made is planned whole.
pub proof fn law_accepted_enum_is_planned(
    item: InputView,
    variants: Seq<VariantView>,
    made: MadeNames,
)
    requires
        item.body == BodyView::Enum(variants),
        made.markers.len() == variants.len(),
        forall|i: int| 0 <= i < variants.len() ==> extract_type(#[trigger] variants[i]) is Ok,
        forall|i: int| 0 <= i < made.markers.len() ==> (#[trigger] made.markers[i]) is Some,
        made.names is Some,
    ensures
        enum_plan(item, made) == Some(
            Ok::<EnumPlanView, Seq<Seq<char>>>(
                whole_plan(item, variants, made.markers, made.names->0),
            ),
        ),
{
    lemma_all_planned(item, variants, made.markers, made.names->0);
}

/// An enum is refused with what its first refused variant is refused with, where the markers of the
/// variants before it could be made; and the error points where that of the variant does.
pub proof fn law_first_refused_variant_refuses_the_enum(
    item: InputView,
    variants: Seq<VariantView>,
    made: MadeNames,
    i: int,
)
    requires
        item.body == BodyView::Enum(variants),
        made.markers.len() == variants.len(),
        0 <= i < variants.len(),
        forall|j: int| 0 <= j < i ==> extract_type(#[trigger] variants[j]) is Ok,
        forall|j: int| 0 <= j < i ==> (#[trigger] made.markers[j]) is Some,
        extract_type(variants[i]) is Err,
    ensures
        enum_plan(item, made) == Some(
            Err::<EnumPlanView, Seq<Seq<char>>>(extract_type(variants[i])->Err_0),
        ),
        enum_plan_place(item) == extract_place(variants[i]),
{
    lemma_planned_before(item, variants, made.markers, i);
    assert(variants.take(i + 1).drop_last() =~= variants.take(i));
    assert(variants.take(i + 1).last() == variants[i]);
    assert(made.markers.take(i + 1).drop_last() =~= made.markers.take(i));
    lemma_decided_early(item, variants, made.markers, i);
    lemma_first_refused_place(variants, i);
}

/// The variants before one are planned where they are accepted and have their markers.
proof fn lemma_planned_before(
    item: InputView,
    variants: Seq<VariantView>,
    markers: Seq<Option<Seq<char>>>,
    i: int,
)
    requires
        markers.len() == variants.len(),
        0 <= i <= variants.len(),
        forall|j: int| 0 <= j < i ==> extract_type(#[trigger] variants[j]) is Ok,
        forall|j: int| 0 <= j < i ==> (#[trigger] markers[j]) is Some,
    ensures
        variant_plans(item, variants.take(i), markers.take(i)) is Some,
        variant_plans(item, variants.take(i), markers.take(i))->0 is Ok,
{
    assert forall|j: int| 0 <= j < i implies extract_type(
        #[trigger] variants.take(i)[j],
    ) is Ok by {
        assert(variants.take(i)[j] == variants[j]);
    }
    assert forall|j: int| 0 <= j < i implies (#[trigger] markers.take(i)[j]) is Some by {
        assert(markers.take(i)[j] == markers[j]);
    }
    lemma_all_planned(
        item,
        variants.take(i),
        markers.take(i),
        names_for(Seq::empty(), Seq::empty()),
    );
}

/// The refusal points where that of the first refused variant does.
proof fn lemma_first_refused_place(variants: Seq<VariantView>, i: int)
    requires
        0 <= i < variants.len(),
        forall|j: int| 0 <= j < i ==> extract_type(#[trigger] variants[j]) is Ok,
        extract_type(variants[i]) is Err,
    ensures
        first_refused_place(variants) == extract_place(variants[i]),
    decreases i,
{
    if i > 0 {
        let rest = variants.skip(1);
        assert(extract_type(variants[0]) is Ok);
        assert(rest[i - 1] == variants[i]);
        assert forall|j: int| 0 <= j < i - 1 implies extract_type(#[trigger] rest[j]) is Ok by {
            assert(rest[j] == variants[j + 1]);
        }
        lemma_first_refused_place(rest, i - 1);
    }
}

/// Nothing can be given for an enum with a variant whose marker could not be made, where it and the
/// variants before it are accepted.
pub proof fn law_unmade_marker_gives_nothing(
    item: InputView,
    variants: Seq<VariantView>,
    made: MadeNames,
    i: int,
)
    requires
        item.body == BodyView::Enum(variants),
        made.markers.len() == variants.len(),
        0 <= i < variants.len(),
        forall|j: int| 0 <= j <= i ==> extract_type(#[trigger] variants[j]) is Ok,
        forall|j: int| 0 <= j < i ==> (#[trigger] made.markers[j]) is Some,
        made.markers[i] is None,
    ensures
        enum_plan(item, made) is None,
{
    lemma_planned_before(item, variants, made.markers, i);
    assert(variants.take(i + 1).drop_last() =~= variants.take(i));
    assert(variants.take(i + 1).last() == variants[i]);
    assert(made.markers.take(i + 1).drop_last() =~= made.markers.take(i));
    assert(extract_type(variants[i]) is Ok);
    lemma_decided_early(item, variants, made.markers, i);
}

/// Nothing can be given for an accepted enum whose own names could not be made.
pub proof fn law_unmade_names_give_nothing(
    item: InputView,
    variants: Seq<VariantView>,
    made: MadeNames,
)
    requires
        item.body == BodyView::Enum(variants),
        made.markers.len() == variants.len(),
        forall|i: int| 0 <= i < variants.len() ==> extract_type(#[trigger] variants[i]) is Ok,
        forall|i: int| 0 <= i < made.markers.len() ==> (#[trigger] made.markers[i]) is Some,
        made.names is None,
    ensures
        enum_plan(item, made) is None,
{
    lemma_all_planned(
        item,
        variants,
        made.markers,
        names_for(Seq::empty(), Seq::empty()),
    );
}

/// What is no enum is refused, at its name.
pub proof fn law_only_enums(item: InputView, made: MadeNames)
    requires
        !(item.body is Enum),
    ensures
        enum_plan(item, made) == Some(
            Err::<EnumPlanView, Seq<Seq<char>>>(seq!["EnumFilter can only be derived for enums"@]),
        ),
        enum_plan_place(item) == Some(item.ident_place),
{
}

/// The names for an enum are made of its name and those of its variants: a marker of each variant
/// from both names without a raw prefix, and the plugin and the helper functions from the enum's.
pub proof fn law_names_are_made_for_the_enum(
    item: InputView,
    variants: Seq<VariantView>,
    made: MadeNames,
)
    requires
        item.body == BodyView::Enum(variants),
    ensures
        made_for(item, made) <==> {
            &&& made.markers.len() == variants.len()
            &&& forall|i: int|
                0 <= i < variants.len() ==> made_from(
                    #[trigger] made.markers[i],
                    unraw(item.ident) + unraw(variants[i].ident),
                )
            &&& names_made(made.names, names_for("__bevy_enum_filter_"@, item.ident))
        },
{
}

/// What the derive for enums can give: the errors for what spells no item; otherwise what comes of
/// the plan for some way in which the making of the names can go, which is its code, the errors
/// that it is refused with, or nothing.
pub proof fn law_what_the_enum_derive_gives(stream: TokenStream, output: Option<Seq<Token>>)
    ensures
        enum_filter_gives(stream, output) <==> match parsed_input(stream) {
            Err(messages) => output == Some(compile_errors(messages)),
            Ok(item) => exists|made: MadeNames| #[trigger]
                made_for(item, made) && match enum_plan(item, made) {
                    Some(Ok(plan)) => output == Some(enum_filter_tokens(plan)),
                    Some(Err(messages)) => output == Some(compile_errors(messages)),
                    None => output is None,
                },
        },
{
    if let Ok(item) = parsed_input(stream) {
        if enum_filter_gives(stream, output) {
            let made = choose|made: MadeNames| #[trigger]
                made_for(item, made) && output == enum_filter_output(item, made);
            assert(made_for(item, made));
        }
        let given = exists|made: MadeNames| #[trigger]
            made_for(item, made) && match enum_plan(item, made) {
                Some(Ok(plan)) => output == Some(enum_filter_tokens(plan)),
                Some(Err(messages)) => output == Some(compile_errors(messages)),
                None => output is None,
            };
        if given {
            let made = choose|made: MadeNames| #[trigger]
                made_for(item, made) && match enum_plan(item, made) {
                    Some(Ok(plan)) => output == Some(enum_filter_tokens(plan)),
                    Some(Err(messages)) => output == Some(compile_errors(messages)),
                    None => output is None,
                };
            assert(output == enum_filter_output(item, made));
        }
    }
}

/// What can come of planning an item is what comes of some way in which the making of the names can
/// go.
pub proof fn law_what_is_planned(
    item: InputView,
    outcome: Option<Result<EnumPlanView, Seq<Seq<char>>>>,
)
    ensures
        enum_planned(item, outcome) <==> exists|made: MadeNames| #[trigger]
            made_for(item, made) && outcome == enum_plan(item, made),
{
}

/// The attribute that is read is the first that has the name, wherever it stands.
pub proof fn law_first_attribute_is_read(attributes: Seq<syn::Attribute>, word: Seq<char>, i: int)
    requires
        0 <= i < attributes.len(),
        attribute_path(attributes[i]) == seq![Token::Ident(word)],
        forall|j: int|
            0 <= j < i ==> attribute_path(#[trigger] attributes[j]) != seq![Token::Ident(word)],
    ensures
        first_attribute(attributes, word) == Some(attributes[i]),
    decreases i,
{
    if i > 0 {
        let rest = attributes.skip(1);
        assert(attribute_path(attributes[0]) != seq![Token::Ident(word)]);
        assert(rest[i - 1] == attributes[i]);
        assert forall|j: int| 0 <= j < i - 1 implies attribute_path(#[trigger] rest[j]) != seq![
            Token::Ident(word),
        ] by {
            assert(rest[j] == attributes[j + 1]);
        }
        law_first_attribute_is_read(rest, word, i - 1);
    }
}

/// No attribute is read where none has the name.
pub proof fn law_no_attribute_is_read(attributes: Seq<syn::Attribute>, word: Seq<char>)
    requires
        forall|j: int|
            0 <= j < attributes.len() ==> attribute_path(#[trigger] attributes[j]) != seq![
                Token::Ident(word),
            ],
    ensures
        first_attribute(attributes, word) is None,
    decreases attributes.len(),
{
    if attributes.len() > 0 {
        let rest = attributes.skip(1);
        assert(attribute_path(attributes[0]) != seq![Token::Ident(word)]);
        assert forall|j: int| 0 <= j < rest.len() implies attribute_path(#[trigger] rest[j])
            != seq![Token::Ident(word)] by {
            assert(rest[j] == attributes[j + 1]);
        }
        law_no_attribute_is_read(rest, word);
    }
}

/// Whether an attribute is at a place, has the name, and none before it has.
pub open spec fn is_first_of_name(
    attributes: Seq<syn::Attribute>,
    word: Seq<char>,
    i: int,
    attribute: syn::Attribute,
) -> bool {
    &&& 0 <= i < attributes.len()
    &&& attributes[i] == attribute
    &&& attribute_path(attribute) == seq![Token::Ident(word)]
    &&& forall|j: int|
        0 <= j < i ==> attribute_path(#[trigger] attributes[j]) != seq![Token::Ident(word)]
}

/// There is an attribute to read exactly where one has the name, at any place, and it is then the
/// one at the least such place.
pub proof fn law_attribute_is_found_anywhere(attributes: Seq<syn::Attribute>, word: Seq<char>)
    ensures
        first_attribute(attributes, word) is Some <==> exists|j: int|
            0 <= j < attributes.len() && attribute_path(#[trigger] attributes[j]) == seq![
                Token::Ident(word),
            ],
        first_attribute(attributes, word) is Some ==> exists|i: int| #[trigger]
            is_first_of_name(attributes, word, i, first_attribute(attributes, word)->0),
    decreases attributes.len(),
{
    if attributes.len() > 0 {
        let rest = attributes.skip(1);
        law_attribute_is_found_anywhere(rest, word);
        if attribute_path(attributes[0]) == seq![Token::Ident(word)] {
            let first = 0int;
            assert(first_attribute(attributes, word) == Some(attributes[first]));
            assert(is_first_of_name(
                attributes,
                word,
                first,
                first_attribute(attributes, word)->0,
            ));
        } else {
            assert(!is_word_path(attribute_path(attributes[0]), word));
            assert(first_attribute(attributes, word) == first_attribute(rest, word));
            if let Some(attribute) = first_attribute(rest, word) {
                let i = choose|i: int| #[trigger] is_first_of_name(rest, word, i, attribute);
                assert(attributes[i + 1] == rest[i]);
                assert forall|j: int| 0 <= j < i + 1 implies attribute_path(
                    #[trigger] attributes[j],
                ) != seq![Token::Ident(word)] by {
                    if j > 0 {
                        assert(attributes[j] == rest[j - 1]);
                    }
                }
                assert(is_first_of_name(attributes, word, i + 1, attribute));
            } else {
                assert forall|j: int| 0 <= j < attributes.len() implies attribute_path(
                    #[trigger] attributes[j],
                ) != seq![Token::Ident(word)] by {
                    if j > 0 {
                        assert(attributes[j] == rest[j - 1]);
                    }
                }
            }
        }
    }
}

/// What is read of an `#[enum_filter_collection(...)]`, for which `enum` takes a path, and `iter`
/// and `map` take a text.
pub open spec fn collection_arguments(attribute: syn::Attribute) -> ArgumentsView {
    nested_arguments(
        attribute,
        seq![
            ("enum"@, ValueKind::Path),
            ("iter"@, ValueKind::Text),
            ("map"@, ValueKind::Text),
        ],
        "unsupported enum_filter_collection attribute key"@,
    )
}

/// The arguments of a struct are those of the first `#[enum_filter_collection(...)]` on it,
/// wherever
/// it stands; where there is another key than the three, the message on keys is what ended the
/// reading.
pub proof fn law_arguments_are_those_of_the_attribute(item: InputView, i: int)
    requires
        0 <= i < item.attributes.len(),
        attribute_path(item.attributes[i]) == seq![Token::Ident("enum_filter_collection"@)],
        forall|j: int|
            0 <= j < i ==> attribute_path(#[trigger] item.attributes[j]) != seq![
                Token::Ident("enum_filter_collection"@),
            ],
    ensures
        item_arguments(item) matches Some(arguments) && {
            let read = collection_arguments(item.attributes[i]);
            &&& arguments.entries == read.entries
            &&& arguments.unsupported == read.unsupported
            &&& arguments.failure == if read.unsupported is Some {
                Some(seq!["unsupported enum_filter_collection attribute key"@])
            } else {
                read.failure
            }
            &&& arguments.failure_place == read.failure_place
        },
{
    law_first_attribute_is_read(item.attributes, "enum_filter_collection"@, i);
    assert(seq![
        ("enum"@, ValueKind::Path),
        ("iter"@, ValueKind::Text),
        ("map"@, ValueKind::Text),
    ] =~= collection_rules());
}

/// A struct is refused as missing the attribute exactly where it is nowhere on it, and the error
/// points to the struct.
pub proof fn law_missing_attribute(item: InputView, made: Seq<Option<Seq<char>>>)
    requires
        forall|j: int|
            0 <= j < item.attributes.len() ==> attribute_path(#[trigger] item.attributes[j])
                != seq![Token::Ident("enum_filter_collection"@)],
    ensures
        item_arguments(item) is None,
        config(item, made) == Some(
            Err::<ConfigView, Seq<Seq<char>>>(
                seq!["missing #[enum_filter_collection(enum = EnumType, iter = \"field\")]"@],
            ),
        ),
        config_place(item) == item.place,
        collection_plan_place(item) == item.place,
{
    law_no_attribute_is_read(item.attributes, "enum_filter_collection"@);
}

/// What the attribute of a struct says is what its arguments say.
pub proof fn law_config_is_that_of_the_arguments(
    item: InputView,
    arguments: ArgumentsView,
    made: Seq<Option<Seq<char>>>,
)
    requires
        item_arguments(item) == Some(arguments),
    ensures
        config(item, made) == config_from(arguments, made),
        item_fields_made(item, made) == fields_made(arguments.entries, made),
        config_place(item) == if arguments.failure is Some {
            arguments.failure_place
        } else {
            item.place
        },
{
}

/// The last argument that has a key and a path is the one whose path counts.
pub proof fn law_last_path_counts(entries: Seq<EntryView>, key: Seq<char>, i: int)
    requires
        0 <= i < entries.len(),
        entries[i].key == seq![Token::Ident(key)],
        entries[i].value is Path,
        forall|j: int|
            i < j < entries.len() ==> !((#[trigger] entries[j]).key == seq![Token::Ident(key)]
                && entries[j].value is Path),
    ensures
        last_path(entries, key) == Some(entries[i].value->Path_0),
    decreases entries.len(),
{
    if i < entries.len() - 1 {
        let shorter = entries.drop_last();
        assert(!(entries[entries.len() - 1].key == seq![Token::Ident(key)]
            && entries[entries.len() - 1].value is Path));
        assert forall|j: int| i < j < shorter.len() implies !((#[trigger] shorter[j]).key == seq![
            Token::Ident(key),
        ] && shorter[j].value is Path) by {
            assert(shorter[j] == entries[j]);
        }
        assert(shorter[i] == entries[i]);
        law_last_path_counts(shorter, key, i);
    }
}

/// There is no path for a key that no argument with a path has.
pub proof fn law_no_path(entries: Seq<EntryView>, key: Seq<char>)
    requires
        forall|j: int|
            0 <= j < entries.len() ==> !((#[trigger] entries[j]).key == seq![Token::Ident(key)]
                && entries[j].value is Path),
    ensures
        last_path(entries, key) is None,
    decreases entries.len(),
{
    if entries.len() > 0 {
        let shorter = entries.drop_last();
        assert(!(entries[entries.len() - 1].key == seq![Token::Ident(key)]
            && entries[entries.len() - 1].value is Path));
        assert forall|j: int| 0 <= j < shorter.len() implies !((#[trigger] shorter[j]).key == seq![
            Token::Ident(key),
        ] && shorter[j].value is Path) by {
            assert(shorter[j] == entries[j]);
        }
        law_no_path(shorter, key);
    }
}

/// The last argument that has a key and a text is the one whose text counts, with the place of it
/// and the identifier that was made of it.
pub proof fn law_last_text_counts(
    entries: Seq<EntryView>,
    made: Seq<Option<Seq<char>>>,
    key: Seq<char>,
    i: int,
)
    requires
        made.len() == entries.len(),
        0 <= i < entries.len(),
        entries[i].key == seq![Token::Ident(key)],
        entries[i].value is Text,
        forall|j: int|
            i < j < entries.len() ==> !((#[trigger] entries[j]).key == seq![Token::Ident(key)]
                && entries[j].value is Text),
    ensures
        last_text(entries, key) == Some(entries[i].value->Text_0),
        last_span(entries, key) == Some(entries[i].value->Text_1),
        last_made(entries, made, key) == made[i],
    decreases entries.len(),
{
    if i < entries.len() - 1 {
        let shorter = entries.drop_last();
        assert(!(entries[entries.len() - 1].key == seq![Token::Ident(key)]
            && entries[entries.len() - 1].value is Text));
        assert forall|j: int| i < j < shorter.len() implies !((#[trigger] shorter[j]).key == seq![
            Token::Ident(key),
        ] && shorter[j].value is Text) by {
            assert(shorter[j] == entries[j]);
        }
        assert(shorter[i] == entries[i]);
        law_last_text_counts(shorter, made.drop_last(), key, i);
    }
}

/// There is no text for a key that no argument with a text has.
pub proof fn law_no_text(entries: Seq<EntryView>, made: Seq<Option<Seq<char>>>, key: Seq<char>)
    requires
        made.len() == entries.len(),
        forall|j: int|
            0 <= j < entries.len() ==> !((#[trigger] entries[j]).key == seq![Token::Ident(key)]
                && entries[j].value is Text),
    ensures
        last_text(entries, key) is None,
        last_span(entries, key) is None,
        last_made(entries, made, key) is None,
    decreases entries.len(),
{
    if entries.len() > 0 {
        let shorter = entries.drop_last();
        assert(!(entries[entries.len() - 1].key == seq![Token::Ident(key)]
            && entries[entries.len() - 1].value is Text));
        assert forall|j: int| 0 <= j < shorter.len() implies !((#[trigger] shorter[j]).key == seq![
            Token::Ident(key),
        ] && shorter[j].value is Text) by {
            assert(shorter[j] == entries[j]);
        }
        law_no_text(shorter, made.drop_last(), key);
    }
}

/// Whether an argument names a field: it has the key `iter` or `map` and a text.
pub open spec fn is_field(entry: EntryView) -> bool {
    entry.value is Text && (entry.key == seq![Token::Ident("iter"@)] || entry.key == seq![
        Token::Ident("map"@),
    ])
}

/// An identifier is made of every text that names a field, and of nothing else.
pub proof fn law_every_field_is_made(entries: Seq<EntryView>, made: Seq<Option<Seq<char>>>)
    ensures
        fields_made(entries, made) <==> made.len() == entries.len() && forall|i: int|
            0 <= i < entries.len() && is_field(#[trigger] entries[i]) ==> made_from(
                made[i],
                entries[i].value->Text_0,
            ),
        field_unmade(entries, made) <==> exists|i: int|
            0 <= i < entries.len() && is_field(#[trigger] entries[i]) && made[i] is None,
{
    assert forall|i: int| 0 <= i < entries.len() implies is_field(#[trigger] entries[i]) == (
    field_text(entries[i]) is Some) && (is_field(entries[i]) ==> field_text(entries[i]) == Some(
        entries[i].value->Text_0,
    )) by {}
    if field_unmade(entries, made) {
        let i = choose|i: int|
            0 <= i < entries.len() && field_text(#[trigger] entries[i]) is Some && made[i] is None;
        assert(is_field(entries[i]));
    }
    if exists|i: int|
        0 <= i < entries.len() && is_field(#[trigger] entries[i]) && made[i] is None {
        let i = choose|i: int|
            0 <= i < entries.len() && is_field(#[trigger] entries[i]) && made[i] is None;
        assert(field_text(entries[i]) is Some);
    }
    if made.len() == entries.len() && forall|i: int|
        0 <= i < entries.len() && is_field(#[trigger] entries[i]) ==> made_from(
            made[i],
            entries[i].value->Text_0,
        ) {
        assert forall|i: int| 0 <= i < entries.len() implies (field_text(
            #[trigger] entries[i],
        ) matches Some(text) ==> made_from(made[i], text)) by {
            assert(is_field(entries[i]) == (field_text(entries[i]) is Some));
        }
    }
    if fields_made(entries, made) {
        assert forall|i: int| 0 <= i < entries.len() && is_field(#[trigger] entries[i]) implies
            made_from(made[i], entries[i].value->Text_0) by {
            assert(field_text(entries[i]) == Some(entries[i].value->Text_0));
        }
    }
}

/// What arguments say, in the order in which it is decided: nothing, where a text that names a
/// field
/// gave no identifier; the errors that ended the reading; that the enum or the field to iterate is
/// missing; else the enum and the fields, with where they stand.
pub proof fn law_what_arguments_say(arguments: ArgumentsView, made: Seq<Option<Seq<char>>>)
    ensures
        config_from(arguments, made) == if field_unmade(arguments.entries, made) {
            None::<Result<ConfigView, Seq<Seq<char>>>>
        } else if let Some(messages) = arguments.failure {
            Some(Err(messages))
        } else if last_path(arguments.entries, "enum"@) is None {
            Some(Err(seq!["missing enum"@]))
        } else if last_made(arguments.entries, made, "iter"@) is None {
            Some(Err(seq!["missing iter"@]))
        } else {
            Some(
                Ok(
                    ConfigView {
                        enum_path: last_path(arguments.entries, "enum"@)->0,
                        iter_field: last_made(arguments.entries, made, "iter"@)->0,
                        iter_span: last_span(arguments.entries, "iter"@)->0,
                        map_field: last_made(arguments.entries, made, "map"@),
                        map_span: last_span(arguments.entries, "map"@),
                    },
                ),
            )
        },
        forall|item: Option<Place>| #[trigger]
            arguments_place(arguments, item) == if arguments.failure is Some {
                arguments.failure_place
            } else {
                item
            },
{
}

/// A body is accepted exactly where it is that of a struct with named fields, one of which, at any
/// place, has the name of the field to iterate; else it is refused with the message that says what
/// it is not.
pub proof fn law_what_bodies_are_accepted(body: BodyView, config: ConfigView)
    ensures
        body_refusal(body, config) == match body {
            BodyView::Struct(fields) => if fields.style == FieldsStyle::Named {
                if exists|k: int|
                    0 <= k < fields.fields.len() && (#[trigger] fields.fields[k]).ident == Some(
                        config.iter_field,
                    ) {
                    None
                } else {
                    Some(
                        "EnumFilterCollection iter field `"@ + config.iter_field
                            + "` does not exist"@,
                    )
                }
            } else {
                Some("EnumFilterCollection only supports structs with named fields"@)
            },
            BodyView::Enum(_) => Some("EnumFilterCollection can only be derived for structs"@),
            BodyView::Union => Some("EnumFilterCollection can only be derived for structs"@),
        },
{
}

/// What is planned for a struct: what its attribute is refused with; else what its body is refused
/// with, at its name; else nothing where its names could not be made; else its visibility, its
/// name,
/// the names and the configuration.
pub proof fn law_what_is_planned_for_a_struct(item: InputView, made: CollectionNames)
    ensures
        collection_plan(item, made) == match config(item, made.fields) {
            None => None,
            Some(Err(messages)) => Some(Err::<CollectionPlanView, Seq<Seq<char>>>(messages)),
            Some(Ok(said)) => if let Some(message) = body_refusal(item.body, said) {
                Some(Err(seq![message]))
            } else if made.names is None {
                None
            } else {
                Some(
                    Ok(
                        CollectionPlanView {
                            visibility: item.visibility,
                            ident: item.ident,
                            names: made.names->0,
                            config: said,
                        },
                    ),
                )
            },
        },
        collection_made_for(item, made) <==> item_fields_made(item, made.fields) && names_made(
            made.names,
            names_for("__bevy_enum_filter_collection_"@, item.ident),
        ),
{
}

/// An error about the body of a struct points to its name, one about its attribute where that
/// of the
/// attribute does.
pub proof fn law_where_errors_of_structs_point(item: InputView, arguments: ArgumentsView)
    requires
        item_arguments(item) == Some(arguments),
    ensures
        collection_plan_place(item) == if arguments.failure is Some {
            arguments.failure_place
        } else if last_path(arguments.entries, "enum"@) is None || last_text(
            arguments.entries,
            "iter"@,
        ) is None {
            item.place
        } else {
            Some(item.ident_place)
        },
{
}

/// What the derive for structs can give: the errors for what spells no item; otherwise what
/// comes of
/// the plan for some way in which the making of the names can go, which is its code, the errors
/// that it is refused with, or nothing.
pub proof fn law_what_the_collection_derive_gives(stream: TokenStream, output: Option<Seq<Token>>)
    ensures
        collection_gives(stream, output) <==> match parsed_input(stream) {
            Err(messages) => output == Some(compile_errors(messages)),
            Ok(item) => exists|made: CollectionNames| #[trigger]
                collection_made_for(item, made) && match collection_plan(item, made) {
                    Some(Ok(plan)) => output == Some(collection_tokens(plan)),
                    Some(Err(messages)) => output == Some(compile_errors(messages)),
                    None => output is None,
                },
        },
{
    if let Ok(item) = parsed_input(stream) {
        if collection_gives(stream, output) {
            let made = choose|made: CollectionNames| #[trigger]
                collection_made_for(item, made) && output == collection_output(item, made);
            assert(collection_made_for(item, made));
        }
        let given = exists|made: CollectionNames| #[trigger]
            collection_made_for(item, made) && match collection_plan(item, made) {
                Some(Ok(plan)) => output == Some(collection_tokens(plan)),
                Some(Err(messages)) => output == Some(compile_errors(messages)),
                None => output is None,
            };
        if given {
            let made = choose|made: CollectionNames| #[trigger]
                collection_made_for(item, made) && match collection_plan(item, made) {
                    Some(Ok(plan)) => output == Some(collection_tokens(plan)),
                    Some(Err(messages)) => output == Some(compile_errors(messages)),
                    None => output is None,
                };
            assert(output == collection_output(item, made));
        }
    }
}

/// What can come of planning a struct is what comes of some way in which the making of the
/// names can
/// go.
pub proof fn law_what_can_be_planned_for_a_struct(
    item: InputView,
    outcome: Option<Result<CollectionPlanView, Seq<Seq<char>>>>,
)
    ensures
        collection_planned(item, outcome) <==> exists|made: CollectionNames| #[trigger]
            collection_made_for(item, made) && outcome == collection_plan(item, made),
{
}

} // verus!
