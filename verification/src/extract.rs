//! Payload extraction: which variants opt in with `#[enum_filter(extract)]`, and with what type.

use proc_macro2::TokenStream;
use vstd::prelude::*;

use crate::meta::{has_key, nested_arguments, read_arguments, rules_view};
use crate::meta::{Arguments, ArgumentsView, KeyRule, ValueKind};
use crate::syntax::{attribute_path, error_messages, error_spanning, is_word_path};
use crate::syntax::{list_of, path_is, points_to, style_of, type_view};
use crate::syntax::{Field, FieldsStyle, TypeView, Variant, VariantView};
use crate::token::Place;

verus! {

/// The one key that `#[enum_filter(...)]` accepts.
pub open spec fn extract_rules() -> Seq<(Seq<char>, ValueKind)> {
    seq![("extract"@, ValueKind::Absent)]
}

/// What is reported for any other key.
pub open spec fn extract_key_message() -> Seq<char> {
    "unsupported enum_filter attribute key, expected `extract`"@
}

/// What is reported where the variant that opts in has no payload, or more than one.
pub open spec fn extract_shape_message() -> Seq<char> {
    "#[enum_filter(extract)] requires a tuple variant with exactly one field"@
}

/// The messages that the arguments of an attribute are refused with: the given one for a key that
/// no rule names, else those of the syntax error.
pub open spec fn refusal(arguments: ArgumentsView, message: Seq<char>) -> Option<Seq<Seq<char>>> {
    if arguments.unsupported is Some {
        Some(seq![message])
    } else {
        arguments.failure
    }
}

/// Whether attributes opt into extraction. The first `#[enum_filter(...)]` that is refused decides;
/// where none is, they opt in as soon as one names `extract`.
pub open spec fn opts_in(attributes: Seq<syn::Attribute>) -> Result<bool, Seq<Seq<char>>>
    decreases attributes.len(),
{
    if attributes.len() == 0 {
        Ok(false)
    } else {
        match opts_in(attributes.drop_last()) {
            Err(messages) => Err(messages),
            Ok(before) => if is_word_path(attribute_path(attributes.last()), "enum_filter"@) {
                let arguments = nested_arguments(
                    attributes.last(),
                    extract_rules(),
                    extract_key_message(),
                );
                match refusal(arguments, extract_key_message()) {
                    Some(messages) => Err(messages),
                    None => Ok(before || has_key(arguments.entries, "extract"@)),
                }
            } else {
                Ok(before)
            },
        }
    }
}

/// Where the refusal of attributes points: to what is wrong with the first refused one.
pub open spec fn opt_in_place(attributes: Seq<syn::Attribute>) -> Option<Place>
    decreases attributes.len(),
{
    if attributes.len() == 0 {
        None
    } else if opts_in(attributes.drop_last()) is Err {
        opt_in_place(attributes.drop_last())
    } else {
        nested_arguments(
            attributes.last(),
            extract_rules(),
            extract_key_message(),
        ).failure_place
    }
}

/// The type of the payload that a variant has extracted, or the messages it is refused with.
pub open spec fn extract_type(variant: VariantView) -> Result<Option<TypeView>, Seq<Seq<char>>> {
    match opts_in(variant.attributes) {
        Err(messages) => Err(messages),
        Ok(false) => Ok(None),
        Ok(true) => if variant.fields.style is Unnamed && variant.fields.fields.len() == 1 {
            Ok(Some(variant.fields.fields[0].ty))
        } else {
            Err(seq![extract_shape_message()])
        },
    }
}

/// Where the refusal of a variant points: to what is wrong with an attribute of it, or to the whole
/// of it.
pub open spec fn extract_place(variant: VariantView) -> Option<Place> {
    if opts_in(variant.attributes) is Err {
        opt_in_place(variant.attributes)
    } else {
        variant.place
    }
}

/// The model of what `variant_extract_type` returns.
pub open spec fn extract_outcome(outcome: Result<Option<TokenStream>, syn::Error>) -> Result<
    Option<TypeView>,
    Seq<Seq<char>>,
> {
    match outcome {
        Ok(Some(ty)) => Ok(Some(type_view(ty))),
        Ok(None) => Ok(None),
        Err(error) => Err(error_messages(error)),
    }
}

/// Whether the arguments of one `#[enum_filter(...)]` name `extract`, or the error that ended the
/// reading of them.
pub fn names_extract(arguments: Arguments) -> (outcome: Result<bool, syn::Error>)
    ensures
        match arguments.failure {
            Some(error) => outcome == Err::<bool, syn::Error>(error),
            None => outcome == Ok::<bool, syn::Error>(has_key(arguments@.entries, "extract"@)),
        },
{
    let Arguments { entries, unsupported: _, failure } = arguments;
    if let Some(error) = failure {
        return Err(error);
    }
    let mut i: usize = 0;
    while i < entries.len()
        invariant
            i <= entries.len(),
            arguments.entries == entries,
            arguments.failure is None,
            forall|j: int|
                0 <= j < i ==> !is_word_path(
                    (#[trigger] arguments@.entries[j]).key,
                    "extract"@,
                ),
        decreases entries.len() - i,
    {
        assert(arguments@.entries[i as int] == entries@[i as int]@);
        if path_is(&entries[i].key, "extract") {
            return Ok(true);
        }
        i = i + 1;
    }
    Ok(false)
}

/// Whether the attributes of a variant opt into extraction.
fn attributes_opt_in(attributes: &Vec<syn::Attribute>) -> (outcome: Result<bool, syn::Error>)
    ensures
        match outcome {
            Ok(extract) => opts_in(attributes@) == Ok::<bool, Seq<Seq<char>>>(extract),
            Err(error) => {
                &&& opts_in(attributes@) == Err::<bool, Seq<Seq<char>>>(error_messages(error))
                &&& points_to(error, opt_in_place(attributes@))
            },
        },
{
    let rules: Vec<KeyRule> = vec![KeyRule { key: "extract", kind: ValueKind::Absent }];
    let message = "unsupported enum_filter attribute key, expected `extract`";
    assert(rules_view(rules@) =~= extract_rules());
    let ghost view = attributes@;
    let mut extract = false;
    let mut i: usize = 0;
    assert(opts_in(view.take(0)) == Ok::<bool, Seq<Seq<char>>>(false));
    while i < attributes.len()
        invariant
            i <= attributes.len(),
            view == attributes@,
            rules_view(rules@) == extract_rules(),
            message@ == extract_key_message(),
            opts_in(view.take(i as int)) == Ok::<bool, Seq<Seq<char>>>(extract),
        decreases attributes.len() - i,
    {
        proof {
            assert(view.take(i + 1).drop_last() =~= view.take(i as int));
            assert(view.take(i + 1).last() == view[i as int]);
        }
        if path_is(attributes[i].path(), "enum_filter") {
            let arguments = read_arguments(&attributes[i], &rules, message);
            let ghost read = arguments@;
            match names_extract(arguments) {
                Ok(named) => {
                    extract = extract || named;
                },
                Err(error) => {
                    assert(refusal(read, extract_key_message()) == Some(error_messages(error)));
                    proof {
                        lemma_refused_early(view, i as int);
                    }
                    return Err(error);
                },
            }
        }
        i = i + 1;
    }
    assert(view.take(view.len() as int) =~= view);
    Ok(extract)
}

/// Attributes are refused with what their first refused one is refused with.
pub proof fn lemma_refused_early(attributes: Seq<syn::Attribute>, i: int)
    requires
        0 <= i < attributes.len(),
        opts_in(attributes.take(i + 1)) is Err,
    ensures
        opts_in(attributes) == opts_in(attributes.take(i + 1)),
        opt_in_place(attributes) == opt_in_place(attributes.take(i + 1)),
    decreases attributes.len(),
{
    if i + 1 == attributes.len() {
        assert(attributes.take(i + 1) =~= attributes);
    } else {
        assert(attributes.drop_last().take(i + 1) =~= attributes.take(i + 1));
        lemma_refused_early(attributes.drop_last(), i);
    }
}

/// The payload type of a variant that opts into payload extraction with
/// `#[enum_filter(extract)]`.
pub fn variant_extract_type(variant: &Variant) -> (outcome: Result<Option<TokenStream>, syn::Error>)
    ensures
        extract_outcome(outcome) == extract_type(variant@),
        outcome matches Err(error) ==> points_to(error, extract_place(variant@)),
{
    let extract = match attributes_opt_in(&variant.attributes) {
        Ok(extract) => extract,
        Err(error) => return Err(error),
    };
    if !extract {
        return Ok(None);
    }
    let list = list_of(&variant.fields);
    let ghost fields = list@.map_values(|field: Field| field@);
    if style_of(&variant.fields) == FieldsStyle::Unnamed && list.len() == 1 {
        assert(fields[0] == list@[0]@);
        Ok(Some(list[0].ty.clone()))
    } else {
        Err(
            error_spanning(
                &variant.tokens,
                "#[enum_filter(extract)] requires a tuple variant with exactly one field",
            ),
        )
    }
}

} // verus!
