//! What the names are that are made up, and in which order the payload types are listed.

use vstd::prelude::*;

use crate::ident::{ascii_text, composed, continues_identifier, identifier_shaped, lower_case};
use crate::ident::{lowercased, made_from, plain_identifier, unraw};
use crate::laws::{law_carriers_carry, law_distinct_types_are_extracted};
use crate::names::{collection_prefix, enum_prefix, marker_name, names_for, names_made};
use crate::names::{payload_var_name, NamesView};
use crate::payload::{carriers, carries, distinct_types, lists};
use crate::syntax::TypeView;
use crate::token::decimal;

verus! {

/// An identifier without its raw prefix is what follows the prefix, or all of it where it has none.
pub proof fn law_raw_prefix_is_taken_off(text: Seq<char>)
    ensures
        text.len() >= 2 && text[0] == 'r' && text[1] == '#' ==> seq!['r', '#']
            + unraw(text) == text,
        !(text.len() >= 2 && text[0] == 'r' && text[1] == '#') ==> unraw(text) == text,
{
    if text.len() >= 2 && text[0] == 'r' && text[1] == '#' {
        assert(seq!['r', '#'] + unraw(text) =~= text);
    }
}

/// The lower case of an ASCII text is as long, and differs from it in the letters `A` to `Z` alone,
/// which become `a` to `z`.
pub proof fn law_lower_case_of_ascii(text: Seq<char>)
    requires
        forall|i: int| 0 <= i < text.len() ==> #[trigger] text[i] as u32 <= 0x7f,
    ensures
        lower_case(text).len() == text.len(),
        forall|i: int|
            0 <= i < text.len() ==> #[trigger] lower_case(text)[i] as int == if 'A' <= text[i]
                && text[i] <= 'Z' {
                text[i] as int + 32
            } else {
                text[i] as int
            },
{
}

/// Beyond ASCII the lower case is that of the standard library.
pub proof fn law_lower_case_beyond_ascii(text: Seq<char>, i: int)
    requires
        0 <= i < text.len(),
        text[i] as u32 > 0x7f,
    ensures
        lower_case(text) == lowercased(text),
{
    assert(!ascii_text(text));
}

/// What a character of an identifier can be: beyond ASCII anything, within it a letter, `_`, or a
/// digit that is not the first.
pub open spec fn is_identifier_char(c: char, first: bool) -> bool {
    c as u32 > 0x7f || 'a' <= c <= 'z' || 'A' <= c <= 'Z' || c == '_' || (!first && '0' <= c <= '9')
}

/// A text can be that of an identifier exactly where it is not empty and each of its characters can
/// be one of an identifier.
pub proof fn law_shape_of_identifiers(text: Seq<char>)
    ensures
        identifier_shaped(text) <==> text.len() > 0 && forall|i: int|
            0 <= i < text.len() ==> is_identifier_char(#[trigger] text[i], i == 0),
        plain_identifier(text) <==> identifier_shaped(text) && forall|i: int|
            0 <= i < text.len() ==> #[trigger] text[i] as u32 <= 0x7f,
{
    if text.len() > 0 && forall|i: int|
        0 <= i < text.len() ==> is_identifier_char(#[trigger] text[i], i == 0) {
        assert(is_identifier_char(text[0], true));
        assert forall|i: int| 1 <= i < text.len() implies continues_identifier(
            #[trigger] text[i],
        ) by {
            assert(is_identifier_char(text[i], i == 0));
        }
    }
    if identifier_shaped(text) {
        assert forall|i: int| 0 <= i < text.len() implies is_identifier_char(
            #[trigger] text[i],
            i == 0,
        ) by {
            if i > 0 {
                assert(continues_identifier(text[i]));
            }
        }
    }
}

/// Of an ASCII identifier the same identifier is made, always.
pub proof fn law_plain_text_makes_itself(made: Option<Seq<char>>, text: Seq<char>)
    requires
        plain_identifier(text),
    ensures
        made_from(made, text) <==> made == Some(text),
{
}

/// Of a text that has not the shape of an identifier nothing is made.
pub proof fn law_other_text_makes_nothing(made: Option<Seq<char>>, text: Seq<char>)
    requires
        !identifier_shaped(text),
    ensures
        made_from(made, text) <==> made is None,
{
}

/// Of a text beyond ASCII that has the shape of an identifier either nothing is made, or an
/// identifier with its characters or with those of its composed form.
pub proof fn law_text_beyond_ascii(made: Option<Seq<char>>, text: Seq<char>)
    requires
        identifier_shaped(text),
        !plain_identifier(text),
    ensures
        made_from(made, text) <==> made is None || made == Some(text) || made == Some(
            composed(text),
        ),
{
}

/// The names for a type: its name without a raw prefix and `EnumFilterPlugin`, and for each helper
/// function the prefix, its role and the name in lower case.
pub proof fn law_names_of_a_type(prefix: Seq<char>, ident: Seq<char>)
    ensures
        names_for(prefix, ident) == (NamesView {
            plugin: unraw(ident) + "EnumFilterPlugin"@,
            register_hooks: prefix + "register_hooks_"@ + lower_case(ident),
            hook_sync: prefix + "hook_sync_"@ + lower_case(ident),
            hook_cleanup: prefix + "hook_cleanup_"@ + lower_case(ident),
            sync: prefix + "sync_"@ + lower_case(ident),
            cleanup: prefix + "cleanup_"@ + lower_case(ident),
        }),
        enum_prefix() == "__bevy_enum_filter_"@,
        collection_prefix() == "__bevy_enum_filter_collection_"@,
{
}

/// The marker of a variant is named by the enum's name and the variant's, without raw prefixes.
pub proof fn law_name_of_a_marker(enum_ident: Seq<char>, variant_ident: Seq<char>)
    ensures
        marker_name(enum_ident, variant_ident) == unraw(enum_ident) + unraw(variant_ident),
{
}

/// The variable that holds the payload of a variant is named by the variant's index.
pub proof fn law_name_of_a_payload_variable(index: nat)
    ensures
        payload_var_name(index) == "__enum_filter_payload_"@ + decimal(index),
{
}

/// Each of the names is made from its own text; nothing is made where one of them cannot be.
pub proof fn law_names_are_made_one_by_one(names: Option<NamesView>, texts: NamesView)
    ensures
        names_made(names, texts) <==> match names {
            Some(names) => {
                &&& made_from(Some(names.plugin), texts.plugin)
                &&& made_from(Some(names.register_hooks), texts.register_hooks)
                &&& made_from(Some(names.hook_sync), texts.hook_sync)
                &&& made_from(Some(names.hook_cleanup), texts.hook_cleanup)
                &&& made_from(Some(names.sync), texts.sync)
                &&& made_from(Some(names.cleanup), texts.cleanup)
            },
            None => {
                ||| !plain_identifier(texts.plugin)
                ||| !plain_identifier(texts.register_hooks)
                ||| !plain_identifier(texts.hook_sync)
                ||| !plain_identifier(texts.hook_cleanup)
                ||| !plain_identifier(texts.sync)
                ||| !plain_identifier(texts.cleanup)
            },
        },
{
}

/// The number that digits stand for in base ten.
pub open spec fn number(digits: Seq<char>) -> int
    decreases digits.len(),
{
    if digits.len() == 0 {
        0
    } else {
        number(digits.drop_last()) * 10 + (digits.last() as int - '0' as int)
    }
}

/// The digits of a number stand for it, and do not start with a zero that is not all of it.
pub proof fn law_digits_stand_for_the_number(n: nat)
    ensures
        number(decimal(n)) == n,
        decimal(n).len() > 0,
        forall|i: int| 0 <= i < decimal(n).len() ==> '0' <= #[trigger] decimal(n)[i] <= '9',
        n > 0 ==> decimal(n)[0] != '0',
        n == 0 ==> decimal(n) == seq!['0'],
    decreases n,
{
    let digits = decimal(n);
    if n < 10 {
        assert(digits.drop_last() =~= Seq::empty());
        assert(number(digits.drop_last()) == 0);
        assert(digits.last() as int == '0' as int + n);
    } else {
        law_digits_stand_for_the_number(n / 10);
        assert(digits.drop_last() =~= decimal(n / 10));
        assert(digits.last() as int == '0' as int + n % 10);
        assert forall|i: int| 0 <= i < digits.len() implies '0' <= #[trigger] digits[i] <= '9' by {
            if i < decimal(n / 10).len() {
                assert(digits[i] == decimal(n / 10)[i]);
            }
        }
        assert(digits[0] == decimal(n / 10)[0]);
    }
}

/// A variant carries a type where its payload prints so; a type is listed where one of the
/// types, at
/// any place, prints so.
pub proof fn law_types_go_by_what_they_print(
    payload: Option<TypeView>,
    types: Seq<TypeView>,
    text: Seq<char>,
)
    ensures
        carries(payload, text) <==> payload is Some && payload->0.text == text,
        lists(types, text) <==> exists|k: int|
            0 <= k < types.len() && (#[trigger] types[k]).text == text,
{
}

/// Whether a payload type is that of the variant at an index, and of none before it.
pub open spec fn appears_first(payloads: Seq<Option<TypeView>>, i: int, ty: TypeView) -> bool {
    &&& 0 <= i < payloads.len()
    &&& payloads[i] == Some(ty)
    &&& forall|j: int| 0 <= j < i ==> !carries(#[trigger] payloads[j], ty.text)
}

/// A distinct payload type is taken from the first variant that carries it.
pub proof fn law_types_are_those_of_first_carriers(payloads: Seq<Option<TypeView>>, k: int)
    requires
        0 <= k < distinct_types(payloads).len(),
    ensures
        exists|i: int| #[trigger] appears_first(payloads, i, distinct_types(payloads)[k]),
    decreases payloads.len(),
{
    let shorter = payloads.drop_last();
    let before = distinct_types(shorter);
    let ty = distinct_types(payloads)[k];
    if k < before.len() {
        law_types_are_those_of_first_carriers(shorter, k);
        let i = choose|i: int| #[trigger] appears_first(shorter, i, before[k]);
        assert(ty == before[k]);
        assert(payloads[i] == shorter[i]);
        assert forall|j: int| 0 <= j < i implies !carries(#[trigger] payloads[j], ty.text) by {
            assert(payloads[j] == shorter[j]);
        }
        assert(appears_first(payloads, i, ty));
    } else {
        law_distinct_types_are_extracted(shorter, ty.text);
        let i = payloads.len() - 1;
        assert forall|j: int| 0 <= j < i implies !carries(#[trigger] payloads[j], ty.text) by {
            assert(payloads[j] == shorter[j]);
        }
        assert(appears_first(payloads, i, ty));
    }
}

/// The distinct payload types stand in the order in which they first appear.
pub proof fn law_types_are_in_order_of_appearance(
    payloads: Seq<Option<TypeView>>,
    k: int,
    l: int,
    i: int,
    j: int,
)
    requires
        0 <= k < l < distinct_types(payloads).len(),
        appears_first(payloads, i, distinct_types(payloads)[k]),
        appears_first(payloads, j, distinct_types(payloads)[l]),
    ensures
        i < j,
    decreases payloads.len(),
{
    let shorter = payloads.drop_last();
    let before = distinct_types(shorter);
    let types = distinct_types(payloads);
    lemma_first_in_shorter(payloads, k, i);
    if l < before.len() {
        lemma_first_in_shorter(payloads, l, j);
        law_types_are_in_order_of_appearance(shorter, k, l, i, j);
    } else if j < payloads.len() - 1 {
        law_distinct_types_are_extracted(shorter, types[l].text);
        assert(shorter[j] == payloads[j]);
        assert(carries(shorter[j], types[l].text));
    }
}

/// A type that is there without the last variant first appears before it.
proof fn lemma_first_in_shorter(payloads: Seq<Option<TypeView>>, k: int, i: int)
    requires
        payloads.len() > 0,
        0 <= k < distinct_types(payloads.drop_last()).len(),
        appears_first(payloads, i, distinct_types(payloads)[k]),
    ensures
        distinct_types(payloads)[k] == distinct_types(payloads.drop_last())[k],
        appears_first(payloads.drop_last(), i, distinct_types(payloads.drop_last())[k]),
{
    let shorter = payloads.drop_last();
    let ty = distinct_types(shorter)[k];
    assert(distinct_types(payloads)[k] == ty);
    law_types_are_those_of_first_carriers(shorter, k);
    let first = choose|first: int| #[trigger] appears_first(shorter, first, ty);
    assert(shorter[first] == payloads[first]);
    assert(carries(payloads[first], ty.text));
    assert(i <= first);
    assert forall|j: int| 0 <= j < i implies !carries(#[trigger] shorter[j], ty.text) by {
        assert(shorter[j] == payloads[j]);
    }
    assert(shorter[i] == payloads[i]);
}

/// The indexes listed for a payload type are exactly those of the variants that carry it.
pub proof fn law_carriers_are_exactly_the_carrying(
    payloads: Seq<Option<TypeView>>,
    text: Seq<char>,
    index: usize,
)
    requires
        payloads.len() <= usize::MAX,
    ensures
        carriers(payloads, text).contains(index) <==> index < payloads.len() && (
        payloads[index as int] matches Some(ty) && ty.text == text),
{
    if index < payloads.len() {
        law_carriers_carry(payloads, text, index as int);
    } else {
        lemma_carriers_are_indexes(payloads, text);
        if carriers(payloads, text).contains(index) {
            let k = choose|k: int|
                0 <= k < carriers(payloads, text).len() && carriers(payloads, text)[k] == index;
            assert(carriers(payloads, text)[k] < payloads.len());
        }
    }
}

/// What is listed for a payload type is below the number of variants.
proof fn lemma_carriers_are_indexes(payloads: Seq<Option<TypeView>>, text: Seq<char>)
    requires
        payloads.len() <= usize::MAX,
    ensures
        forall|k: int|
            0 <= k < carriers(payloads, text).len() ==> (#[trigger] carriers(payloads, text)[k])
                < payloads.len(),
    decreases payloads.len(),
{
    if payloads.len() > 0 {
        let before = carriers(payloads.drop_last(), text);
        lemma_carriers_are_indexes(payloads.drop_last(), text);
        assert forall|k: int| 0 <= k < carriers(payloads, text).len() implies (
        #[trigger] carriers(payloads, text)[k]) < payloads.len() by {
            if k < before.len() {
                assert(carriers(payloads, text)[k] == before[k]);
            }
        }
    }
}

} // verus!
