//! The payload types that an enum has extracted, and the variants that carry each of them.
//!
//! Two types are taken for the same where they print the same.

use proc_macro2::TokenStream;
use vstd::prelude::*;

use crate::syntax::{type_view, TypeView};
use crate::token::{printed, stream_string};

verus! {

/// The payload types of the variants as a model.
pub open spec fn payloads_view(payloads: Seq<Option<TokenStream>>) -> Seq<Option<TypeView>> {
    payloads.map_values(|payload: Option<TokenStream>| payload_view(payload))
}

/// One payload type as a model.
pub open spec fn payload_view(payload: Option<TokenStream>) -> Option<TypeView> {
    match payload {
        Some(ty) => Some(type_view(ty)),
        None => None,
    }
}

/// A list of types as a model.
pub open spec fn types_view(types: Seq<TokenStream>) -> Seq<TypeView> {
    types.map_values(|ty: TokenStream| type_view(ty))
}

/// Whether one of the types prints as `text`.
pub open spec fn lists(types: Seq<TypeView>, text: Seq<char>) -> bool {
    exists|i: int| 0 <= i < types.len() && (#[trigger] types[i]).text == text
}

/// Whether a variant has a payload extracted whose type prints as `text`.
pub open spec fn carries(payload: Option<TypeView>, text: Seq<char>) -> bool {
    payload matches Some(ty) && ty.text == text
}

/// The payload types of the variants, each at its first occurrence.
pub open spec fn distinct_types(payloads: Seq<Option<TypeView>>) -> Seq<TypeView>
    decreases payloads.len(),
{
    if payloads.len() == 0 {
        Seq::empty()
    } else {
        let before = distinct_types(payloads.drop_last());
        match payloads.last() {
            Some(ty) => if lists(before, ty.text) {
                before
            } else {
                before.push(ty)
            },
            None => before,
        }
    }
}

/// The indexes of the variants that carry the type that prints as `text`, in order.
pub open spec fn carriers(payloads: Seq<Option<TypeView>>, text: Seq<char>) -> Seq<usize>
    decreases payloads.len(),
{
    if payloads.len() == 0 {
        Seq::empty()
    } else {
        let before = carriers(payloads.drop_last(), text);
        if carries(payloads.last(), text) {
            before.push((payloads.len() - 1) as usize)
        } else {
            before
        }
    }
}

/// The payload types of the variants, each at its first occurrence.
pub fn distinct_payload_types(payloads: &Vec<Option<TokenStream>>) -> (types: Vec<TokenStream>)
    ensures
        types_view(types@) == distinct_types(payloads_view(payloads@)),
{
    let ghost view = payloads_view(payloads@);
    let mut types: Vec<TokenStream> = Vec::new();
    let mut seen: Vec<String> = Vec::new();
    let mut i: usize = 0;
    assert(types_view(types@) =~= distinct_types(view.take(0)));
    while i < payloads.len()
        invariant
            i <= payloads.len(),
            view == payloads_view(payloads@),
            types_view(types@) == distinct_types(view.take(i as int)),
            seen.len() == types.len(),
            forall|j: int|
                0 <= j < seen.len() ==> (#[trigger] seen[j])@ == types_view(types@)[j].text,
        decreases payloads.len() - i,
    {
        proof {
            assert(view.take(i + 1).drop_last() =~= view.take(i as int));
            assert(view.take(i + 1).last() == payload_view(payloads@[i as int]));
        }
        if let Some(ty) = &payloads[i] {
            let text = stream_string(ty);
            let known = contains_text(&seen, &text);
            let ghost before = types_view(types@);
            proof {
                if known {
                    let j = choose|j: int| 0 <= j < seen.len() && seen[j]@ == text@;
                    assert(before[j].text == text@);
                } else if lists(before, text@) {
                    let j = choose|j: int| 0 <= j < before.len() && (#[trigger] before[j]).text == text@;
                    assert(seen[j]@ == text@);
                }
                assert(known == lists(before, text@));
            }
            if !known {
                seen.push(text);
                types.push(ty.clone());
                assert(types_view(types@) =~= before.push(type_view(*ty)));
            }
        }
        i = i + 1;
    }
    assert(view.take(view.len() as int) =~= view);
    types
}

/// Whether a text is among others.
fn contains_text(texts: &Vec<String>, text: &String) -> (r: bool)
    ensures
        r == exists|j: int| 0 <= j < texts.len() && (#[trigger] texts[j])@ == text@,
{
    let mut i: usize = 0;
    while i < texts.len()
        invariant
            i <= texts.len(),
            forall|j: int| 0 <= j < i ==> (#[trigger] texts[j])@ != text@,
        decreases texts.len() - i,
    {
        if texts[i] == *text {
            return true;
        }
        i = i + 1;
    }
    false
}

/// The indexes of the variants that carry a payload type, in order.
pub fn carrying_indexes(payloads: &Vec<Option<TokenStream>>, ty: &TokenStream) -> (indexes: Vec<usize>)
    ensures
        indexes@ == carriers(payloads_view(payloads@), printed(*ty)),
{
    let ghost view = payloads_view(payloads@);
    let text = stream_string(ty);
    let mut indexes: Vec<usize> = Vec::new();
    let mut i: usize = 0;
    while i < payloads.len()
        invariant
            i <= payloads.len(),
            view == payloads_view(payloads@),
            text@ == printed(*ty),
            indexes@ == carriers(view.take(i as int), text@),
        decreases payloads.len() - i,
    {
        proof {
            assert(view.take(i + 1).drop_last() =~= view.take(i as int));
            assert(view.take(i + 1).last() == payload_view(payloads@[i as int]));
        }
        if let Some(other) = &payloads[i] {
            if stream_string(other) == text {
                indexes.push(i);
            }
        }
        i = i + 1;
    }
    assert(view.take(view.len() as int) =~= view);
    indexes
}

} // verus!
