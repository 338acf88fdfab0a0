//! What is to be generated for an enum, decided from the item alone.

use proc_macro2::{Ident, TokenStream};
use vstd::prelude::*;

use crate::extract::{extract_place, extract_type, variant_extract_type};
use crate::ident::{made_from, option_text, plain_identifier};
use crate::names::{enum_prefix, make_marker, make_names, marker_name, names_for};
use crate::names::{names_made, option_names, Names, NamesView};
use crate::payload::{payload_view, payloads_view};
use crate::syntax::{any_attribute, error_messages, error_spanning, has_attribute, points_to};
use crate::syntax::{Body, BodyView, FieldsStyle, Input, InputView};
use crate::syntax::{style_of, variants_view, TypeView, Variant, VariantView};
use crate::token::{ident_span, ident_stream, ident_text, stream_tokens, Place, Token};

verus! {

/// What is to be generated for one variant.
pub struct VariantPlan {
    pub ident: Ident,
    pub marker: Ident,
    pub style: FieldsStyle,
    /// Whether the marker is displayed as the variant is, in place of by the variant's name.
    pub displays_variant: bool,
    /// The type of the payload that is extracted.
    pub payload: Option<TokenStream>,
}

/// The model of a `VariantPlan`.
pub struct VariantPlanView {
    pub ident: Seq<char>,
    pub marker: Seq<char>,
    pub style: FieldsStyle,
    pub displays_variant: bool,
    pub payload: Option<TypeView>,
}

impl View for VariantPlan {
    type V = VariantPlanView;

    open spec fn view(&self) -> VariantPlanView {
        VariantPlanView {
            ident: ident_text(self.ident),
            marker: ident_text(self.marker),
            style: self.style,
            displays_variant: self.displays_variant,
            payload: payload_view(self.payload),
        }
    }
}

/// What is to be generated for an enum.
pub struct EnumPlan {
    pub visibility: TokenStream,
    pub ident: Ident,
    pub names: Names,
    pub variants: Vec<VariantPlan>,
}

/// The model of an `EnumPlan`.
pub struct EnumPlanView {
    pub visibility: Seq<Token>,
    pub ident: Seq<char>,
    pub names: NamesView,
    pub variants: Seq<VariantPlanView>,
}

impl View for EnumPlan {
    type V = EnumPlanView;

    open spec fn view(&self) -> EnumPlanView {
        EnumPlanView {
            visibility: stream_tokens(self.visibility),
            ident: ident_text(self.ident),
            names: self.names@,
            variants: variant_plans_view(self.variants@),
        }
    }
}

/// A list of variants as a model.
pub open spec fn variant_plans_view(variants: Seq<VariantPlan>) -> Seq<VariantPlanView> {
    variants.map_values(|variant: VariantPlan| variant@)
}

impl EnumPlanView {
    /// The payload types of the variants, in order.
    pub open spec fn payloads(self) -> Seq<Option<TypeView>> {
        self.variants.map_values(|variant: VariantPlanView| variant.payload)
    }
}

/// What is to be generated for one variant whose marker and payload type are known.
pub open spec fn variant_plan(
    item: InputView,
    variant: VariantView,
    marker: Seq<char>,
    payload: Option<TypeView>,
) -> VariantPlanView {
    VariantPlanView {
        ident: variant.ident,
        marker,
        style: variant.fields.style,
        displays_variant: variant.fields.style is Unit && (has_attribute(
            item.attributes,
            "strum"@,
        ) || has_attribute(variant.attributes, "strum"@)),
        payload,
    }
}

/// What came of making the names that the code for an enum needs: the marker of each variant, and
/// the names for the enum.
pub struct MadeNames {
    pub markers: Seq<Option<Seq<char>>>,
    pub names: Option<NamesView>,
}

/// Whether markers can come of making one for each variant.
pub open spec fn markers_made(
    item: InputView,
    variants: Seq<VariantView>,
    markers: Seq<Option<Seq<char>>>,
) -> bool {
    &&& markers.len() == variants.len()
    &&& forall|i: int|
        0 <= i < variants.len() ==> made_from(
            #[trigger] markers[i],
            marker_name(item.ident, variants[i].ident),
        )
}

/// Whether names can come of making those that the code for an item needs.
pub open spec fn made_for(item: InputView, made: MadeNames) -> bool {
    item.body matches BodyView::Enum(variants) ==> {
        &&& markers_made(item, variants, made.markers)
        &&& names_made(made.names, names_for(enum_prefix(), item.ident))
    }
}

/// What is to be generated for the variants of an enum, given what came of making their markers.
/// The first variant that is refused decides; `None` where the marker of a variant before it could
/// not be made.
pub open spec fn variant_plans(
    item: InputView,
    variants: Seq<VariantView>,
    markers: Seq<Option<Seq<char>>>,
) -> Option<Result<Seq<VariantPlanView>, Seq<Seq<char>>>>
    decreases variants.len(),
{
    if variants.len() == 0 {
        Some(Ok(Seq::empty()))
    } else {
        match variant_plans(item, variants.drop_last(), markers.drop_last()) {
            None => None,
            Some(Err(messages)) => Some(Err(messages)),
            Some(Ok(before)) => match (extract_type(variants.last()), markers.last()) {
                (Err(messages), _) => Some(Err(messages)),
                (Ok(payload), Some(marker)) => Some(
                    Ok(before.push(variant_plan(item, variants.last(), marker, payload))),
                ),
                (Ok(_), None) => None,
            },
        }
    }
}

/// What is to be generated for an item, or the messages that it is refused with, given what came
/// of making the names. `None` where a name that is needed could not be made.
pub open spec fn enum_plan(item: InputView, made: MadeNames) -> Option<
    Result<EnumPlanView, Seq<Seq<char>>>,
> {
    match item.body {
        BodyView::Enum(variants) => match (
            variant_plans(item, variants, made.markers),
            made.names,
        ) {
            (None, _) => None,
            (Some(Err(messages)), _) => Some(Err(messages)),
            (Some(Ok(_)), None) => None,
            (Some(Ok(plans)), Some(names)) => Some(
                Ok(
                    EnumPlanView {
                        visibility: item.visibility,
                        ident: item.ident,
                        names,
                        variants: plans,
                    },
                ),
            ),
        },
        _ => Some(Err(seq!["EnumFilter can only be derived for enums"@])),
    }
}

/// Whether planning an item can have an outcome: it is that of some way in which the making of the
/// names can go.
pub open spec fn enum_planned(
    item: InputView,
    outcome: Option<Result<EnumPlanView, Seq<Seq<char>>>>,
) -> bool {
    exists|made: MadeNames| #[trigger] made_for(item, made) && outcome == enum_plan(item, made)
}

/// Where the refusal of the first refused variant points.
pub open spec fn first_refused_place(variants: Seq<VariantView>) -> Option<Place>
    decreases variants.len(),
{
    if variants.len() == 0 {
        None
    } else if extract_type(variants[0]) is Err {
        extract_place(variants[0])
    } else {
        first_refused_place(variants.skip(1))
    }
}

/// Where the refusal of an item points: to what is wrong with a variant, or to the item's name.
pub open spec fn enum_plan_place(item: InputView) -> Option<Place> {
    match item.body {
        BodyView::Enum(variants) => first_refused_place(variants),
        _ => Some(item.ident_place),
    }
}

/// Whether plans keep the names of the variants as they are, and have markers that point to the
/// enum's name.
pub open spec fn variants_kept(
    enum_ident: Ident,
    variants: Seq<Variant>,
    plans: Seq<VariantPlan>,
) -> bool {
    &&& plans.len() == variants.len()
    &&& forall|i: int|
        0 <= i < plans.len() ==> {
            &&& (#[trigger] plans[i]).ident == variants[i].ident
            &&& ident_span(plans[i].marker) == ident_span(enum_ident)
        }
}

/// Whether a plan keeps the visibility and the names of an item as they are, and has a plugin and
/// markers that point to the enum's name.
pub open spec fn enum_kept(item: Input, plan: EnumPlan) -> bool {
    &&& plan.visibility == item.visibility
    &&& plan.ident == item.ident
    &&& ident_span(plan.names.plugin) == ident_span(item.ident)
    &&& item.body matches Body::Enum(variants) && variants_kept(
        item.ident,
        variants@,
        plan.variants@,
    )
}

/// The model of what `plan_variants` returns.
pub open spec fn variant_plans_outcome(
    outcome: Option<Result<Vec<VariantPlan>, syn::Error>>,
) -> Option<Result<Seq<VariantPlanView>, Seq<Seq<char>>>> {
    match outcome {
        None => None,
        Some(Ok(plans)) => Some(Ok(variant_plans_view(plans@))),
        Some(Err(error)) => Some(Err(error_messages(error))),
    }
}

/// The model of what `plan_enum` returns.
pub open spec fn enum_plan_outcome(outcome: Option<Result<EnumPlan, syn::Error>>) -> Option<
    Result<EnumPlanView, Seq<Seq<char>>>,
> {
    match outcome {
        None => None,
        Some(Ok(plan)) => Some(Ok(plan@)),
        Some(Err(error)) => Some(Err(error_messages(error))),
    }
}

/// Once a variant decides, those that follow it do not matter.
pub proof fn lemma_decided_early(
    item: InputView,
    variants: Seq<VariantView>,
    markers: Seq<Option<Seq<char>>>,
    i: int,
)
    requires
        0 <= i < variants.len(),
        markers.len() == variants.len(),
        !(variant_plans(item, variants.take(i + 1), markers.take(i + 1)) matches Some(Ok(_))),
    ensures
        variant_plans(item, variants, markers) == variant_plans(
            item,
            variants.take(i + 1),
            markers.take(i + 1),
        ),
    decreases variants.len(),
{
    if i + 1 == variants.len() {
        assert(variants.take(i + 1) =~= variants);
        assert(markers.take(i + 1) =~= markers);
    } else {
        assert(variants.drop_last().take(i + 1) =~= variants.take(i + 1));
        assert(markers.drop_last().take(i + 1) =~= markers.take(i + 1));
        lemma_decided_early(item, variants.drop_last(), markers.drop_last(), i);
    }
}

/// The markers of the first variants, with one that can be made for each of those that follow.
pub open spec fn filled_markers(
    item: InputView,
    variants: Seq<VariantView>,
    markers: Seq<Option<Seq<char>>>,
) -> Seq<Option<Seq<char>>> {
    Seq::new(
        variants.len(),
        |i: int|
            if i < markers.len() {
                markers[i]
            } else {
                let text = marker_name(item.ident, variants[i].ident);
                if plain_identifier(text) {
                    Some(text)
                } else {
                    None
                }
            },
    )
}

/// What the first variants decide stands, whatever markers the others have.
proof fn lemma_decided(
    item: InputView,
    variants: Seq<VariantView>,
    markers: Seq<Option<Seq<char>>>,
)
    requires
        0 < markers.len() <= variants.len(),
        markers_made(item, variants.take(markers.len() as int), markers),
        !(variant_plans(item, variants.take(markers.len() as int), markers) matches Some(Ok(_))),
    ensures
        markers_made(item, variants, filled_markers(item, variants, markers)),
        variant_plans(item, variants, filled_markers(item, variants, markers)) == variant_plans(
            item,
            variants.take(markers.len() as int),
            markers,
        ),
{
    let filled = filled_markers(item, variants, markers);
    assert(filled.take(markers.len() as int) =~= markers);
    assert forall|i: int| 0 <= i < variants.len() implies made_from(
        #[trigger] filled[i],
        marker_name(item.ident, variants[i].ident),
    ) by {
        if i < markers.len() {
            assert(filled[i] == markers[i]);
            assert(variants.take(markers.len() as int)[i] == variants[i]);
        }
    }
    lemma_decided_early(item, variants, filled, markers.len() - 1);
}

/// What is to be generated for the variants of an enum.
fn plan_variants(item: &Input, variants: &Vec<Variant>) -> (outcome: Option<
    Result<Vec<VariantPlan>, syn::Error>,
>)
    ensures
        exists|markers: Seq<Option<Seq<char>>>|
            {
                &&& #[trigger] markers_made(item@, variants_view(variants@), markers)
                &&& variant_plans_outcome(outcome) == variant_plans(
                    item@,
                    variants_view(variants@),
                    markers,
                )
            },
        outcome matches Some(Err(error)) ==> points_to(
            error,
            first_refused_place(variants_view(variants@)),
        ),
        outcome matches Some(Ok(plans)) ==> variants_kept(item.ident, variants@, plans@),
{
    let ghost view = variants_view(variants@);
    let ghost mut markers: Seq<Option<Seq<char>>> = Seq::empty();
    let enum_strum = any_attribute(&item.attributes, "strum");
    let mut plans: Vec<VariantPlan> = Vec::new();
    let mut i: usize = 0;
    assert(variant_plans_view(plans@) =~= Seq::<VariantPlanView>::empty());
    assert(view.skip(0) =~= view);
    while i < variants.len()
        invariant
            i <= variants.len(),
            view == variants_view(variants@),
            enum_strum == has_attribute(item@.attributes, "strum"@),
            markers_made(item@, view.take(i as int), markers),
            first_refused_place(view) == first_refused_place(view.skip(i as int)),
            variants_kept(item.ident, variants@.take(i as int), plans@),
            variant_plans(item@, view.take(i as int), markers) == Some(
                Ok::<Seq<VariantPlanView>, Seq<Seq<char>>>(variant_plans_view(plans@)),
            ),
        decreases variants.len() - i,
    {
        let variant = &variants[i];
        let ghost before = markers;
        proof {
            assert(view.take(i + 1).drop_last() =~= view.take(i as int));
            assert(view.take(i + 1).last() == variant@);
            assert(view.skip(i as int)[0] == variant@);
            assert(view.skip(i as int).skip(1) =~= view.skip(i + 1));
        }
        let payload = match variant_extract_type(variant) {
            Ok(payload) => payload,
            Err(error) => {
                proof {
                    markers = filled_markers(item@, view.take(i + 1), before);
                    assert(markers.drop_last() =~= before);
                    lemma_decided(item@, view, markers);
                }
                return Some(Err(error));
            },
        };
        let made = make_marker(&item.ident, &variant.ident);
        proof {
            markers = before.push(option_text(made));
            assert(markers.drop_last() =~= before);
            assert forall|j: int| 0 <= j < i + 1 implies made_from(
                #[trigger] markers[j],
                marker_name(item@.ident, view.take(i + 1)[j].ident),
            ) by {
                if j < i {
                    assert(markers[j] == before[j]);
                    assert(view.take(i as int)[j] == view.take(i + 1)[j]);
                }
            }
        }
        let marker = match made {
            Some(marker) => marker,
            None => {
                proof {
                    lemma_decided(item@, view, markers);
                }
                return None;
            },
        };
        let style = style_of(&variant.fields);
        let variant_strum = any_attribute(&variant.attributes, "strum");
        let plan = VariantPlan {
            ident: variant.ident.clone(),
            marker,
            style,
            displays_variant: style == FieldsStyle::Unit && (enum_strum || variant_strum),
            payload,
        };
        let ghost plans_before = variant_plans_view(plans@);
        plans.push(plan);
        assert(variant_plans_view(plans@) =~= plans_before.push(plan@));
        i = i + 1;
    }
    assert(view.take(view.len() as int) =~= view);
    assert(variants@.take(variants@.len() as int) =~= variants@);
    Some(Ok(plans))
}

/// What is to be generated for an item, or the error that it is refused with. `None` where a name
/// that is needed could not be made. An error points to what is wrong with a variant, or to the
/// item's name; the names that are made of the enum's point to it.
pub fn plan_enum(item: &Input) -> (outcome: Option<Result<EnumPlan, syn::Error>>)
    ensures
        enum_planned(item@, enum_plan_outcome(outcome)),
        outcome matches Some(Err(error)) ==> points_to(error, enum_plan_place(item@)),
        outcome matches Some(Ok(plan)) ==> enum_kept(*item, plan),
{
    match &item.body {
        Body::Enum(variants) => {
            let made = plan_variants(item, variants);
            let ghost view = variants_view(variants@);
            let ghost markers = choose|markers: Seq<Option<Seq<char>>>|
                {
                    &&& #[trigger] markers_made(item@, view, markers)
                    &&& variant_plans_outcome(made) == variant_plans(item@, view, markers)
                };
            let names = make_names("__bevy_enum_filter_", &item.ident);
            assert(made_for(item@, MadeNames { markers, names: option_names(names) }));
            match (made, names) {
                (None, _) => None,
                (Some(Err(error)), _) => Some(Err(error)),
                (Some(Ok(_)), None) => None,
                (Some(Ok(variants)), Some(names)) => Some(
                    Ok(
                        EnumPlan {
                            visibility: item.visibility.clone(),
                            ident: item.ident.clone(),
                            names,
                            variants,
                        },
                    ),
                ),
            }
        },
        _ => {
            assert(made_for(item@, MadeNames { markers: Seq::empty(), names: None }));
            Some(
                Err(
                    error_spanning(
                        &ident_stream(&item.ident),
                        "EnumFilter can only be derived for enums",
                    ),
                ),
            )
        },
    }
}

impl EnumPlan {
    /// The payload types of the variants, in order.
    pub fn payloads(&self) -> (payloads: Vec<Option<TokenStream>>)
        ensures
            payloads_view(payloads@) == self@.payloads(),
    {
        let mut payloads: Vec<Option<TokenStream>> = Vec::new();
        let mut i: usize = 0;
        while i < self.variants.len()
            invariant
                i <= self.variants.len(),
                payloads_view(payloads@) == self@.payloads().take(i as int),
            decreases self.variants.len() - i,
        {
            let payload = match &self.variants[i].payload {
                Some(ty) => Some(ty.clone()),
                None => None,
            };
            let ghost before = payloads_view(payloads@);
            payloads.push(payload);
            assert(payloads_view(payloads@) =~= before.push(payload_view(payload)));
            assert(self@.payloads()[i as int] == payload_view(payload));
            assert(self@.payloads().take(i + 1) =~= before.push(payload_view(payload)));
            i = i + 1;
        }
        assert(self@.payloads().take(self.variants.len() as int) =~= self@.payloads());
        payloads
    }
}

} // verus!
