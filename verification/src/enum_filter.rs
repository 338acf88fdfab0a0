//! `#[derive(EnumFilter)]`: marker components and a sync plugin for an enum component.
//!
//! Tuple variants with exactly one field can additionally opt into payload extraction with
//! `#[enum_filter(extract)]`: while the variant is active, a clone of its payload is kept in sync
//! as its own component on the entity, so systems can query the payload type directly instead of
//! matching through the enum. The payload type must implement `Component` and `Clone`. The enum
//! remains the source of truth; treat the extracted component as a read-only projection.

use proc_macro2::TokenStream;
use vstd::prelude::*;

use crate::enum_plan::{enum_plan, made_for, plan_enum, EnumPlan, EnumPlanView, MadeNames};
use crate::names::{payload_var, payload_var_name};
use crate::payload::{carriers, carrying_indexes, distinct_payload_types, distinct_types};
use crate::payload::{payloads_view, types_view};
use crate::routine::{address_context, cleanup_system_stream, cleanup_system_tokens, handle_tokens};
use crate::routine::{hook_stream, hook_tokens, plugin_tokens, register_tokens};
use crate::routine::{remove_markers_call, sync_markers_call, sync_system_stream};
use crate::routine::{sync_system_tokens, Handle, Routine, ADDRESS_QUERIED};
use crate::syntax::{compile_errors, parse_input, parsed_input, type_view};
use crate::syntax::{FieldsStyle, InputView, TypeView};
use crate::template::{quote, quoted, Holes};
use crate::token::{append, decimal, ident_stream, ident_string, joined, option_tokens};
use crate::token::{push_punct, stream_tokens, string_literal, usize_literal};
use crate::token::{Spacing, Token};

verus! {

/// A marker component.
pub const MARKER_STRUCT: &'static str = "
    #[doc = #doc]
    #[derive(::bevy_filter_enum::__private::bevy_ecs::prelude::Component, Debug, Default)]
    #vis struct #marker;
";

/// How a marker is displayed.
pub const MARKER_DISPLAY: &'static str = "
    impl ::core::fmt::Display for #marker {
        fn fmt(&self, f: &mut ::core::fmt::Formatter<'_>) -> ::core::fmt::Result {
            #body
        }
    }
";

/// The payload of a variant, where that variant is the value.
pub const PAYLOAD_LET: &'static str = "
    let #payload_var: ::core::option::Option<#payload_type> = match value {
        #enum_ident::#variant_ident(payload) => {
            ::core::option::Option::Some(::core::clone::Clone::clone(payload))
        }
        #none_arms
    };
";

/// Inserts the payload of a variant where it is there.
pub const PAYLOAD_INSERT: &'static str = "
    if let ::core::option::Option::Some(payload) = #payload_var {
        entity_commands.insert(payload);
    }
";

/// Inserts the payload of a variant.
pub const PAYLOAD_ARM: &'static str = "
    #enum_ident::#variant_ident(payload) => {
        ec.insert(::core::clone::Clone::clone(payload));
    }
";

/// Inserts or removes one marker.
pub const SYNC_MARKER: &'static str = "
    if active(#index) {
        entity.insert_if_new(#marker);
    } else {
        entity.remove::<#marker>();
    }
";

/// Removes a payload type that the active variant does not carry.
pub const STALE_REMOVAL: &'static str = "
    if !::core::matches!(variant_index, #carrying_indexes) {
        ec.remove::<#payload_type>();
    }
";

/// Reads the value of the entity that a hook runs for, and is done where it has none.
pub const READ_HELD: &'static str = "
    let ::core::option::Option::Some(value) = world.get::<#enum_ident>(context.entity) else {
        return;
    };
    let variant_index = ::bevy_filter_enum::EnumFilterValue::marker_index(value);
";

/// Reads the value that a system has come to.
pub const READ_QUERIED: &'static str = "
    let variant_index = ::bevy_filter_enum::EnumFilterValue::marker_index(value);
";

/// Removes the payload types that the active variant does not carry.
pub const REMOVE_STALE: &'static str = "
    {
        let ec = &mut #on;
        #remove_stale_payloads
    }
";

/// Gives the index of a value and syncs the markers.
pub const VALUE_IMPL: &'static str = "
    impl ::bevy_filter_enum::EnumFilterValue for #enum_ident {
        fn marker_index(&self) -> usize {
            match self {
                #index_arms
            }
        }

        fn sync_markers(
            active: impl Fn(usize) -> bool,
            entity: &mut ::bevy_filter_enum::__private::bevy_ecs::system::EntityCommands<'_>,
        ) {
            #marker_syncs
        }
    }
";

/// The tokens of one identifier.
pub open spec fn name(text: Seq<char>) -> Seq<Token> {
    seq![Token::Ident(text)]
}

/// The tokens of one string literal.
pub open spec fn text_literal(text: Seq<char>) -> Seq<Token> {
    seq![Token::Text(text)]
}

/// The tokens of one index.
pub open spec fn index_literal(index: nat) -> Seq<Token> {
    seq![Token::Literal(decimal(index) + "usize"@)]
}

/// The pattern that matches the variant at an index, whatever its fields hold.
pub open spec fn variant_pattern(plan: EnumPlanView, i: int) -> Seq<Token> {
    let holes = Seq::empty()
        .push(("enum_ident"@, name(plan.ident)))
        .push(("variant_ident"@, name(plan.variants[i].ident)));
    match plan.variants[i].style {
        FieldsStyle::Unit => quoted("#enum_ident::#variant_ident"@, holes),
        FieldsStyle::Unnamed => quoted("#enum_ident::#variant_ident(..)"@, holes),
        FieldsStyle::Named => quoted("#enum_ident::#variant_ident { .. }"@, holes),
    }
}

/// The documentation of the marker for a variant.
pub open spec fn marker_doc(plan: EnumPlanView, i: int) -> Seq<char> {
    "Marker component for [`"@ + plan.ident + "::"@ + plan.variants[i].ident + "`]."@
}

/// The documentation of the plugin.
pub open spec fn plugin_doc(plan: EnumPlanView) -> Seq<char> {
    "Plugin that syncs [`"@ + plan.ident + "`] variants to marker components."@
}

/// What is generated once for each variant.
#[derive(Clone, Copy, PartialEq, Eq, Structural)]
pub enum VariantPiece {
    /// The marker component.
    MarkerStruct,
    /// How the marker is displayed.
    MarkerDisplay,
    /// The arm that gives the index of the variant.
    IndexArm,
    /// The insertion or removal of the marker.
    MarkerSync,
    /// The payload, where one is extracted, held in a variable.
    PayloadLet,
    /// The insertion of the payload from that variable.
    PayloadInsert,
    /// The arm that inserts the payload, or does nothing where none is extracted.
    PayloadArm,
}

/// The arm that gives no payload for the variant at an index; nothing for the one excepted.
pub open spec fn none_arm(plan: EnumPlanView, except: int, i: int) -> Seq<Token> {
    if i == except {
        Seq::empty()
    } else {
        quoted(
            "#pattern => ::core::option::Option::None,"@,
            seq![("pattern"@, variant_pattern(plan, i))],
        )
    }
}

/// `none_arm` as a function of the index.
pub open spec fn none_arm_at(plan: EnumPlanView, except: int) -> spec_fn(int) -> Seq<Token> {
    |i: int| none_arm(plan, except, i)
}

/// The arms that give no payload, for every variant but one.
pub open spec fn none_arms(plan: EnumPlanView, except: int) -> Seq<Token> {
    joined(plan.variants.len(), none_arm_at(plan, except))
}

/// What is generated for the variant at an index.
pub open spec fn variant_piece(plan: EnumPlanView, piece: VariantPiece, i: int) -> Seq<Token> {
    let variant = plan.variants[i];
    match piece {
        VariantPiece::MarkerStruct => quoted(
            MARKER_STRUCT@,
            Seq::empty()
                .push(("doc"@, text_literal(marker_doc(plan, i))))
                .push(("vis"@, plan.visibility))
                .push(("marker"@, name(variant.marker))),
        ),
        VariantPiece::MarkerDisplay => {
            let body = if variant.displays_variant {
                quoted(
                    "::core::fmt::Display::fmt(&#enum_ident::#variant_ident, f)"@,
                    Seq::empty()
                        .push(("enum_ident"@, name(plan.ident)))
                        .push(("variant_ident"@, name(variant.ident))),
                )
            } else {
                quoted(
                    "f.write_str(#marker_display)"@,
                    seq![("marker_display"@, text_literal(variant.ident))],
                )
            };
            quoted(MARKER_DISPLAY@, Seq::empty()
                .push(("marker"@, name(variant.marker)))
                .push(("body"@, body)))
        },
        VariantPiece::IndexArm => quoted(
            "#pattern => #index,"@,
            Seq::empty()
                .push(("pattern"@, variant_pattern(plan, i)))
                .push(("index"@, index_literal(i as nat))),
        ),
        VariantPiece::MarkerSync => quoted(
            SYNC_MARKER@,
            Seq::empty()
                .push(("index"@, index_literal(i as nat)))
                .push(("marker"@, name(variant.marker))),
        ),
        VariantPiece::PayloadLet => match variant.payload {
            Some(ty) => quoted(
                PAYLOAD_LET@,
                Seq::empty()
                    .push(("payload_var"@, name(payload_var_name(i as nat))))
                    .push(("payload_type"@, ty.tokens))
                    .push(("enum_ident"@, name(plan.ident)))
                    .push(("variant_ident"@, name(variant.ident)))
                    .push(("none_arms"@, none_arms(plan, i))),
            ),
            None => Seq::empty(),
        },
        VariantPiece::PayloadInsert => match variant.payload {
            Some(_) => quoted(
                PAYLOAD_INSERT@,
                seq![("payload_var"@, name(payload_var_name(i as nat)))],
            ),
            None => Seq::empty(),
        },
        VariantPiece::PayloadArm => match variant.payload {
            Some(_) => quoted(
                PAYLOAD_ARM@,
                Seq::empty()
                    .push(("enum_ident"@, name(plan.ident)))
                    .push(("variant_ident"@, name(variant.ident))),
            ),
            None => quoted("#pattern => {}"@, seq![("pattern"@, variant_pattern(plan, i))]),
        },
    }
}

/// `variant_piece` as a function of the index.
pub open spec fn variant_piece_at(plan: EnumPlanView, piece: VariantPiece) -> spec_fn(int) -> Seq<
    Token,
> {
    |i: int| variant_piece(plan, piece, i)
}

/// What is generated for the variants, in order.
pub open spec fn variant_pieces(plan: EnumPlanView, piece: VariantPiece) -> Seq<Token> {
    joined(plan.variants.len(), variant_piece_at(plan, piece))
}

/// One alternative of a pattern: an index, after `|` where it is not the first.
pub open spec fn alternative(indexes: Seq<usize>, i: int) -> Seq<Token> {
    if i == 0 {
        index_literal(indexes[i] as nat)
    } else {
        seq![Token::Punct('|', Spacing::Alone)] + index_literal(indexes[i] as nat)
    }
}

/// `alternative` as a function of the place.
pub open spec fn alternative_at(indexes: Seq<usize>) -> spec_fn(int) -> Seq<Token> {
    |i: int| alternative(indexes, i)
}

/// The pattern that matches each of the indexes.
pub open spec fn alternatives(indexes: Seq<usize>) -> Seq<Token> {
    joined(indexes.len(), alternative_at(indexes))
}

/// The removal of a payload type where the active variant does not carry it.
pub open spec fn stale_removal(payloads: Seq<Option<TypeView>>, ty: TypeView) -> Seq<Token> {
    quoted(
        STALE_REMOVAL@,
        Seq::empty()
            .push(("carrying_indexes"@, alternatives(carriers(payloads, ty.text))))
            .push(("payload_type"@, ty.tokens)),
    )
}

/// `stale_removal` as a function of the place among the payload types.
pub open spec fn stale_removal_at(payloads: Seq<Option<TypeView>>) -> spec_fn(int) -> Seq<Token> {
    |i: int| stale_removal(payloads, distinct_types(payloads)[i])
}

/// The removal of each payload type that the active variant does not carry. Expects
/// `variant_index` and `ec` in scope.
pub open spec fn remove_stale_payloads(payloads: Seq<Option<TypeView>>) -> Seq<Token> {
    joined(distinct_types(payloads).len(), stale_removal_at(payloads))
}

/// One payload type and a comma.
pub open spec fn listed_type(ty: TypeView) -> Seq<Token> {
    quoted("#payload_type,"@, seq![("payload_type"@, ty.tokens)])
}

/// `listed_type` as a function of the place among the payload types.
pub open spec fn listed_type_at(payloads: Seq<Option<TypeView>>) -> spec_fn(int) -> Seq<Token> {
    |i: int| listed_type(distinct_types(payloads)[i])
}

/// The removal of every payload type. Expects `ec` in scope.
pub open spec fn remove_all_payloads(payloads: Seq<Option<TypeView>>) -> Seq<Token> {
    if distinct_types(payloads).len() == 0 {
        Seq::empty()
    } else {
        quoted(
            "ec.remove::<(#payload_types)>();"@,
            seq![
                (
                    "payload_types"@,
                    joined(distinct_types(payloads).len(), listed_type_at(payloads)),
                ),
            ],
        )
    }
}

/// The insertion of the payload of the active variant. Expects `value` and `ec` in scope.
pub open spec fn system_payload_sync(plan: EnumPlanView) -> Seq<Token> {
    if distinct_types(plan.payloads()).len() == 0 {
        Seq::empty()
    } else {
        quoted(
            "match value { #system_payload_arms }"@,
            seq![("system_payload_arms"@, variant_pieces(plan, VariantPiece::PayloadArm))],
        )
    }
}

/// One step of a function that is generated for an enum.
#[derive(Clone, Copy, PartialEq, Eq, Structural)]
pub enum Step {
    /// Reads the value of the entity that a hook runs for, and is done where it has none.
    ReadHeld,
    /// Reads the value that a system has come to.
    ReadQueried,
    /// Holds the payload of the variant at an index, where it has one and is the value.
    HoldPayload(usize),
    /// Addresses the entity that a hook runs for.
    AddressContext(Handle),
    /// Addresses the entity that a system has come to.
    AddressQueried,
    /// Inserts the marker of the value and removes the others.
    SyncMarkers(Handle),
    /// Removes the payload types that the value does not carry.
    RemoveStale(Handle),
    /// Inserts the payload that is held for the variant at an index.
    InsertHeld(usize),
    /// Inserts the payload of the value.
    InsertMatched,
    /// Removes every marker.
    RemoveMarkers(Handle),
    /// Removes every payload type.
    RemoveAll,
}

/// A step of holding the payload for each of a number of variants.
pub open spec fn hold_steps(count: nat) -> Seq<Step> {
    Seq::new(count, |i: int| Step::HoldPayload(i as usize))
}

/// A step of inserting the held payload for each of a number of variants.
pub open spec fn insert_steps(count: nat) -> Seq<Step> {
    Seq::new(count, |i: int| Step::InsertHeld(i as usize))
}

/// The steps of a function that is generated for an enum with the given number of variants.
pub open spec fn routine_steps(routine: Routine, count: nat) -> Seq<Step> {
    match routine {
        Routine::HookSync => Seq::empty().push(Step::ReadHeld) + hold_steps(count) + Seq::empty()
            .push(Step::AddressContext(Handle::EntityCommands))
            .push(Step::SyncMarkers(Handle::EntityCommands))
            .push(Step::RemoveStale(Handle::EntityCommands)) + insert_steps(count),
        Routine::HookCleanup => Seq::empty()
            .push(Step::AddressContext(Handle::Ec))
            .push(Step::RemoveMarkers(Handle::Ec))
            .push(Step::RemoveAll),
        Routine::Sync => Seq::empty()
            .push(Step::ReadQueried)
            .push(Step::AddressQueried)
            .push(Step::SyncMarkers(Handle::Ec))
            .push(Step::RemoveStale(Handle::Ec))
            .push(Step::InsertMatched),
        Routine::Cleanup => Seq::empty()
            .push(Step::AddressQueried)
            .push(Step::RemoveMarkers(Handle::Ec))
            .push(Step::RemoveAll),
    }
}

/// What is generated for a step.
pub open spec fn step_tokens(plan: EnumPlanView, step: Step) -> Seq<Token> {
    match step {
        Step::ReadHeld => quoted(READ_HELD@, seq![("enum_ident"@, name(plan.ident))]),
        Step::ReadQueried => quoted(READ_QUERIED@, Seq::empty()),
        Step::HoldPayload(i) => variant_piece(plan, VariantPiece::PayloadLet, i as int),
        Step::AddressContext(on) => address_context(on),
        Step::AddressQueried => quoted(ADDRESS_QUERIED@, Seq::empty()),
        Step::SyncMarkers(on) => sync_markers_call(
            name(plan.ident),
            quoted("index == variant_index"@, Seq::empty()),
            on,
        ),
        Step::RemoveStale(on) => quoted(
            REMOVE_STALE@,
            Seq::empty()
                .push(("on"@, handle_tokens(on)))
                .push(("remove_stale_payloads"@, remove_stale_payloads(plan.payloads()))),
        ),
        Step::InsertHeld(i) => variant_piece(plan, VariantPiece::PayloadInsert, i as int),
        Step::InsertMatched => system_payload_sync(plan),
        Step::RemoveMarkers(on) => remove_markers_call(name(plan.ident), on),
        Step::RemoveAll => remove_all_payloads(plan.payloads()),
    }
}

/// `step_tokens` as a function of the place among the steps.
pub open spec fn step_tokens_at(plan: EnumPlanView, steps: Seq<Step>) -> spec_fn(int) -> Seq<Token> {
    |i: int| step_tokens(plan, steps[i])
}

/// What is generated for the steps of a function, in order.
pub open spec fn routine_tokens(plan: EnumPlanView, routine: Routine) -> Seq<Token> {
    let steps = routine_steps(routine, plan.variants.len());
    joined(steps.len(), step_tokens_at(plan, steps))
}

/// All that is generated for an enum.
///
/// Payload projections are synced by removing the payload types the active variant does not carry
/// and (re)inserting the active variant's payload. A payload whose variant stays active is replaced
/// in place, so it reports `Discard` and `Insert` rather than a spurious `Remove` and `Add`.
pub open spec fn enum_filter_tokens(plan: EnumPlanView) -> Seq<Token> {
    variant_pieces(plan, VariantPiece::MarkerStruct) + variant_pieces(
        plan,
        VariantPiece::MarkerDisplay,
    ) + quoted(
        VALUE_IMPL@,
        Seq::empty()
            .push(("enum_ident"@, name(plan.ident)))
            .push(("index_arms"@, variant_pieces(plan, VariantPiece::IndexArm)))
            .push(("marker_syncs"@, variant_pieces(plan, VariantPiece::MarkerSync))),
    ) + plugin_tokens(text_literal(plugin_doc(plan)), plan.visibility, plan.names) + register_tokens(
        plan.ident,
        plan.names,
    ) + hook_tokens(plan.names.hook_sync, routine_tokens(plan, Routine::HookSync)) + hook_tokens(
        plan.names.hook_cleanup,
        routine_tokens(plan, Routine::HookCleanup),
    ) + sync_system_tokens(
        plan.names.sync,
        plan.ident,
        quoted("value"@, Seq::empty()),
        routine_tokens(plan, Routine::Sync),
    ) + cleanup_system_tokens(
        plan.names.cleanup,
        plan.ident,
        routine_tokens(plan, Routine::Cleanup),
    )
}

/// What the derive gives for an item, given what came of making the names: the code for it, or the
/// errors that it is refused with. `None` where a name that is needed could not be made.
pub open spec fn enum_filter_output(item: InputView, made: MadeNames) -> Option<Seq<Token>> {
    match enum_plan(item, made) {
        None => None,
        Some(Err(messages)) => Some(compile_errors(messages)),
        Some(Ok(plan)) => Some(enum_filter_tokens(plan)),
    }
}

/// Whether the derive can give `output` for a stream. What it gives for one that spells no item is
/// fixed; otherwise it goes by the item and by how the making of the names can go.
pub open spec fn enum_filter_gives(stream: TokenStream, output: Option<Seq<Token>>) -> bool {
    match parsed_input(stream) {
        Err(messages) => output == Some(compile_errors(messages)),
        Ok(item) => exists|made: MadeNames| #[trigger]
            made_for(item, made) && output == enum_filter_output(item, made),
    }
}

impl EnumPlan {
    /// The pattern that matches the variant at an index, whatever its fields hold.
    fn pattern(&self, i: usize) -> (pattern: TokenStream)
        requires
            i < self.variants.len(),
        ensures
            stream_tokens(pattern) == variant_pattern(self@, i as int),
    {
        let variant = &self.variants[i];
        assert(self@.variants[i as int] == variant@);
        let holes = Holes::new().with("enum_ident", &ident_stream(&self.ident)).with(
            "variant_ident",
            &ident_stream(&variant.ident),
        );
        match variant.style {
            FieldsStyle::Unit => quote("#enum_ident::#variant_ident", &holes),
            FieldsStyle::Unnamed => quote("#enum_ident::#variant_ident(..)", &holes),
            FieldsStyle::Named => quote("#enum_ident::#variant_ident { .. }", &holes),
        }
    }

    /// The documentation of the marker for a variant.
    fn doc_of_marker(&self, i: usize) -> (doc: String)
        requires
            i < self.variants.len(),
        ensures
            doc@ == marker_doc(self@, i as int),
    {
        assert(self@.variants[i as int] == self.variants[i as int]@);
        let mut doc = "Marker component for [`".to_owned();
        doc.append(ident_string(&self.ident).as_str());
        doc.append("::");
        doc.append(ident_string(&self.variants[i].ident).as_str());
        doc.append("`].");
        doc
    }

    /// The documentation of the plugin.
    fn doc_of_plugin(&self) -> (doc: String)
        ensures
            doc@ == plugin_doc(self@),
    {
        let mut doc = "Plugin that syncs [`".to_owned();
        doc.append(ident_string(&self.ident).as_str());
        doc.append("`] variants to marker components.");
        doc
    }

    /// The arms that give no payload, for every variant but one.
    fn arms_without(&self, except: usize) -> (arms: TokenStream)
        ensures
            stream_tokens(arms) == none_arms(self@, except as int),
    {
        let mut arms = TokenStream::new();
        let mut i: usize = 0;
        while i < self.variants.len()
            invariant
                i <= self.variants.len(),
                stream_tokens(arms) == joined(i as nat, none_arm_at(self@, except as int)),
            decreases self.variants.len() - i,
        {
            if i != except {
                let holes = Holes::new().with("pattern", &self.pattern(i));
                append(&mut arms, &quote("#pattern => ::core::option::Option::None,", &holes));
            }
            i = i + 1;
        }
        arms
    }

    /// What is generated for the variant at an index.
    fn piece(&self, piece: VariantPiece, i: usize) -> (tokens: TokenStream)
        requires
            i < self.variants.len(),
        ensures
            stream_tokens(tokens) == variant_piece(self@, piece, i as int),
    {
        let variant = &self.variants[i];
        assert(self@.variants[i as int] == variant@);
        let enum_ident = ident_stream(&self.ident);
        let variant_ident = ident_stream(&variant.ident);
        let marker = ident_stream(&variant.marker);
        match piece {
            VariantPiece::MarkerStruct => {
                let doc = string_literal(self.doc_of_marker(i).as_str());
                quote(
                    MARKER_STRUCT,
                    &Holes::new().with("doc", &doc).with("vis", &self.visibility).with(
                        "marker",
                        &marker,
                    ),
                )
            },
            VariantPiece::MarkerDisplay => {
                let body = if variant.displays_variant {
                    quote(
                        "::core::fmt::Display::fmt(&#enum_ident::#variant_ident, f)",
                        &Holes::new().with("enum_ident", &enum_ident).with(
                            "variant_ident",
                            &variant_ident,
                        ),
                    )
                } else {
                    let display = string_literal(ident_string(&variant.ident).as_str());
                    quote(
                        "f.write_str(#marker_display)",
                        &Holes::new().with("marker_display", &display),
                    )
                };
                quote(
                    MARKER_DISPLAY,
                    &Holes::new().with("marker", &marker).with("body", &body),
                )
            },
            VariantPiece::IndexArm => quote(
                "#pattern => #index,",
                &Holes::new().with("pattern", &self.pattern(i)).with("index", &usize_literal(i)),
            ),
            VariantPiece::MarkerSync => quote(
                SYNC_MARKER,
                &Holes::new().with("index", &usize_literal(i)).with("marker", &marker),
            ),
            VariantPiece::PayloadLet => match &variant.payload {
                Some(ty) => quote(
                    PAYLOAD_LET,
                    &Holes::new().with("payload_var", &ident_stream(&payload_var(i))).with(
                        "payload_type",
                        ty,
                    ).with("enum_ident", &enum_ident).with("variant_ident", &variant_ident).with(
                        "none_arms",
                        &self.arms_without(i),
                    ),
                ),
                None => TokenStream::new(),
            },
            VariantPiece::PayloadInsert => match &variant.payload {
                Some(_) => quote(
                    PAYLOAD_INSERT,
                    &Holes::new().with("payload_var", &ident_stream(&payload_var(i))),
                ),
                None => TokenStream::new(),
            },
            VariantPiece::PayloadArm => match &variant.payload {
                Some(_) => quote(
                    PAYLOAD_ARM,
                    &Holes::new().with("enum_ident", &enum_ident).with(
                        "variant_ident",
                        &variant_ident,
                    ),
                ),
                None => quote("#pattern => {}", &Holes::new().with("pattern", &self.pattern(i))),
            },
        }
    }

    /// What is generated for the variants, in order.
    fn pieces(&self, piece: VariantPiece) -> (tokens: TokenStream)
        ensures
            stream_tokens(tokens) == variant_pieces(self@, piece),
    {
        let mut tokens = TokenStream::new();
        let mut i: usize = 0;
        while i < self.variants.len()
            invariant
                i <= self.variants.len(),
                stream_tokens(tokens) == joined(i as nat, variant_piece_at(self@, piece)),
            decreases self.variants.len() - i,
        {
            append(&mut tokens, &self.piece(piece, i));
            i = i + 1;
        }
        tokens
    }
}

/// The pattern that matches each of the indexes.
fn index_pattern(indexes: &Vec<usize>) -> (pattern: TokenStream)
    ensures
        stream_tokens(pattern) == alternatives(indexes@),
{
    let mut pattern = TokenStream::new();
    let mut i: usize = 0;
    while i < indexes.len()
        invariant
            i <= indexes.len(),
            stream_tokens(pattern) == joined(i as nat, alternative_at(indexes@)),
        decreases indexes.len() - i,
    {
        let ghost before = stream_tokens(pattern);
        if i != 0 {
            push_punct(&mut pattern, '|', Spacing::Alone);
        }
        append(&mut pattern, &usize_literal(indexes[i]));
        assert(stream_tokens(pattern) =~= before + alternative(indexes@, i as int));
        i = i + 1;
    }
    pattern
}

/// The removal of each payload type that the active variant does not carry.
fn stale_removals(payloads: &Vec<Option<TokenStream>>, types: &Vec<TokenStream>) -> (tokens:
    TokenStream)
    requires
        types_view(types@) == distinct_types(payloads_view(payloads@)),
    ensures
        stream_tokens(tokens) == remove_stale_payloads(payloads_view(payloads@)),
{
    let mut tokens = TokenStream::new();
    let mut i: usize = 0;
    while i < types.len()
        invariant
            i <= types.len(),
            types_view(types@) == distinct_types(payloads_view(payloads@)),
            stream_tokens(tokens) == joined(
                i as nat,
                stale_removal_at(payloads_view(payloads@)),
            ),
        decreases types.len() - i,
    {
        assert(types_view(types@)[i as int] == type_view(types@[i as int]));
        let carrying = index_pattern(&carrying_indexes(payloads, &types[i]));
        let holes = Holes::new().with("carrying_indexes", &carrying).with(
            "payload_type",
            &types[i],
        );
        append(&mut tokens, &quote(STALE_REMOVAL, &holes));
        i = i + 1;
    }
    tokens
}

/// The removal of every payload type.
fn full_removal(payloads: &Vec<Option<TokenStream>>, types: &Vec<TokenStream>) -> (tokens:
    TokenStream)
    requires
        types_view(types@) == distinct_types(payloads_view(payloads@)),
    ensures
        stream_tokens(tokens) == remove_all_payloads(payloads_view(payloads@)),
{
    if types.len() == 0 {
        return TokenStream::new();
    }
    let mut listed = TokenStream::new();
    let mut i: usize = 0;
    while i < types.len()
        invariant
            i <= types.len(),
            types_view(types@) == distinct_types(payloads_view(payloads@)),
            stream_tokens(listed) == joined(i as nat, listed_type_at(payloads_view(payloads@))),
        decreases types.len() - i,
    {
        assert(types_view(types@)[i as int] == type_view(types@[i as int]));
        append(&mut listed, &quote("#payload_type,", &Holes::new().with("payload_type", &types[i])));
        i = i + 1;
    }
    quote("ec.remove::<(#payload_types)>();", &Holes::new().with("payload_types", &listed))
}

/// The steps of a function that is generated for an enum with the given number of variants.
fn steps_of(routine: Routine, count: usize) -> (steps: Vec<Step>)
    ensures
        steps@ == routine_steps(routine, count as nat),
{
    match routine {
        Routine::HookSync => {
            let mut steps: Vec<Step> = vec![Step::ReadHeld];
            let mut i: usize = 0;
            while i < count
                invariant
                    i <= count,
                    steps@ =~= Seq::empty().push(Step::ReadHeld) + hold_steps(i as nat),
                decreases count - i,
            {
                steps.push(Step::HoldPayload(i));
                i = i + 1;
            }
            steps.push(Step::AddressContext(Handle::EntityCommands));
            steps.push(Step::SyncMarkers(Handle::EntityCommands));
            steps.push(Step::RemoveStale(Handle::EntityCommands));
            let ghost before = steps@;
            let mut i: usize = 0;
            while i < count
                invariant
                    i <= count,
                    steps@ =~= before + insert_steps(i as nat),
                decreases count - i,
            {
                steps.push(Step::InsertHeld(i));
                i = i + 1;
            }
            steps
        },
        Routine::HookCleanup => vec![
            Step::AddressContext(Handle::Ec),
            Step::RemoveMarkers(Handle::Ec),
            Step::RemoveAll,
        ],
        Routine::Sync => vec![
            Step::ReadQueried,
            Step::AddressQueried,
            Step::SyncMarkers(Handle::Ec),
            Step::RemoveStale(Handle::Ec),
            Step::InsertMatched,
        ],
        Routine::Cleanup => vec![
            Step::AddressQueried,
            Step::RemoveMarkers(Handle::Ec),
            Step::RemoveAll,
        ],
    }
}

impl EnumPlan {
    /// What is generated for a step, given the payload types of the variants and the distinct ones
    /// among them.
    fn step(
        &self,
        step: Step,
        payloads: &Vec<Option<TokenStream>>,
        types: &Vec<TokenStream>,
    ) -> (tokens: TokenStream)
        requires
            payloads_view(payloads@) == self@.payloads(),
            types_view(types@) == distinct_types(self@.payloads()),
            step matches Step::HoldPayload(i) ==> i < self.variants.len(),
            step matches Step::InsertHeld(i) ==> i < self.variants.len(),
        ensures
            stream_tokens(tokens) == step_tokens(self@, step),
    {
        let enum_ident = ident_stream(&self.ident);
        match step {
            Step::ReadHeld => quote(READ_HELD, &Holes::new().with("enum_ident", &enum_ident)),
            Step::ReadQueried => quote(READ_QUERIED, &Holes::new()),
            Step::HoldPayload(i) => self.piece(VariantPiece::PayloadLet, i),
            Step::AddressContext(on) => on.addressed(),
            Step::AddressQueried => quote(ADDRESS_QUERIED, &Holes::new()),
            Step::SyncMarkers(on) => on.syncing(
                &enum_ident,
                &quote("index == variant_index", &Holes::new()),
            ),
            Step::RemoveStale(on) => quote(
                REMOVE_STALE,
                &Holes::new().with("on", &on.stream()).with(
                    "remove_stale_payloads",
                    &stale_removals(payloads, types),
                ),
            ),
            Step::InsertHeld(i) => self.piece(VariantPiece::PayloadInsert, i),
            Step::InsertMatched => if types.len() == 0 {
                TokenStream::new()
            } else {
                let arms = self.pieces(VariantPiece::PayloadArm);
                quote(
                    "match value { #system_payload_arms }",
                    &Holes::new().with("system_payload_arms", &arms),
                )
            },
            Step::RemoveMarkers(on) => on.removing(&enum_ident),
            Step::RemoveAll => full_removal(payloads, types),
        }
    }

    /// What is generated for the steps of a function, in order.
    fn routine(&self, routine: Routine) -> (tokens: TokenStream)
        ensures
            stream_tokens(tokens) == routine_tokens(self@, routine),
    {
        let payloads = self.payloads();
        let types = distinct_payload_types(&payloads);
        let steps = steps_of(routine, self.variants.len());
        let mut tokens = TokenStream::new();
        let mut i: usize = 0;
        while i < steps.len()
            invariant
                i <= steps.len(),
                payloads_view(payloads@) == self@.payloads(),
                types_view(types@) == distinct_types(self@.payloads()),
                steps@ == routine_steps(routine, self.variants.len() as nat),
                stream_tokens(tokens) == joined(i as nat, step_tokens_at(self@, steps@)),
            decreases steps.len() - i,
        {
            append(&mut tokens, &self.step(steps[i], &payloads, &types));
            i = i + 1;
        }
        tokens
    }
}

/// All that is generated for an enum.
pub fn render_enum(plan: &EnumPlan) -> (tokens: TokenStream)
    ensures
        stream_tokens(tokens) == enum_filter_tokens(plan@),
{
    let mut tokens = plan.pieces(VariantPiece::MarkerStruct);
    append(&mut tokens, &plan.pieces(VariantPiece::MarkerDisplay));
    let holes = Holes::new().with("enum_ident", &ident_stream(&plan.ident)).with(
        "index_arms",
        &plan.pieces(VariantPiece::IndexArm),
    ).with("marker_syncs", &plan.pieces(VariantPiece::MarkerSync));
    append(&mut tokens, &quote(VALUE_IMPL, &holes));
    let doc = string_literal(plan.doc_of_plugin().as_str());
    append(&mut tokens, &plan.names.plugin_stream(&doc, &plan.visibility));
    append(&mut tokens, &plan.names.register_stream(&plan.ident));
    append(&mut tokens, &hook_stream(&plan.names.hook_sync, &plan.routine(Routine::HookSync)));
    append(
        &mut tokens,
        &hook_stream(&plan.names.hook_cleanup, &plan.routine(Routine::HookCleanup)),
    );
    append(
        &mut tokens,
        &sync_system_stream(
            &plan.names.sync,
            &plan.ident,
            &quote("value", &Holes::new()),
            &plan.routine(Routine::Sync),
        ),
    );
    append(
        &mut tokens,
        &cleanup_system_stream(
            &plan.names.cleanup,
            &plan.ident,
            &plan.routine(Routine::Cleanup),
        ),
    );
    tokens
}

/// Derives marker components and a sync plugin for an enum component. `None` where a name that is
/// needed could not be made: it is not that of an identifier, or the compiler at hand does not take
/// it for one.
pub fn derive_enum_filter(input: TokenStream) -> (output: Option<TokenStream>)
    ensures
        enum_filter_gives(input, option_tokens(output)),
{
    let item = match parse_input(input) {
        Ok(item) => item,
        Err(error) => return Some(error.to_compile_error()),
    };
    match plan_enum(&item) {
        Some(Ok(plan)) => Some(render_enum(&plan)),
        Some(Err(error)) => Some(error.to_compile_error()),
        None => None,
    }
}

} // verus!
