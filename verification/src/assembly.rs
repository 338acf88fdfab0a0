//! How the generated code is put together: nothing is left out, repeated or out of order.

use vstd::prelude::*;

use crate::collection::{collection_routine_tokens, collection_step_tokens, collection_tokens};
use crate::collection::{collection_step_tokens_at, collection_steps, CollectionPlanView};
use crate::collection::CollectionStep;
use crate::enum_filter::{alternative_at, alternatives, enum_filter_tokens, hold_steps};
use crate::enum_filter::{index_literal, insert_steps, listed_type_at, name, none_arm_at, none_arms};
use crate::enum_filter::{remove_stale_payloads, routine_steps, routine_tokens, stale_removal_at};
use crate::enum_filter::{step_tokens, step_tokens_at, text_literal, variant_pattern};
use crate::enum_filter::{variant_piece, variant_piece_at, variant_pieces, Step, VariantPiece};
use crate::enum_filter::{MARKER_DISPLAY, VALUE_IMPL};
use crate::enum_plan::EnumPlanView;
use crate::items::{law_collection_is_spelled, law_value_is_spelled};
use crate::payload::{carriers, distinct_types};
use crate::routine::{address_context, cleanup_system_tokens, hook_tokens, plugin_tokens};
use crate::routine::{register_tokens, remove_markers_call, sync_markers_call};
use crate::routine::{sync_system_tokens, Handle, Routine};
use crate::spelling::{glued_mark, law_active_index_is_spelled, law_active_indexes_are_spelled};
use crate::spelling::law_listed_type_is_spelled;
use crate::spelling::{law_name_display_is_spelled, law_none_arm_is_spelled};
use crate::spelling::{law_remove_all_is_spelled, law_stale_removal_is_spelled};
use crate::spelling::{law_struct_pattern_is_spelled, law_tuple_pattern_is_spelled};
use crate::spelling::{law_unit_pattern_is_spelled, law_variant_display_is_spelled, mark, word};
use crate::syntax::{compile_error_tokens, compile_errors, FieldsStyle, TypeView};
use crate::template::quoted;
use crate::token::{decimal, joined, Delimiter, Token};

verus! {

/// Pieces that are joined are concatenated in order.
pub proof fn law_joined_pieces_are_concatenated(count: nat, piece: spec_fn(int) -> Seq<Token>)
    ensures
        joined(count, piece) == Seq::new(count, piece).flatten(),
    decreases count,
{
    if count == 0 {
        assert(Seq::new(count, piece) =~= Seq::empty());
    } else {
        let before = (count - 1) as nat;
        law_joined_pieces_are_concatenated(before, piece);
        assert(Seq::new(count, piece) =~= Seq::new(before, piece).push(piece(count - 1)));
        Seq::new(before, piece).lemma_flatten_push(piece(count - 1));
    }
}

/// An identifier, a text and an index are one token each.
pub proof fn law_single_tokens(text: Seq<char>, index: nat)
    ensures
        name(text) == seq![Token::Ident(text)],
        text_literal(text) == seq![Token::Text(text)],
        index_literal(index) == seq![Token::Literal(decimal(index) + "usize"@)],
{
}

/// The pattern of a variant is the enum's name, `::` and the variant's name, followed by nothing,
/// `(..)` or `{ .. }` as its fields have it.
pub proof fn law_pattern_is_the_path_of_the_variant(plan: EnumPlanView, i: int)
    ensures
        variant_pattern(plan, i) == seq![
            word(plan.ident),
            glued_mark(':'),
            mark(':'),
            word(plan.variants[i].ident),
        ] + match plan.variants[i].style {
            FieldsStyle::Unit => Seq::<Token>::empty(),
            FieldsStyle::Unnamed => seq![
                Token::Group(Delimiter::Parenthesis, seq![glued_mark('.'), mark('.')]),
            ],
            FieldsStyle::Named => seq![
                Token::Group(Delimiter::Brace, seq![glued_mark('.'), mark('.')]),
            ],
        },
{
    match plan.variants[i].style {
        FieldsStyle::Unit => law_unit_pattern_is_spelled(plan, i),
        FieldsStyle::Unnamed => law_tuple_pattern_is_spelled(plan, i),
        FieldsStyle::Named => law_struct_pattern_is_spelled(plan, i),
    }
}

/// Variants of different names have different patterns, so a value matches that of its own variant
/// and no other.
pub proof fn law_patterns_differ(plan: EnumPlanView, i: int, j: int)
    requires
        plan.variants[i].ident != plan.variants[j].ident,
    ensures
        variant_pattern(plan, i) != variant_pattern(plan, j),
{
    law_pattern_is_the_path_of_the_variant(plan, i);
    law_pattern_is_the_path_of_the_variant(plan, j);
    assert(variant_pattern(plan, i)[3] == word(plan.variants[i].ident));
    assert(variant_pattern(plan, j)[3] == word(plan.variants[j].ident));
}

/// What is generated for the variants is there for every variant, in order.
pub proof fn law_every_variant_has_its_piece(plan: EnumPlanView, piece: VariantPiece)
    ensures
        variant_pieces(plan, piece) == Seq::new(
            plan.variants.len(),
            |i: int| variant_piece(plan, piece, i),
        ).flatten(),
{
    let pieces = |i: int| variant_piece(plan, piece, i);
    law_joined_pieces_are_concatenated(
        plan.variants.len(),
        variant_piece_at(plan, piece),
    );
    assert(Seq::new(plan.variants.len(), pieces) =~= Seq::new(
        plan.variants.len(),
        variant_piece_at(plan, piece),
    ));
}

/// How a marker is displayed: as the variant is, where the plan says so, else by the variant's
/// name.
pub proof fn law_marker_is_displayed(plan: EnumPlanView, i: int)
    ensures
        variant_piece(plan, VariantPiece::MarkerDisplay, i) == quoted(
            MARKER_DISPLAY@,
            Seq::empty().push(("marker"@, seq![word(plan.variants[i].marker)])).push(
                (
                    "body"@,
                    if plan.variants[i].displays_variant {
                        seq![
                            glued_mark(':'),
                            mark(':'),
                            word("core"@),
                            glued_mark(':'),
                            mark(':'),
                            word("fmt"@),
                            glued_mark(':'),
                            mark(':'),
                            word("Display"@),
                            glued_mark(':'),
                            mark(':'),
                            word("fmt"@),
                            Token::Group(
                                Delimiter::Parenthesis,
                                seq![mark('&')] + seq![word(plan.ident)] + seq![
                                    glued_mark(':'),
                                    mark(':'),
                                ] + seq![word(plan.variants[i].ident)] + seq![
                                    mark(','),
                                    word("f"@),
                                ],
                            ),
                        ]
                    } else {
                        seq![
                            word("f"@),
                            mark('.'),
                            word("write_str"@),
                            Token::Group(
                                Delimiter::Parenthesis,
                                seq![Token::Text(plan.variants[i].ident)],
                            ),
                        ]
                    },
                ),
            ),
        ),
{
    law_variant_display_is_spelled(plan, i);
    law_name_display_is_spelled(plan, i);
}

/// A variant without a payload holds and inserts none.
pub proof fn law_no_payload_no_piece(plan: EnumPlanView, i: int)
    requires
        plan.variants[i].payload is None,
    ensures
        variant_piece(plan, VariantPiece::PayloadLet, i) == Seq::<Token>::empty(),
        variant_piece(plan, VariantPiece::PayloadInsert, i) == Seq::<Token>::empty(),
{
}

/// Every variant but the one excepted has an arm that gives no payload, in order.
pub proof fn law_every_other_variant_gives_none(plan: EnumPlanView, except: int)
    ensures
        none_arms(plan, except) == Seq::new(
            plan.variants.len(),
            |i: int|
                if i == except {
                    Seq::<Token>::empty()
                } else {
                    variant_pattern(plan, i) + seq![
                        glued_mark('='),
                        mark('>'),
                        glued_mark(':'),
                        mark(':'),
                        word("core"@),
                        glued_mark(':'),
                        mark(':'),
                        word("option"@),
                        glued_mark(':'),
                        mark(':'),
                        word("Option"@),
                        glued_mark(':'),
                        mark(':'),
                        word("None"@),
                        mark(','),
                    ]
                },
        ).flatten(),
{
    let arms = |i: int|
        if i == except {
            Seq::<Token>::empty()
        } else {
            variant_pattern(plan, i) + seq![
                glued_mark('='),
                mark('>'),
                glued_mark(':'),
                mark(':'),
                word("core"@),
                glued_mark(':'),
                mark(':'),
                word("option"@),
                glued_mark(':'),
                mark(':'),
                word("Option"@),
                glued_mark(':'),
                mark(':'),
                word("None"@),
                mark(','),
            ]
        };
    let given = none_arm_at(plan, except);
    law_joined_pieces_are_concatenated(plan.variants.len(), given);
    assert forall|i: int| 0 <= i < plan.variants.len() implies #[trigger] given(i) == arms(i) by {
        if i != except {
            law_none_arm_is_spelled(plan, except, i);
        }
    }
    assert(Seq::new(plan.variants.len(), arms) =~= Seq::new(plan.variants.len(), given));
}

/// A pattern of indexes has each of them, in order, with `|` before all but the first.
pub proof fn law_every_index_is_an_alternative(indexes: Seq<usize>)
    ensures
        alternatives(indexes) == Seq::new(
            indexes.len(),
            |i: int|
                (if i == 0 {
                    Seq::empty()
                } else {
                    seq![mark('|')]
                }) + seq![Token::Literal(decimal(indexes[i] as nat) + "usize"@)],
        ).flatten(),
{
    let pieces = |i: int|
        (if i == 0 {
            Seq::empty()
        } else {
            seq![mark('|')]
        }) + seq![Token::Literal(decimal(indexes[i] as nat) + "usize"@)];
    let given = alternative_at(indexes);
    law_joined_pieces_are_concatenated(indexes.len(), given);
    assert forall|i: int| 0 <= i < indexes.len() implies #[trigger] given(i) == pieces(i) by {
        assert(given(i) =~= pieces(i));
    }
    assert(Seq::new(indexes.len(), pieces) =~= Seq::new(indexes.len(), given));
}

/// Every distinct payload type is removed, in order, where the index is none of those of the
/// variants that carry it.
pub proof fn law_every_stale_type_is_removed(payloads: Seq<Option<TypeView>>)
    ensures
        remove_stale_payloads(payloads) == Seq::new(
            distinct_types(payloads).len(),
            |k: int|
                seq![
                    word("if"@),
                    mark('!'),
                    glued_mark(':'),
                    mark(':'),
                    word("core"@),
                    glued_mark(':'),
                    mark(':'),
                    word("matches"@),
                    mark('!'),
                    Token::Group(
                        Delimiter::Parenthesis,
                        seq![word("variant_index"@), mark(',')] + alternatives(
                            carriers(payloads, distinct_types(payloads)[k].text),
                        ),
                    ),
                    Token::Group(
                        Delimiter::Brace,
                        seq![
                            word("ec"@),
                            mark('.'),
                            word("remove"@),
                            glued_mark(':'),
                            mark(':'),
                            mark('<'),
                        ] + distinct_types(payloads)[k].tokens + seq![
                            mark('>'),
                            Token::Group(Delimiter::Parenthesis, Seq::empty()),
                            mark(';'),
                        ],
                    ),
                ],
        ).flatten(),
{
    let types = distinct_types(payloads);
    let removals = |k: int|
        seq![
            word("if"@),
            mark('!'),
            glued_mark(':'),
            mark(':'),
            word("core"@),
            glued_mark(':'),
            mark(':'),
            word("matches"@),
            mark('!'),
            Token::Group(
                Delimiter::Parenthesis,
                seq![word("variant_index"@), mark(',')] + alternatives(
                    carriers(payloads, distinct_types(payloads)[k].text),
                ),
            ),
            Token::Group(
                Delimiter::Brace,
                seq![
                    word("ec"@),
                    mark('.'),
                    word("remove"@),
                    glued_mark(':'),
                    mark(':'),
                    mark('<'),
                ] + distinct_types(payloads)[k].tokens + seq![
                    mark('>'),
                    Token::Group(Delimiter::Parenthesis, Seq::empty()),
                    mark(';'),
                ],
            ),
        ];
    let given = stale_removal_at(payloads);
    law_joined_pieces_are_concatenated(types.len(), given);
    assert forall|k: int| 0 <= k < types.len() implies #[trigger] given(k) == removals(k) by {
        law_stale_removal_is_spelled(payloads, types[k]);
    }
    assert(Seq::new(types.len(), removals) =~= Seq::new(types.len(), given));
}

/// The removal of all payload types lists every distinct one, in order, each with a comma.
pub proof fn law_every_type_is_removed_at_once(plan: EnumPlanView)
    requires
        distinct_types(plan.payloads()).len() > 0,
    ensures
        step_tokens(plan, Step::RemoveAll) == seq![
            word("ec"@),
            mark('.'),
            word("remove"@),
            glued_mark(':'),
            mark(':'),
            mark('<'),
            Token::Group(
                Delimiter::Parenthesis,
                Seq::new(
                    distinct_types(plan.payloads()).len(),
                    |k: int| distinct_types(plan.payloads())[k].tokens + seq![mark(',')],
                ).flatten(),
            ),
            mark('>'),
            Token::Group(Delimiter::Parenthesis, Seq::empty()),
            mark(';'),
        ],
{
    let types = distinct_types(plan.payloads());
    let listed = |k: int| distinct_types(plan.payloads())[k].tokens + seq![mark(',')];
    let given = listed_type_at(plan.payloads());
    law_remove_all_is_spelled(plan);
    law_joined_pieces_are_concatenated(types.len(), given);
    assert forall|k: int| 0 <= k < types.len() implies #[trigger] given(k) == listed(k) by {
        law_listed_type_is_spelled(types[k]);
    }
    assert(Seq::new(types.len(), listed) =~= Seq::new(types.len(), given));
}

/// The payloads of a plan are those of its variants.
pub proof fn law_payloads_are_those_of_the_variants(plan: EnumPlanView)
    ensures
        plan.payloads().len() == plan.variants.len(),
        forall|i: int|
            0 <= i < plan.variants.len() ==> #[trigger] plan.payloads()[i]
                == plan.variants[i].payload,
{
}

/// The errors of an item are reported one by one, in order.
pub proof fn law_every_message_is_reported(messages: Seq<Seq<char>>)
    ensures
        compile_errors(messages) == Seq::new(
            messages.len(),
            |i: int|
                seq![
                    glued_mark(':'),
                    mark(':'),
                    word("core"@),
                    glued_mark(':'),
                    mark(':'),
                    word("compile_error"@),
                    mark('!'),
                    Token::Group(Delimiter::Brace, seq![Token::Text(messages[i])]),
                ],
        ).flatten(),
{
    let reports = |i: int|
        seq![
            glued_mark(':'),
            mark(':'),
            word("core"@),
            glued_mark(':'),
            mark(':'),
            word("compile_error"@),
            mark('!'),
            Token::Group(Delimiter::Brace, seq![Token::Text(messages[i])]),
        ];
    let given = |i: int| compile_error_tokens(messages[i]);
    law_joined_pieces_are_concatenated(messages.len(), given);
    assert forall|i: int| 0 <= i < messages.len() implies #[trigger] given(i) == reports(i) by {}
    assert(Seq::new(messages.len(), reports) =~= Seq::new(messages.len(), given));
    assert(compile_errors(messages) =~= joined(messages.len(), given));
}

/// Pieces that agree are joined to the same.
proof fn lemma_joined_agree(
    count: nat,
    left: spec_fn(int) -> Seq<Token>,
    right: spec_fn(int) -> Seq<Token>,
)
    requires
        forall|i: int| 0 <= i < count ==> #[trigger] left(i) == right(i),
    ensures
        joined(count, left) == joined(count, right),
    decreases count,
{
    if count > 0 {
        lemma_joined_agree((count - 1) as nat, left, right);
        assert(left(count - 1) == right(count - 1));
    }
}

/// What is generated for steps.
spec fn rendered(plan: EnumPlanView, steps: Seq<Step>) -> Seq<Token> {
    joined(steps.len(), step_tokens_at(plan, steps))
}

/// What is generated for one more step follows what is generated for the others.
proof fn lemma_rendered_push(plan: EnumPlanView, steps: Seq<Step>, step: Step)
    ensures
        rendered(plan, steps.push(step)) == rendered(plan, steps) + step_tokens(plan, step),
{
    let more = steps.push(step);
    lemma_joined_agree(steps.len(), step_tokens_at(plan, more), step_tokens_at(plan, steps));
    assert(more[steps.len() as int] == step);
}

/// What is generated for one step.
proof fn lemma_rendered_one(plan: EnumPlanView, step: Step)
    ensures
        rendered(plan, Seq::empty().push(step)) == step_tokens(plan, step),
{
    lemma_rendered_push(plan, Seq::empty(), step);
    assert(rendered(plan, Seq::empty()) =~= Seq::empty());
    assert(Seq::<Token>::empty() + step_tokens(plan, step) =~= step_tokens(plan, step));
}

/// What is generated for the steps that hold payloads follows what stands before them.
proof fn lemma_rendered_holds(plan: EnumPlanView, before: Seq<Step>, count: nat)
    requires
        count <= usize::MAX,
    ensures
        rendered(plan, before + hold_steps(count)) == rendered(plan, before) + Seq::new(
            count,
            |i: int| variant_piece(plan, VariantPiece::PayloadLet, i),
        ).flatten(),
    decreases count,
{
    let pieces = |i: int| variant_piece(plan, VariantPiece::PayloadLet, i);
    if count == 0 {
        assert(before + hold_steps(count) =~= before);
        assert(Seq::new(count, pieces) =~= Seq::empty());
        assert(rendered(plan, before) + Seq::<Token>::empty() =~= rendered(plan, before));
    } else {
        let fewer = (count - 1) as nat;
        let step = Step::HoldPayload((count - 1) as usize);
        lemma_rendered_holds(plan, before, fewer);
        assert(before + hold_steps(count) =~= (before + hold_steps(fewer)).push(step));
        lemma_rendered_push(plan, before + hold_steps(fewer), step);
        assert(Seq::new(count, pieces) =~= Seq::new(fewer, pieces).push(pieces(count - 1)));
        Seq::new(fewer, pieces).lemma_flatten_push(pieces(count - 1));
    }
}

/// What is generated for the steps that insert held payloads follows what stands before them.
proof fn lemma_rendered_inserts(plan: EnumPlanView, before: Seq<Step>, count: nat)
    requires
        count <= usize::MAX,
    ensures
        rendered(plan, before + insert_steps(count)) == rendered(plan, before) + Seq::new(
            count,
            |i: int| variant_piece(plan, VariantPiece::PayloadInsert, i),
        ).flatten(),
    decreases count,
{
    let pieces = |i: int| variant_piece(plan, VariantPiece::PayloadInsert, i);
    if count == 0 {
        assert(before + insert_steps(count) =~= before);
        assert(Seq::new(count, pieces) =~= Seq::empty());
        assert(rendered(plan, before) + Seq::<Token>::empty() =~= rendered(plan, before));
    } else {
        let fewer = (count - 1) as nat;
        let step = Step::InsertHeld((count - 1) as usize);
        lemma_rendered_inserts(plan, before, fewer);
        assert(before + insert_steps(count) =~= (before + insert_steps(fewer)).push(step));
        lemma_rendered_push(plan, before + insert_steps(fewer), step);
        assert(Seq::new(count, pieces) =~= Seq::new(fewer, pieces).push(pieces(count - 1)));
        Seq::new(fewer, pieces).lemma_flatten_push(pieces(count - 1));
    }
}

/// The insert hook of an enum reads the value, holds the payload of every variant that has one,
/// addresses the entity, syncs the markers to the index of the value, removes the stale payload
/// types, and inserts every payload that it holds.
pub proof fn law_insert_hook_is_put_together(plan: EnumPlanView)
    requires
        plan.variants.len() <= usize::MAX,
    ensures
        routine_tokens(plan, Routine::HookSync) == step_tokens(plan, Step::ReadHeld) + Seq::new(
            plan.variants.len(),
            |i: int| variant_piece(plan, VariantPiece::PayloadLet, i),
        ).flatten() + address_context(Handle::EntityCommands) + sync_markers_call(
            seq![word(plan.ident)],
            seq![word("index"@), glued_mark('='), mark('='), word("variant_index"@)],
            Handle::EntityCommands,
        ) + step_tokens(plan, Step::RemoveStale(Handle::EntityCommands)) + Seq::new(
            plan.variants.len(),
            |i: int| variant_piece(plan, VariantPiece::PayloadInsert, i),
        ).flatten(),
{
    let count = plan.variants.len();
    let on = Handle::EntityCommands;
    let read = Seq::empty().push(Step::ReadHeld);
    lemma_rendered_one(plan, Step::ReadHeld);
    lemma_rendered_holds(plan, read, count);
    let held = read + hold_steps(count);
    lemma_rendered_push(plan, held, Step::AddressContext(on));
    let addressed = held.push(Step::AddressContext(on));
    lemma_rendered_push(plan, addressed, Step::SyncMarkers(on));
    let synced = addressed.push(Step::SyncMarkers(on));
    lemma_rendered_push(plan, synced, Step::RemoveStale(on));
    let cleared = synced.push(Step::RemoveStale(on));
    lemma_rendered_inserts(plan, cleared, count);
    assert(routine_steps(Routine::HookSync, count) =~= cleared + insert_steps(count));
    law_active_index_is_spelled();
}

/// The system that syncs an enum reads the index of the value, addresses the entity, syncs the
/// markers to that index, removes the stale payload types, and inserts the payload of the value.
pub proof fn law_sync_system_is_put_together(plan: EnumPlanView)
    ensures
        routine_tokens(plan, Routine::Sync) == step_tokens(plan, Step::ReadQueried) + step_tokens(
            plan,
            Step::AddressQueried,
        ) + sync_markers_call(
            seq![word(plan.ident)],
            seq![word("index"@), glued_mark('='), mark('='), word("variant_index"@)],
            Handle::Ec,
        ) + step_tokens(plan, Step::RemoveStale(Handle::Ec)) + step_tokens(
            plan,
            Step::InsertMatched,
        ),
{
    let read = Seq::empty().push(Step::ReadQueried);
    lemma_rendered_one(plan, Step::ReadQueried);
    lemma_rendered_push(plan, read, Step::AddressQueried);
    let addressed = read.push(Step::AddressQueried);
    lemma_rendered_push(plan, addressed, Step::SyncMarkers(Handle::Ec));
    let synced = addressed.push(Step::SyncMarkers(Handle::Ec));
    lemma_rendered_push(plan, synced, Step::RemoveStale(Handle::Ec));
    let cleared = synced.push(Step::RemoveStale(Handle::Ec));
    lemma_rendered_push(plan, cleared, Step::InsertMatched);
    law_active_index_is_spelled();
}

/// The remove hook and the cleanup system of an enum address the entity, remove every marker, and
/// remove every payload type.
pub proof fn law_cleanups_are_put_together(plan: EnumPlanView)
    ensures
        routine_tokens(plan, Routine::HookCleanup) == address_context(Handle::Ec)
            + remove_markers_call(seq![word(plan.ident)], Handle::Ec) + step_tokens(
            plan,
            Step::RemoveAll,
        ),
        routine_tokens(plan, Routine::Cleanup) == step_tokens(plan, Step::AddressQueried)
            + remove_markers_call(seq![word(plan.ident)], Handle::Ec) + step_tokens(
            plan,
            Step::RemoveAll,
        ),
{
    let hook = Seq::empty().push(Step::AddressContext(Handle::Ec));
    lemma_rendered_one(plan, Step::AddressContext(Handle::Ec));
    lemma_rendered_push(plan, hook, Step::RemoveMarkers(Handle::Ec));
    lemma_rendered_push(plan, hook.push(Step::RemoveMarkers(Handle::Ec)), Step::RemoveAll);
    let system = Seq::empty().push(Step::AddressQueried);
    lemma_rendered_one(plan, Step::AddressQueried);
    lemma_rendered_push(plan, system, Step::RemoveMarkers(Handle::Ec));
    lemma_rendered_push(plan, system.push(Step::RemoveMarkers(Handle::Ec)), Step::RemoveAll);
}

/// Where no payload is extracted, the payload of the value is not asked for and no payload type is
/// removed.
pub proof fn law_no_types_no_steps(plan: EnumPlanView)
    requires
        distinct_types(plan.payloads()).len() == 0,
    ensures
        step_tokens(plan, Step::InsertMatched) == Seq::<Token>::empty(),
        step_tokens(plan, Step::RemoveAll) == Seq::<Token>::empty(),
{
}

/// The code for an enum: the markers and how they are displayed, the impl with the arm and the sync
/// of every variant, the plugin, the registration of its hooks, the two hooks and the two systems,
/// each under its own name.
pub proof fn law_enum_code_is_put_together(plan: EnumPlanView)
    ensures
        enum_filter_tokens(plan) == variant_pieces(plan, VariantPiece::MarkerStruct)
            + variant_pieces(plan, VariantPiece::MarkerDisplay) + quoted(
            VALUE_IMPL@,
            Seq::empty()
                .push(("enum_ident"@, seq![word(plan.ident)]))
                .push(("index_arms"@, variant_pieces(plan, VariantPiece::IndexArm)))
                .push(("marker_syncs"@, variant_pieces(plan, VariantPiece::MarkerSync))),
        ) + plugin_tokens(
            seq![
                Token::Text(
                    "Plugin that syncs [`"@ + plan.ident + "`] variants to marker components."@,
                ),
            ],
            plan.visibility,
            plan.names,
        ) + register_tokens(plan.ident, plan.names) + hook_tokens(
            plan.names.hook_sync,
            routine_tokens(plan, Routine::HookSync),
        ) + hook_tokens(plan.names.hook_cleanup, routine_tokens(plan, Routine::HookCleanup))
            + sync_system_tokens(
            plan.names.sync,
            plan.ident,
            seq![word("value"@)],
            routine_tokens(plan, Routine::Sync),
        ) + cleanup_system_tokens(
            plan.names.cleanup,
            plan.ident,
            routine_tokens(plan, Routine::Cleanup),
        ),
{
    law_value_is_spelled();
}

/// The functions of a collection: the insert hook and the system read the indexes of the values,
/// address the entity and sync the markers to those indexes; the remove hook and the cleanup system
/// address the entity and remove every marker.
pub proof fn law_collection_functions_are_put_together(plan: CollectionPlanView)
    ensures
        collection_routine_tokens(plan, Routine::HookSync) == collection_step_tokens(
            plan,
            CollectionStep::ReadHeld,
        ) + address_context(Handle::EntityCommands) + sync_markers_call(
            plan.config.enum_path,
            seq![
                word("marker_indexes"@),
                mark('.'),
                word("contains"@),
                Token::Group(Delimiter::Parenthesis, seq![mark('&'), word("index"@)]),
            ],
            Handle::EntityCommands,
        ),
        collection_routine_tokens(plan, Routine::Sync) == collection_step_tokens(
            plan,
            CollectionStep::ReadQueried,
        ) + collection_step_tokens(plan, CollectionStep::AddressQueried) + sync_markers_call(
            plan.config.enum_path,
            seq![
                word("marker_indexes"@),
                mark('.'),
                word("contains"@),
                Token::Group(Delimiter::Parenthesis, seq![mark('&'), word("index"@)]),
            ],
            Handle::Ec,
        ),
        collection_routine_tokens(plan, Routine::HookCleanup) == address_context(
            Handle::EntityCommands,
        ) + remove_markers_call(plan.config.enum_path, Handle::EntityCommands),
        collection_routine_tokens(plan, Routine::Cleanup) == collection_step_tokens(
            plan,
            CollectionStep::AddressQueried,
        ) + remove_markers_call(plan.config.enum_path, Handle::Ec),
{
    law_active_indexes_are_spelled();
    lemma_three_steps(plan, collection_steps(Routine::HookSync));
    lemma_three_steps(plan, collection_steps(Routine::Sync));
    lemma_two_steps(plan, collection_steps(Routine::HookCleanup));
    lemma_two_steps(plan, collection_steps(Routine::Cleanup));
}

/// What is generated for two steps.
proof fn lemma_two_steps(plan: CollectionPlanView, steps: Seq<CollectionStep>)
    requires
        steps.len() >= 2,
    ensures
        joined(2, collection_step_tokens_at(plan, steps)) == collection_step_tokens(plan, steps[0])
            + collection_step_tokens(plan, steps[1]),
{
    let piece = collection_step_tokens_at(plan, steps);
    assert(joined(0, piece) =~= Seq::empty());
    assert(joined(1, piece) =~= piece(0));
}

/// What is generated for three steps.
proof fn lemma_three_steps(plan: CollectionPlanView, steps: Seq<CollectionStep>)
    requires
        steps.len() == 3,
    ensures
        joined(3, collection_step_tokens_at(plan, steps)) == collection_step_tokens(plan, steps[0])
            + collection_step_tokens(plan, steps[1]) + collection_step_tokens(plan, steps[2]),
{
    lemma_two_steps(plan, steps);
}

/// A collection addresses the entity that a system has come to as an enum does.
pub proof fn law_collection_addresses_as_an_enum(plan: CollectionPlanView, other: EnumPlanView)
    ensures
        collection_step_tokens(plan, CollectionStep::AddressQueried) == step_tokens(
            other,
            Step::AddressQueried,
        ),
{
}

/// The code for a collection: the plugin, the registration of its hooks, the two hooks and the two
/// systems, each under its own name.
pub proof fn law_collection_code_is_put_together(plan: CollectionPlanView)
    ensures
        collection_tokens(plan) == plugin_tokens(
            seq![
                Token::Text(
                    "Plugin that syncs [`"@ + plan.ident
                        + "`] enum collection values to marker components."@,
                ),
            ],
            plan.visibility,
            plan.names,
        ) + register_tokens(plan.ident, plan.names) + hook_tokens(
            plan.names.hook_sync,
            collection_routine_tokens(plan, Routine::HookSync),
        ) + hook_tokens(
            plan.names.hook_cleanup,
            collection_routine_tokens(plan, Routine::HookCleanup),
        ) + sync_system_tokens(
            plan.names.sync,
            plan.ident,
            seq![word("collection"@)],
            collection_routine_tokens(plan, Routine::Sync),
        ) + cleanup_system_tokens(
            plan.names.cleanup,
            plan.ident,
            collection_routine_tokens(plan, Routine::Cleanup),
        ),
{
    law_collection_is_spelled();
}

} // verus!
