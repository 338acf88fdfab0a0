//! What holds of the generated code as a whole.

use proc_macro2::Span;
use vstd::prelude::*;

use crate::collection::{collection_made_for, collection_output, collection_steps, config};
use crate::collection::{config_from, field_text, field_unmade, fields_made, first_attribute};
use crate::collection::{item_arguments, item_fields_made, last_made, last_path, last_span};
use crate::collection::{last_text, lemma_last_made, CollectionNames};
use crate::collection::{CollectionStep, ConfigView};
use crate::commands::{applied, collection_commands, is_held, last_word, lemma_applied};
use crate::commands::{lemma_hold_steps, lemma_inactive_marker_word, lemma_insert_steps};
use crate::commands::{lemma_last_word_add, lemma_marker_word};
use crate::commands::{lemma_one_more_step, lemma_second_step, lemma_stale_are_not_carried};
use crate::commands::{lemma_stale_word, lemma_steps_add, lemma_third_step, lemma_untouched, marker_commands};
use crate::commands::{occurs_in, payload_commands, routine_commands, stale_commands};
use crate::commands::{step_commands, steps_commands, touches, written, Command, Component};
use crate::enum_filter::{enum_filter_output, hold_steps, index_literal, insert_steps};
use crate::enum_filter::{remove_stale_payloads, routine_steps, step_tokens, Step};
use crate::enum_plan::{enum_plan, lemma_decided_early, made_for, markers_made, variant_plan};
use crate::enum_plan::{variant_plans, EnumPlanView, MadeNames, VariantPlanView};
use crate::extract::{extract_key_message, extract_rules, extract_type, lemma_refused_early, opts_in};
use crate::ident::{ascii_letter, ascii_lower, continues_identifier, identifier_shaped};
use crate::ident::{lower_case, made_from, plain_identifier, unraw};
use crate::meta::{nested_arguments, ArgumentsView, EntryView, ValueView};
use crate::names::{collection_prefix, enum_prefix, helper_name, lemma_word_is_identifier};
use crate::names::{lemma_word_texts_add, marker_name, names_for, plain_names, word_text};
use crate::payload::{carriers, carries, distinct_types, lists};
use crate::routine::{Handle, Routine};
use crate::syntax::{attribute_path, has_attribute, is_word_path, BodyView, InputView};
use crate::syntax::{TypeView, VariantView};
use crate::token::{decimal, digit, Token};

verus! {

/// The names that the code for an enum needs, each spelled as the text that it is made from.
pub open spec fn exact_names(item: InputView, variants: Seq<VariantView>) -> MadeNames {
    MadeNames {
        markers: Seq::new(
            variants.len(),
            |i: int| Some(marker_name(item.ident, variants[i].ident)),
        ),
        names: Some(names_for(enum_prefix(), item.ident)),
    }
}

/// Where an enum and its variants have ASCII names, the enum's own not raw, every name that is
/// needed can be made and is spelled as its text, so that there is one output and no other.
pub proof fn law_plain_enum_has_one_output(
    item: InputView,
    variants: Seq<VariantView>,
    made: MadeNames,
)
    requires
        item.body == BodyView::Enum(variants),
        plain_identifier(item.ident),
        forall|i: int|
            0 <= i < variants.len() ==> plain_identifier(unraw(#[trigger] variants[i].ident)),
        made_for(item, made),
    ensures
        made == exact_names(item, variants),
        enum_filter_output(item, made) is Some,
{
    let exact = exact_names(item, variants);
    lemma_plain_names(enum_prefix(), item.ident);
    lemma_not_raw(item.ident);
    assert forall|i: int| 0 <= i < variants.len() implies made.markers[i] == exact.markers[i] by {
        let tail = unraw(variants[i].ident);
        lemma_plain_is_word(item.ident);
        lemma_plain_is_word(tail);
        lemma_word_texts_add(item.ident, tail);
        lemma_word_is_identifier(marker_name(item.ident, variants[i].ident));
    }
    assert(made.markers =~= exact.markers);
    lemma_all_markers_made(item, variants, made.markers);
}

/// Where a struct has an ASCII name that is not raw, and the texts that name its fields are ASCII
/// identifiers, every name that is needed can be made and is spelled as its text, so that there is
/// one output and no other.
pub proof fn law_plain_collection_has_one_output(item: InputView, made: CollectionNames)
    requires
        plain_identifier(item.ident),
        item_arguments(item) matches Some(arguments) ==> forall|i: int|
            0 <= i < arguments.entries.len() ==> (field_text(
                #[trigger] arguments.entries[i],
            ) matches Some(text) ==> plain_identifier(text)),
        collection_made_for(item, made),
    ensures
        made.names == Some(names_for(collection_prefix(), item.ident)),
        collection_output(item, made) is Some,
        config(item, made.fields) matches Some(Ok(config)) ==> {
            &&& item_arguments(item) is Some
            &&& last_text(item_arguments(item)->0.entries, "iter"@) == Some(config.iter_field)
            &&& last_text(item_arguments(item)->0.entries, "map"@) == config.map_field
        },
{
    lemma_plain_names(collection_prefix(), item.ident);
    if let Some(arguments) = item_arguments(item) {
        assert(!field_unmade(arguments.entries, made.fields));
        if let Some(Ok(config)) = config(item, made.fields) {
            law_config_is_complete(arguments, made.fields, config);
            lemma_last_text_is_plain(arguments.entries, "iter"@);
            lemma_last_text_is_plain(arguments.entries, "map"@);
        }
    }
}

/// Where every text that names a field is a plain identifier, so is the last one.
proof fn lemma_last_text_is_plain(entries: Seq<EntryView>, key: Seq<char>)
    requires
        key == "iter"@ || key == "map"@,
        forall|i: int|
            0 <= i < entries.len() ==> (field_text(#[trigger] entries[i]) matches Some(text)
                ==> plain_identifier(text)),
    ensures
        last_text(entries, key) matches Some(text) ==> plain_identifier(text),
    decreases entries.len(),
{
    if entries.len() > 0 {
        let shorter = entries.drop_last();
        assert forall|i: int| 0 <= i < shorter.len() implies (field_text(
            #[trigger] shorter[i],
        ) matches Some(text) ==> plain_identifier(text)) by {
            assert(shorter[i] == entries[i]);
        }
        lemma_last_text_is_plain(shorter, key);
        assert(entries[entries.len() - 1] == entries.last());
        assert(field_text(entries[entries.len() - 1]) matches Some(text) ==> plain_identifier(text));
    }
}

/// Where every marker is made, there is a plan or a refusal.
proof fn lemma_all_markers_made(
    item: InputView,
    variants: Seq<VariantView>,
    markers: Seq<Option<Seq<char>>>,
)
    requires
        markers.len() == variants.len(),
        forall|i: int| 0 <= i < markers.len() ==> (#[trigger] markers[i]) is Some,
    ensures
        variant_plans(item, variants, markers) is Some,
    decreases variants.len(),
{
    if variants.len() > 0 {
        assert forall|i: int| 0 <= i < markers.drop_last().len() implies (
        #[trigger] markers.drop_last()[i]) is Some by {
            assert(markers.drop_last()[i] == markers[i]);
        }
        lemma_all_markers_made(item, variants.drop_last(), markers.drop_last());
        assert(markers[markers.len() - 1] is Some);
    }
}

/// A plain identifier is made of ASCII letters, digits and `_`.
proof fn lemma_plain_is_word(text: Seq<char>)
    requires
        plain_identifier(text),
    ensures
        word_text(text),
        text[0] == '_' || ascii_letter(text[0]),
{
    assert forall|i: int| 0 <= i < text.len() implies (#[trigger] text[i]) as u32 <= 0x7f
        && continues_identifier(text[i]) by {}
}

/// A plain identifier is not raw.
proof fn lemma_not_raw(text: Seq<char>)
    requires
        plain_identifier(text),
    ensures
        unraw(text) == text,
{
    lemma_plain_is_word(text);
    if text.len() >= 2 {
        assert(continues_identifier(text[1]));
    }
}

/// The names for a type with a plain name are plain.
proof fn lemma_plain_names(prefix: Seq<char>, ident: Seq<char>)
    requires
        prefix == enum_prefix() || prefix == collection_prefix(),
        plain_identifier(ident),
    ensures
        plain_names(names_for(prefix, ident)),
{
    reveal_strlit("EnumFilterPlugin");
    reveal_strlit("register_hooks_");
    reveal_strlit("hook_sync_");
    reveal_strlit("hook_cleanup_");
    reveal_strlit("sync_");
    reveal_strlit("cleanup_");
    lemma_not_raw(ident);
    lemma_plain_is_word(ident);
    assert(word_text("EnumFilterPlugin"@));
    lemma_word_texts_add(ident, "EnumFilterPlugin"@);
    lemma_word_is_identifier(ident + "EnumFilterPlugin"@);
    lemma_plain_helper(prefix, "register_hooks_"@, ident);
    lemma_plain_helper(prefix, "hook_sync_"@, ident);
    lemma_plain_helper(prefix, "hook_cleanup_"@, ident);
    lemma_plain_helper(prefix, "sync_"@, ident);
    lemma_plain_helper(prefix, "cleanup_"@, ident);
}

/// The name of a helper function for a type with a plain name is plain.
proof fn lemma_plain_helper(prefix: Seq<char>, role: Seq<char>, ident: Seq<char>)
    requires
        prefix == enum_prefix() || prefix == collection_prefix(),
        word_text(role),
        plain_identifier(ident),
    ensures
        plain_identifier(helper_name(prefix, role, ident)),
{
    reveal_strlit("__bevy_enum_filter_");
    reveal_strlit("__bevy_enum_filter_collection_");
    lemma_plain_is_word(ident);
    let lower = lower_case(ident);
    assert forall|i: int| 0 <= i < lower.len() implies (#[trigger] lower[i]) as u32 <= 0x7f
        && continues_identifier(lower[i]) by {
        assert(lower[i] == ascii_lower(ident[i]));
        assert(continues_identifier(ident[i]));
    }
    assert(word_text(prefix));
    lemma_word_texts_add(prefix, role);
    lemma_word_texts_add(prefix + role, lower);
    assert(helper_name(prefix, role, ident)[0] == prefix[0]);
    lemma_word_is_identifier(helper_name(prefix, role, ident));
}

/// No two of the distinct payload types print the same.
pub proof fn law_distinct_types_differ(payloads: Seq<Option<TypeView>>, i: int, j: int)
    requires
        0 <= i < j < distinct_types(payloads).len(),
    ensures
        distinct_types(payloads)[i].text != distinct_types(payloads)[j].text,
    decreases payloads.len(),
{
    let before = distinct_types(payloads.drop_last());
    if j < before.len() {
        law_distinct_types_differ(payloads.drop_last(), i, j);
    } else {
        assert(before[i] == distinct_types(payloads)[i]);
    }
}

/// The distinct payload types are those that variants have extracted, and no others.
pub proof fn law_distinct_types_are_extracted(payloads: Seq<Option<TypeView>>, text: Seq<char>)
    ensures
        lists(distinct_types(payloads), text) <==> exists|i: int|
            0 <= i < payloads.len() && carries(#[trigger] payloads[i], text),
    decreases payloads.len(),
{
    if payloads.len() > 0 {
        let shorter = payloads.drop_last();
        let before = distinct_types(shorter);
        let all = distinct_types(payloads);
        law_distinct_types_are_extracted(shorter, text);
        if lists(before, text) {
            let k = choose|k: int| 0 <= k < before.len() && (#[trigger] before[k]).text == text;
            assert(all[k] == before[k]);
            assert(lists(all, text));
            let i = choose|i: int| 0 <= i < shorter.len() && carries(#[trigger] shorter[i], text);
            assert(carries(payloads[i], text));
        } else if carries(payloads.last(), text) {
            assert(all[before.len() as int].text == text);
            assert(carries(payloads[payloads.len() - 1], text));
        } else {
            assert forall|i: int| 0 <= i < payloads.len() implies !carries(
                #[trigger] payloads[i],
                text,
            ) by {
                if i < shorter.len() {
                    assert(shorter[i] == payloads[i]);
                }
            }
            assert forall|k: int| 0 <= k < all.len() implies (#[trigger] all[k]).text != text by {
                if k < before.len() {
                    assert(all[k] == before[k]);
                }
            }
        }
    }
}

/// The indexes listed for a payload type are those of the variants that carry it, and no others.
pub proof fn law_carriers_carry(payloads: Seq<Option<TypeView>>, text: Seq<char>, i: int)
    requires
        payloads.len() <= usize::MAX,
        0 <= i < payloads.len(),
    ensures
        carriers(payloads, text).contains(i as usize) <==> carries(payloads[i], text),
    decreases payloads.len(),
{
    lemma_carriers_in_range(payloads, text);
    let shorter = payloads.drop_last();
    let before = carriers(shorter, text);
    let all = carriers(payloads, text);
    lemma_carriers_in_range(shorter, text);
    let last = (payloads.len() - 1) as usize;
    if i < shorter.len() {
        law_carriers_carry(shorter, text, i);
        assert(all.contains(i as usize) <==> before.contains(i as usize)) by {
            if before.contains(i as usize) {
                let k = choose|k: int| 0 <= k < before.len() && before[k] == i as usize;
                assert(all[k] == i as usize);
            }
            if all.contains(i as usize) {
                let k = choose|k: int| 0 <= k < all.len() && all[k] == i as usize;
                assert(k < before.len());
                assert(before[k] == i as usize);
            }
        }
    } else if carries(payloads.last(), text) {
        assert(all[before.len() as int] == last);
    } else {
        assert(all == before);
        assert(!before.contains(last));
    }
}

/// The indexes listed for a payload type are those of variants.
proof fn lemma_carriers_in_range(payloads: Seq<Option<TypeView>>, text: Seq<char>)
    requires
        payloads.len() <= usize::MAX,
    ensures
        forall|k: int|
            0 <= k < carriers(payloads, text).len() ==> (#[trigger] carriers(payloads, text)[k])
                < payloads.len(),
    decreases payloads.len(),
{
    if payloads.len() > 0 {
        let before = carriers(payloads.drop_last(), text);
        lemma_carriers_in_range(payloads.drop_last(), text);
        assert forall|k: int| 0 <= k < carriers(payloads, text).len() implies (
        #[trigger] carriers(payloads, text)[k]) < payloads.len() by {
            if k < before.len() {
                assert(carriers(payloads, text)[k] == before[k]);
            }
        }
    }
}

/// The indexes listed for a payload type ascend, so none is listed twice.
pub proof fn law_carriers_ascend(payloads: Seq<Option<TypeView>>, text: Seq<char>, j: int, k: int)
    requires
        payloads.len() <= usize::MAX,
        0 <= j < k < carriers(payloads, text).len(),
    ensures
        carriers(payloads, text)[j] < carriers(payloads, text)[k],
    decreases payloads.len(),
{
    let before = carriers(payloads.drop_last(), text);
    lemma_carriers_in_range(payloads.drop_last(), text);
    if k < before.len() {
        law_carriers_ascend(payloads.drop_last(), text, j, k);
    } else {
        assert(carriers(payloads, text)[j] == before[j]);
    }
}

/// Every payload type is carried by a variant, so the pattern that lists its carriers is never
/// empty.
pub proof fn law_payload_types_are_carried(payloads: Seq<Option<TypeView>>, k: int)
    requires
        payloads.len() <= usize::MAX,
        0 <= k < distinct_types(payloads).len(),
    ensures
        carriers(payloads, distinct_types(payloads)[k].text).len() > 0,
{
    let text = distinct_types(payloads)[k].text;
    law_distinct_types_are_extracted(payloads, text);
    assert(lists(distinct_types(payloads), text));
    let i = choose|i: int| 0 <= i < payloads.len() && carries(#[trigger] payloads[i], text);
    law_carriers_carry(payloads, text, i);
}

/// The component types of an entity once a function that syncs it has run, while the variant at
/// `active` is active.
pub open spec fn synced(
    plan: EnumPlanView,
    routine: Routine,
    active: int,
    present: Set<Component>,
    remove_markers: spec_fn(Set<Component>) -> Set<Component>,
) -> Set<Component> {
    applied(routine_commands(plan, routine, Some(active)), present, remove_markers)
}

/// What an entity is to be issued while the variant at `active` is active: the marker of that
/// variant is inserted where it is not there and the others are removed, the payload types that it
/// does not carry are removed in the order of their first appearance, and its payload is inserted.
pub open spec fn sync_commands(plan: EnumPlanView, active: int) -> Seq<Command> {
    marker_commands(plan.markers(), is_held(Some(active))) + stale_commands(
        plan.payloads(),
        distinct_types(plan.payloads()),
        active,
    ) + payload_commands(plan.payloads()[active])
}

/// The insert hook and the system issue the same commands for an active variant; the hook issues
/// none for an entity that does not hold the enum.
pub proof fn law_hook_and_system_agree(plan: EnumPlanView, active: int)
    requires
        plan.variants.len() <= usize::MAX,
        0 <= active < plan.variants.len(),
    ensures
        routine_commands(plan, Routine::HookSync, Some(active)) == sync_commands(plan, active),
        routine_commands(plan, Routine::Sync, Some(active)) == sync_commands(plan, active),
        routine_commands(plan, Routine::HookSync, None) == Seq::<Command>::empty(),
{
    let held = Some(active);
    let count = plan.variants.len();
    let none = Seq::<Step>::empty();

    let start = none.push(Step::ReadHeld);
    lemma_one_more_step(plan, none, Step::ReadHeld, held);
    lemma_hold_steps(plan, count, held);
    lemma_steps_add(plan, start, hold_steps(count), held);
    let middle = none.push(Step::AddressContext(Handle::EntityCommands)).push(
        Step::SyncMarkers(Handle::EntityCommands),
    ).push(Step::RemoveStale(Handle::EntityCommands));
    let address = none.push(Step::AddressContext(Handle::EntityCommands));
    lemma_one_more_step(plan, none, Step::AddressContext(Handle::EntityCommands), held);
    lemma_one_more_step(plan, address, Step::SyncMarkers(Handle::EntityCommands), held);
    lemma_one_more_step(
        plan,
        address.push(Step::SyncMarkers(Handle::EntityCommands)),
        Step::RemoveStale(Handle::EntityCommands),
        held,
    );
    lemma_steps_add(plan, start + hold_steps(count), middle, held);
    lemma_insert_steps(plan, count, active);
    lemma_steps_add(plan, start + hold_steps(count) + middle, insert_steps(count), held);
    assert(routine_commands(plan, Routine::HookSync, held) =~= sync_commands(plan, active));

    let read = none.push(Step::ReadQueried);
    let addressed = read.push(Step::AddressQueried);
    let marked = addressed.push(Step::SyncMarkers(Handle::Ec));
    let cleared = marked.push(Step::RemoveStale(Handle::Ec));
    lemma_one_more_step(plan, none, Step::ReadQueried, held);
    lemma_one_more_step(plan, read, Step::AddressQueried, held);
    lemma_one_more_step(plan, addressed, Step::SyncMarkers(Handle::Ec), held);
    lemma_one_more_step(plan, marked, Step::RemoveStale(Handle::Ec), held);
    lemma_one_more_step(plan, cleared, Step::InsertMatched, held);
    assert(routine_commands(plan, Routine::Sync, held) =~= sync_commands(plan, active));

    assert(routine_steps(Routine::HookSync, count)[0] == Step::ReadHeld);
}

/// The remove hook and the cleanup system issue the same commands: a call that removes every
/// marker, then, where a payload is extracted, the removal of every payload type.
pub proof fn law_cleanups_agree(plan: EnumPlanView, held: Option<int>)
    ensures
        routine_commands(plan, Routine::HookCleanup, held) == seq![Command::RemoveMarkers]
            + step_commands(plan, Step::RemoveAll, held),
        routine_commands(plan, Routine::Cleanup, held) == routine_commands(
            plan,
            Routine::HookCleanup,
            held,
        ),
{
    let first = routine_steps(Routine::HookCleanup, plan.variants.len());
    let second = routine_steps(Routine::Cleanup, plan.variants.len());
    assert(first.skip(1) =~= second.skip(1));
    assert(second.skip(1).skip(1) =~= Seq::empty().push(Step::RemoveAll));
    assert(second.skip(1).skip(1).skip(1) =~= Seq::empty());
    let rest = steps_commands(plan, second.skip(1).skip(1).skip(1), held);
    assert(rest =~= Seq::empty());
    assert(steps_commands(plan, second.skip(1).skip(1), held) =~= step_commands(
        plan,
        Step::RemoveAll,
        held,
    ));
    assert(second.skip(1)[0] == Step::RemoveMarkers(Handle::Ec));
    assert(steps_commands(plan, second.skip(1), held) =~= seq![Command::RemoveMarkers]
        + step_commands(plan, Step::RemoveAll, held));
    assert(steps_commands(plan, second, held) =~= seq![Command::RemoveMarkers] + step_commands(
        plan,
        Step::RemoveAll,
        held,
    ));
    assert(steps_commands(plan, first, held) =~= steps_commands(plan, second, held));
}

/// Once cleaned up, an entity has no payload type of the enum.
pub proof fn law_cleanup_removes_payloads(
    plan: EnumPlanView,
    held: Option<int>,
    present: Set<Component>,
    remove_markers: spec_fn(Set<Component>) -> Set<Component>,
    text: Seq<char>,
)
    requires
        lists(distinct_types(plan.payloads()), text),
    ensures
        !applied(
            routine_commands(plan, Routine::HookCleanup, held),
            present,
            remove_markers,
        ).contains(Component::Written(text)),
        !applied(
            routine_commands(plan, Routine::Cleanup, held),
            present,
            remove_markers,
        ).contains(Component::Written(text)),
{
    law_cleanups_agree(plan, held);
    let types = distinct_types(plan.payloads());
    let k = choose|k: int| 0 <= k < types.len() && (#[trigger] types[k]).text == text;
    assert(written(types)[k] == Component::Written(text));
    let commands = routine_commands(plan, Routine::Cleanup, held);
    assert(commands.last() == Command::Remove(written(types)));
    assert(written(types).to_set().contains(Component::Written(text)));
}

/// While a variant is active, the entity has its marker and no other marker of the enum, whatever
/// it had before. Markers that share a name, or the name of a payload type, are left out.
pub proof fn law_markers_follow_the_active_variant(
    plan: EnumPlanView,
    routine: Routine,
    active: int,
    present: Set<Component>,
    remove_markers: spec_fn(Set<Component>) -> Set<Component>,
    i: int,
)
    requires
        plan.variants.len() <= usize::MAX,
        routine == Routine::HookSync || routine == Routine::Sync,
        0 <= active < plan.variants.len(),
        0 <= i < plan.variants.len(),
        plan.markers().no_duplicates(),
        !lists(distinct_types(plan.payloads()), plan.markers()[i]),
    ensures
        synced(plan, routine, active, present, remove_markers).contains(
            Component::Written(plan.markers()[i]),
        ) <==> i == active,
{
    law_hook_and_system_agree(plan, active);
    lemma_synced(plan, active, present, remove_markers, plan.markers()[i]);
    lemma_marker_word(plan.markers(), is_held(Some(active)), i);
}

/// While a variant is active, the entity has the payload type that the variant carries and no
/// other payload type of the enum, whatever it had before.
pub proof fn law_payload_follows_the_active_variant(
    plan: EnumPlanView,
    routine: Routine,
    active: int,
    present: Set<Component>,
    remove_markers: spec_fn(Set<Component>) -> Set<Component>,
    text: Seq<char>,
)
    requires
        plan.variants.len() <= usize::MAX,
        routine == Routine::HookSync || routine == Routine::Sync,
        0 <= active < plan.variants.len(),
        lists(distinct_types(plan.payloads()), text),
    ensures
        synced(plan, routine, active, present, remove_markers).contains(
            Component::Written(text),
        ) <==> carries(plan.payloads()[active], text),
{
    law_hook_and_system_agree(plan, active);
    lemma_synced(plan, active, present, remove_markers, text);
}

/// What is neither a marker nor a payload type of the enum stays as it was. The enum itself is such
/// a component.
pub proof fn law_other_components_stay(
    plan: EnumPlanView,
    routine: Routine,
    active: int,
    present: Set<Component>,
    remove_markers: spec_fn(Set<Component>) -> Set<Component>,
    other: Component,
)
    requires
        plan.variants.len() <= usize::MAX,
        routine == Routine::HookSync || routine == Routine::Sync,
        0 <= active < plan.variants.len(),
        !belongs(other, plan.markers(), distinct_types(plan.payloads())),
    ensures
        synced(plan, routine, active, present, remove_markers).contains(other) <==> present.contains(
            other,
        ),
{
    law_hook_and_system_agree(plan, active);
    let commands = sync_commands(plan, active);
    lemma_sync_does_not_call(plan, active);
    lemma_sync_touches(plan, active);
    lemma_applied(commands, present, remove_markers, other);
    lemma_untouched(commands, other);
}

/// The payload type that the active variant carries is not removed on the way, so that a payload
/// whose variant stays active is replaced in place. A payload type that has the name of a marker is
/// left out.
pub proof fn law_active_payload_is_not_removed(
    plan: EnumPlanView,
    routine: Routine,
    active: int,
    text: Seq<char>,
    k: int,
)
    requires
        plan.variants.len() <= usize::MAX,
        routine == Routine::HookSync || routine == Routine::Sync,
        0 <= active < plan.variants.len(),
        carries(plan.payloads()[active], text),
        !plan.markers().contains(text),
        0 <= k < routine_commands(plan, routine, Some(active)).len(),
    ensures
        routine_commands(plan, routine, Some(active))[k] matches Command::Remove(removed)
            ==> !removed.contains(Component::Written(text)),
{
    law_hook_and_system_agree(plan, active);
    let payloads = plan.payloads();
    let types = distinct_types(payloads);
    let markers = marker_commands(plan.markers(), is_held(Some(active)));
    let stale = stale_commands(payloads, types, active);
    let command = sync_commands(plan, active)[k];
    if let Command::Remove(removed) = command {
        if k < markers.len() {
            assert(command == markers[k]);
            assert(removed =~= seq![Component::Written(plan.markers()[k])]);
            if removed.contains(Component::Written(text)) {
                assert(plan.markers()[k] == text);
                assert(plan.markers().contains(text));
            }
        } else if k < markers.len() + stale.len() {
            assert(command == stale[k - markers.len()]);
            law_carriers_carry(payloads, text, active);
            lemma_stale_are_not_carried(payloads, types, active, k - markers.len());
            let stale_text = choose|stale_text: Seq<char>|
                command == Command::Remove(seq![Component::Written(stale_text)]) && lists(
                    types,
                    stale_text,
                )
                    && !#[trigger] carriers(payloads, stale_text).contains(active as usize);
            assert(removed == seq![Component::Written(stale_text)]);
            if removed.contains(Component::Written(text)) {
                assert(stale_text == text);
            }
        }
    }
}

/// To sync an entity twice to the same variant is to sync it once.
pub proof fn law_sync_is_idempotent(
    plan: EnumPlanView,
    routine: Routine,
    active: int,
    present: Set<Component>,
    remove_markers: spec_fn(Set<Component>) -> Set<Component>,
)
    requires
        plan.variants.len() <= usize::MAX,
        routine == Routine::HookSync || routine == Routine::Sync,
        0 <= active < plan.variants.len(),
    ensures
        synced(
            plan,
            routine,
            active,
            synced(plan, routine, active, present, remove_markers),
            remove_markers,
        ) == synced(plan, routine, active, present, remove_markers),
{
    law_hook_and_system_agree(plan, active);
    let commands = sync_commands(plan, active);
    let once = applied(commands, present, remove_markers);
    let twice = applied(commands, once, remove_markers);
    lemma_sync_does_not_call(plan, active);
    assert forall|component: Component| twice.contains(component) == once.contains(component) by {
        lemma_applied(commands, present, remove_markers, component);
        lemma_applied(commands, once, remove_markers, component);
    }
    assert(twice =~= once);
}

/// Whether a component is of one of the given markers or payload types.
pub open spec fn belongs(
    component: Component,
    markers: Seq<Seq<char>>,
    types: Seq<TypeView>,
) -> bool {
    component matches Component::Written(text) && (markers.contains(text) || lists(types, text))
}

/// Whether commands insert and remove nothing but the given markers and payload types.
pub open spec fn only_touch(
    commands: Seq<Command>,
    markers: Seq<Seq<char>>,
    types: Seq<TypeView>,
) -> bool {
    forall|k: int, component: Component|
        0 <= k < commands.len() && #[trigger] touches(commands[k], component) ==> belongs(
            component,
            markers,
            types,
        )
}

/// Beyond the markers and the payload types of the enum, what is generated for it touches nothing.
pub proof fn law_only_markers_and_payloads_are_touched(
    plan: EnumPlanView,
    routine: Routine,
    held: Option<int>,
)
    requires
        plan.variants.len() <= usize::MAX,
        held matches Some(active) ==> 0 <= active < plan.variants.len(),
        routine == Routine::Sync ==> held is Some,
    ensures
        only_touch(
            routine_commands(plan, routine, held),
            plan.markers(),
            distinct_types(plan.payloads()),
        ),
{
    let commands = routine_commands(plan, routine, held);
    let types = distinct_types(plan.payloads());
    law_cleanups_agree(plan, held);
    if routine == Routine::HookSync || routine == Routine::Sync {
        if let Some(active) = held {
            law_hook_and_system_agree(plan, active);
            lemma_sync_touches(plan, active);
        } else {
            assert(routine_steps(routine, plan.variants.len())[0] == Step::ReadHeld);
        }
    } else {
        assert forall|k: int, component: Component|
            0 <= k < commands.len() && #[trigger] touches(commands[k], component) implies belongs(
            component,
            plan.markers(),
            types,
        ) by {
            if k == 0 {
                assert(commands[0] == Command::RemoveMarkers);
            } else {
                assert(commands[k] == Command::Remove(written(types)));
                let j = choose|j: int|
                    0 <= j < written(types).len() && written(types)[j] == component;
                assert(component == Component::Written(types[j].text));
                assert(lists(types, types[j].text));
            }
        }
    }
}

/// The enum is only read: nothing that is generated for it inserts or removes it.
pub proof fn law_enum_is_only_read(
    plan: EnumPlanView,
    routine: Routine,
    held: Option<int>,
    k: int,
)
    requires
        plan.variants.len() <= usize::MAX,
        held matches Some(active) ==> 0 <= active < plan.variants.len(),
        routine == Routine::Sync ==> held is Some,
        0 <= k < routine_commands(plan, routine, held).len(),
    ensures
        !touches(routine_commands(plan, routine, held)[k], Component::Owner),
{
    law_only_markers_and_payloads_are_touched(plan, routine, held);
}

/// No marker is named as the enum is.
pub proof fn law_marker_is_not_the_enum(enum_ident: Seq<char>, variant_ident: Seq<char>)
    requires
        identifier_shaped(unraw(enum_ident)),
        identifier_shaped(unraw(variant_ident)),
    ensures
        marker_name(enum_ident, variant_ident) != enum_ident,
{
    let head = unraw(enum_ident);
    let tail = unraw(variant_ident);
    let marker = marker_name(enum_ident, variant_ident);
    if marker == enum_ident {
        assert(marker.len() == head.len() + tail.len());
        assert(enum_ident[1] == '#');
        if head.len() >= 2 {
            assert(marker[1] == head[1]);
        } else {
            assert(marker[1] == tail[0]);
        }
    }
}

/// No command of a sync is the call that removes the markers.
proof fn lemma_sync_does_not_call(plan: EnumPlanView, active: int)
    ensures
        forall|k: int|
            0 <= k < sync_commands(plan, active).len() ==> !((#[trigger] sync_commands(
                plan,
                active,
            )[k]) is RemoveMarkers),
{
    let markers = marker_commands(plan.markers(), is_held(Some(active)));
    let types = distinct_types(plan.payloads());
    let stale = stale_commands(plan.payloads(), types, active);
    assert forall|k: int| 0 <= k < sync_commands(plan, active).len() implies !((
    #[trigger] sync_commands(plan, active)[k]) is RemoveMarkers) by {
        if k < markers.len() {
            assert(sync_commands(plan, active)[k] == markers[k]);
        } else if k < markers.len() + stale.len() {
            assert(sync_commands(plan, active)[k] == stale[k - markers.len()]);
            lemma_stale_are_not_carried(plan.payloads(), types, active, k - markers.len());
        }
    }
}

/// What a sync inserts and removes is a marker or a payload type.
proof fn lemma_sync_touches(plan: EnumPlanView, active: int)
    requires
        0 <= active < plan.variants.len(),
    ensures
        only_touch(
            sync_commands(plan, active),
            plan.markers(),
            distinct_types(plan.payloads()),
        ),
{
    let commands = sync_commands(plan, active);
    let markers = marker_commands(plan.markers(), is_held(Some(active)));
    let payloads = plan.payloads();
    let types = distinct_types(payloads);
    let stale = stale_commands(payloads, types, active);
    assert forall|k: int, component: Component|
        0 <= k < commands.len() && #[trigger] touches(commands[k], component) implies belongs(
        component,
        plan.markers(),
        types,
    ) by {
        if k < markers.len() {
            assert(commands[k] == markers[k]);
            assert(component == Component::Written(plan.markers()[k]));
        } else if k < markers.len() + stale.len() {
            assert(commands[k] == stale[k - markers.len()]);
            lemma_stale_are_not_carried(payloads, types, active, k - markers.len());
        } else {
            let text = component->Written_0;
            assert(carries(payloads[active], text));
            law_distinct_types_are_extracted(payloads, text);
        }
    }
}

/// Whether a type is present after a sync goes by its payload type first, then by its marker, then
/// by what was there.
proof fn lemma_synced(
    plan: EnumPlanView,
    active: int,
    present: Set<Component>,
    remove_markers: spec_fn(Set<Component>) -> Set<Component>,
    text: Seq<char>,
)
    requires
        plan.variants.len() <= usize::MAX,
        0 <= active < plan.variants.len(),
    ensures
        applied(sync_commands(plan, active), present, remove_markers).contains(
            Component::Written(text),
        ) == if lists(
            distinct_types(plan.payloads()),
            text,
        ) {
            carries(plan.payloads()[active], text)
        } else {
            match last_word(
                marker_commands(plan.markers(), is_held(Some(active))),
                Component::Written(text),
            ) {
                Some(left) => left,
                None => present.contains(Component::Written(text)),
            }
        },
{
    let component = Component::Written(text);
    let payloads = plan.payloads();
    let types = distinct_types(payloads);
    let markers = marker_commands(plan.markers(), is_held(Some(active)));
    let stale = stale_commands(payloads, types, active);
    let inserted = payload_commands(payloads[active]);
    lemma_sync_does_not_call(plan, active);
    lemma_applied(sync_commands(plan, active), present, remove_markers, component);
    lemma_last_word_add(markers + stale, inserted, component);
    lemma_last_word_add(markers, stale, component);
    lemma_stale_word(payloads, types, active, text);
    law_distinct_types_are_extracted(payloads, text);
    law_carriers_carry(payloads, text, active);
    assert(last_word(inserted, component) == if carries(payloads[active], text) {
        Some(true)
    } else {
        None
    }) by {
        if let Some(ty) = payloads[active] {
            assert(inserted.drop_last() =~= Seq::empty());
            assert(inserted.last() == Command::Insert(Component::Written(ty.text)));
            assert(last_word(inserted.drop_last(), component) is None);
        }
    }
    if carries(payloads[active], text) {
        assert(lists(types, text));
    }
}

/// Where no variant has a payload extracted, nothing is generated for payloads.
pub proof fn law_no_extraction_no_payload_code(plan: EnumPlanView)
    requires
        forall|i: int| 0 <= i < plan.variants.len() ==> (#[trigger] plan.variants[i]).payload is None,
    ensures
        forall|i: usize|
            i < plan.variants.len() ==> #[trigger] step_tokens(plan, Step::HoldPayload(i)) == Seq::<
                Token,
            >::empty(),
        forall|i: usize|
            i < plan.variants.len() ==> #[trigger] step_tokens(plan, Step::InsertHeld(i)) == Seq::<
                Token,
            >::empty(),
        remove_stale_payloads(plan.payloads()) == Seq::<Token>::empty(),
        step_tokens(plan, Step::InsertMatched) == Seq::<Token>::empty(),
        step_tokens(plan, Step::RemoveAll) == Seq::<Token>::empty(),
{
    lemma_no_types(plan.payloads());
}

/// Without payloads there are no payload types.
proof fn lemma_no_types(payloads: Seq<Option<TypeView>>)
    requires
        forall|i: int| 0 <= i < payloads.len() ==> (#[trigger] payloads[i]) is None,
    ensures
        distinct_types(payloads).len() == 0,
    decreases payloads.len(),
{
    if payloads.len() > 0 {
        lemma_no_types(payloads.drop_last());
        assert(payloads[payloads.len() - 1] is None);
    }
}

/// What is planned for the variants follows them one by one: each keeps its name and its style, has
/// the marker that was made for it, and carries the payload that it opts into.
pub proof fn law_plan_follows_variants(
    item: InputView,
    variants: Seq<VariantView>,
    markers: Seq<Option<Seq<char>>>,
    plans: Seq<VariantPlanView>,
    i: int,
)
    requires
        markers_made(item, variants, markers),
        variant_plans(item, variants, markers) == Some(
            Ok::<Seq<VariantPlanView>, Seq<Seq<char>>>(plans),
        ),
        0 <= i < variants.len(),
    ensures
        plans.len() == variants.len(),
        markers[i] == Some(plans[i].marker),
        extract_type(variants[i]) == Ok::<Option<TypeView>, Seq<Seq<char>>>(plans[i].payload),
        plans[i] == variant_plan(item, variants[i], plans[i].marker, plans[i].payload),
    decreases variants.len(),
{
    lemma_plan_length(item, variants, markers, plans);
    let shorter = variants.drop_last();
    let fewer = markers.drop_last();
    let before = plans.drop_last();
    assert(variant_plans(item, shorter, fewer) is Some && variant_plans(
        item,
        shorter,
        fewer,
    )->0 is Ok);
    let kept = variant_plans(item, shorter, fewer)->0->Ok_0;
    assert(plans == kept.push(plans.last()));
    assert(before =~= kept);
    if i < shorter.len() {
        assert(markers_made(item, shorter, fewer)) by {
            assert forall|j: int| 0 <= j < shorter.len() implies made_from(
                #[trigger] fewer[j],
                marker_name(item.ident, shorter[j].ident),
            ) by {
                assert(fewer[j] == markers[j]);
                assert(shorter[j] == variants[j]);
            }
        }
        law_plan_follows_variants(item, shorter, fewer, before, i);
        assert(shorter[i] == variants[i]);
        assert(fewer[i] == markers[i]);
        assert(before[i] == plans[i]);
    }
}

/// There is one plan for each variant.
proof fn lemma_plan_length(
    item: InputView,
    variants: Seq<VariantView>,
    markers: Seq<Option<Seq<char>>>,
    plans: Seq<VariantPlanView>,
)
    requires
        variant_plans(item, variants, markers) == Some(
            Ok::<Seq<VariantPlanView>, Seq<Seq<char>>>(plans),
        ),
    ensures
        plans.len() == variants.len(),
    decreases variants.len(),
{
    if variants.len() > 0 {
        let kept = variant_plans(item, variants.drop_last(), markers.drop_last())->0->Ok_0;
        lemma_plan_length(item, variants.drop_last(), markers.drop_last(), kept);
    }
}

/// An enum is refused with what its first refused variant is refused with, whatever follows it.
pub proof fn law_first_refused_variant_decides(
    item: InputView,
    variants: Seq<VariantView>,
    made: MadeNames,
    i: int,
    messages: Seq<Seq<char>>,
)
    requires
        item.body == BodyView::Enum(variants),
        made_for(item, made),
        0 <= i < variants.len(),
        variant_plans(item, variants.take(i), made.markers.take(i)) matches Some(Ok(_)),
        extract_type(variants[i]) == Err::<Option<TypeView>, Seq<Seq<char>>>(messages),
    ensures
        enum_plan(item, made) == Some(Err::<EnumPlanView, Seq<Seq<char>>>(messages)),
{
    assert(variants.take(i + 1).drop_last() =~= variants.take(i));
    assert(variants.take(i + 1).last() == variants[i]);
    assert(made.markers.take(i + 1).drop_last() =~= made.markers.take(i));
    lemma_decided_early(item, variants, made.markers, i);
}

/// A variant is refused with one message where one of its `#[enum_filter(...)]` has a key other
/// than `extract` and those before it are accepted.
pub proof fn law_other_keys_are_refused(variant: VariantView, i: int)
    requires
        0 <= i < variant.attributes.len(),
        opts_in(variant.attributes.take(i)) is Ok,
        is_word_path(attribute_path(variant.attributes[i]), "enum_filter"@),
        nested_arguments(
            variant.attributes[i],
            extract_rules(),
            extract_key_message(),
        ).unsupported is Some,
    ensures
        extract_type(variant) == Err::<Option<TypeView>, Seq<Seq<char>>>(
            seq![extract_key_message()],
        ),
{
    let attributes = variant.attributes;
    assert(attributes.take(i + 1).drop_last() =~= attributes.take(i));
    assert(attributes.take(i + 1).last() == attributes[i]);
    lemma_refused_early(attributes, i);
}

/// A payload is extracted only from a tuple variant with exactly one field, and is then that field.
pub proof fn law_extracted_payload_is_the_only_field(variant: VariantView, ty: TypeView)
    requires
        extract_type(variant) == Ok::<Option<TypeView>, Seq<Seq<char>>>(Some(ty)),
    ensures
        variant.fields.style is Unnamed,
        variant.fields.fields.len() == 1,
        variant.fields.fields[0].ty == ty,
{
}

/// A variant without `#[enum_filter(...)]` is neither refused nor has a payload extracted.
pub proof fn law_extraction_is_opt_in(variant: VariantView)
    requires
        !has_attribute(variant.attributes, "enum_filter"@),
    ensures
        extract_type(variant) == Ok::<Option<TypeView>, Seq<Seq<char>>>(None),
{
    lemma_no_opt_in(variant.attributes);
}

/// Attributes of other names do not opt into extraction.
proof fn lemma_no_opt_in(attributes: Seq<syn::Attribute>)
    requires
        !has_attribute(attributes, "enum_filter"@),
    ensures
        opts_in(attributes) == Ok::<bool, Seq<Seq<char>>>(false),
    decreases attributes.len(),
{
    if attributes.len() > 0 {
        let shorter = attributes.drop_last();
        assert forall|i: int| 0 <= i < shorter.len() implies !is_word_path(
            attribute_path(#[trigger] shorter[i]),
            "enum_filter"@,
        ) by {
            assert(shorter[i] == attributes[i]);
        }
        lemma_no_opt_in(shorter);
        assert(attributes.last() == attributes[attributes.len() - 1]);
    }
}

/// Variants of different names have markers of different names.
pub proof fn law_markers_differ(enum_ident: Seq<char>, left: Seq<char>, right: Seq<char>)
    requires
        unraw(left) != unraw(right),
    ensures
        marker_name(enum_ident, left) != marker_name(enum_ident, right),
{
    let head = unraw(enum_ident);
    if head + unraw(left) == head + unraw(right) {
        let whole = head + unraw(left);
        assert(unraw(left) =~= whole.skip(head.len() as int));
        assert(unraw(right) =~= whole.skip(head.len() as int));
    }
}

/// Where an enum and its variants have ASCII names, the enum's own not raw and no two variants the
/// same, no two markers have the same name, and none has that of the enum.
pub proof fn law_plain_markers_differ(
    item: InputView,
    variants: Seq<VariantView>,
    made: MadeNames,
    plan: EnumPlanView,
)
    requires
        item.body == BodyView::Enum(variants),
        plain_identifier(item.ident),
        forall|i: int|
            0 <= i < variants.len() ==> plain_identifier(unraw(#[trigger] variants[i].ident)),
        forall|i: int, j: int|
            0 <= i < j < variants.len() ==> unraw(#[trigger] variants[i].ident) != unraw(
                #[trigger] variants[j].ident,
            ),
        made_for(item, made),
        enum_plan(item, made) == Some(Ok::<EnumPlanView, Seq<Seq<char>>>(plan)),
    ensures
        plan.markers().no_duplicates(),
        !plan.markers().contains(plan.ident),
{
    law_plain_enum_has_one_output(item, variants, made);
    lemma_plan_length(item, variants, made.markers, plan.variants);
    lemma_not_raw(item.ident);
    assert forall|i: int| 0 <= i < variants.len() implies #[trigger] plan.markers()[i]
        == marker_name(item.ident, variants[i].ident) && plan.markers()[i] != plan.ident by {
        law_plan_follows_variants(item, variants, made.markers, plan.variants, i);
        law_marker_is_not_the_enum(item.ident, variants[i].ident);
    }
    assert forall|i: int, j: int|
        0 <= i < j < variants.len() implies plan.markers()[i] != plan.markers()[j] by {
        law_markers_differ(item.ident, variants[i].ident, variants[j].ident);
    }
}

/// Different numbers have different digits.
pub proof fn law_decimal_is_injective(m: nat, n: nat)
    requires
        decimal(m) == decimal(n),
    ensures
        m == n,
    decreases m,
{
    lemma_decimal_length(m);
    lemma_decimal_length(n);
    assert(decimal(m).last() == decimal(n).last());
    assert(decimal(m).last() == digit(m % 10));
    assert(decimal(n).last() == digit(n % 10));
    assert(digit(m % 10) as nat == '0' as nat + m % 10);
    assert(digit(n % 10) as nat == '0' as nat + n % 10);
    if m >= 10 && n >= 10 {
        assert(decimal(m).drop_last() =~= decimal(m / 10));
        assert(decimal(n).drop_last() =~= decimal(n / 10));
        law_decimal_is_injective(m / 10, n / 10);
    }
}

/// A number has at least one digit, and more than one from ten on.
proof fn lemma_decimal_length(n: nat)
    ensures
        decimal(n).len() >= 1,
        n < 10 <==> decimal(n).len() == 1,
    decreases n,
{
    if n >= 10 {
        lemma_decimal_length(n / 10);
    }
}

/// Variants at different indexes have different indexes in the generated code.
pub proof fn law_indexes_differ(i: nat, j: nat)
    requires
        i != j,
    ensures
        index_literal(i) != index_literal(j),
{
    if index_literal(i) == index_literal(j) {
        assert(index_literal(i)[0] == index_literal(j)[0]);
        let left = decimal(i) + "usize"@;
        let right = decimal(j) + "usize"@;
        assert(left == right);
        assert(left.len() == decimal(i).len() + "usize"@.len());
        assert(right.len() == decimal(j).len() + "usize"@.len());
        assert(decimal(i) =~= left.take(decimal(i).len() as int));
        assert(decimal(j) =~= right.take(decimal(j).len() as int));
        law_decimal_is_injective(i, j);
    }
}

/// The helper functions of one type have different names.
pub proof fn law_helpers_differ(prefix: Seq<char>, ident: Seq<char>)
    ensures
        ({
            let names = names_for(prefix, ident);
            &&& names.register_hooks != names.hook_sync
            &&& names.register_hooks != names.hook_cleanup
            &&& names.register_hooks != names.sync
            &&& names.register_hooks != names.cleanup
            &&& names.hook_sync != names.hook_cleanup
            &&& names.hook_sync != names.sync
            &&& names.hook_sync != names.cleanup
            &&& names.hook_cleanup != names.sync
            &&& names.hook_cleanup != names.cleanup
            &&& names.sync != names.cleanup
        }),
{
    reveal_strlit("register_hooks_");
    reveal_strlit("hook_sync_");
    reveal_strlit("hook_cleanup_");
    reveal_strlit("sync_");
    reveal_strlit("cleanup_");
    let names = names_for(prefix, ident);
    let rest = prefix.len() + lower_case(ident).len();
    assert(names.register_hooks.len() == rest + 15);
    assert(names.hook_sync.len() == rest + 10);
    assert(names.hook_cleanup.len() == rest + 13);
    assert(names.sync.len() == rest + 5);
    assert(names.cleanup.len() == rest + 8);
}

/// The role of a helper function.
pub open spec fn is_role(role: Seq<char>) -> bool {
    ||| role == "register_hooks_"@
    ||| role == "hook_sync_"@
    ||| role == "hook_cleanup_"@
    ||| role == "sync_"@
    ||| role == "cleanup_"@
}

/// No helper function for an enum has the name of one for a collection, whatever the two types are
/// called.
pub proof fn law_enum_and_collection_helpers_differ(
    enum_role: Seq<char>,
    enum_ident: Seq<char>,
    collection_role: Seq<char>,
    collection_ident: Seq<char>,
)
    requires
        is_role(enum_role),
        is_role(collection_role),
    ensures
        helper_name(enum_prefix(), enum_role, enum_ident) != helper_name(
            collection_prefix(),
            collection_role,
            collection_ident,
        ),
{
    reveal_strlit("register_hooks_");
    reveal_strlit("hook_sync_");
    reveal_strlit("hook_cleanup_");
    reveal_strlit("sync_");
    reveal_strlit("cleanup_");
    reveal_strlit("__bevy_enum_filter_");
    reveal_strlit("__bevy_enum_filter_collection_");
    let left = helper_name(enum_prefix(), enum_role, enum_ident);
    let right = helper_name(collection_prefix(), collection_role, collection_ident);
    let at = enum_prefix().len() as int;
    assert(left[at] == enum_role[0]);
    assert(left[at + 1] == enum_role[1]);
    assert(right[at] == collection_prefix()[at]);
    assert(right[at + 1] == collection_prefix()[at + 1]);
}

/// The insert hook and the system of a collection issue the same commands: each marker is inserted
/// where a value of its variant occurs, and else removed. The hook issues none for an entity that
/// does not hold the collection.
pub proof fn law_collection_hook_and_system_agree(markers: Seq<Seq<char>>, indexes: Seq<usize>)
    ensures
        collection_commands(markers, Routine::HookSync, Some(indexes)) == marker_commands(
            markers,
            occurs_in(indexes),
        ),
        collection_commands(markers, Routine::Sync, Some(indexes)) == marker_commands(
            markers,
            occurs_in(indexes),
        ),
        collection_commands(markers, Routine::HookSync, None) == Seq::<Command>::empty(),
{
    lemma_third_step(markers, collection_steps(Routine::HookSync), Some(indexes));
    lemma_third_step(markers, collection_steps(Routine::Sync), Some(indexes));
}

/// The remove hook and the cleanup system of a collection do nothing but call for the removal of
/// every marker, once.
pub proof fn law_collection_cleanup_is_one_call(
    markers: Seq<Seq<char>>,
    held: Option<Seq<usize>>,
)
    ensures
        collection_commands(markers, Routine::HookCleanup, held) == seq![Command::RemoveMarkers],
        collection_commands(markers, Routine::Cleanup, held) == seq![Command::RemoveMarkers],
{
    lemma_second_step(markers, collection_steps(Routine::HookCleanup), held);
    lemma_second_step(markers, collection_steps(Routine::Cleanup), held);
}

/// Two collections in which the same variants occur get the same commands: the order of the values
/// and how often one occurs do not matter.
pub proof fn law_collection_order_does_not_matter(
    markers: Seq<Seq<char>>,
    routine: Routine,
    left: Seq<usize>,
    right: Seq<usize>,
)
    requires
        forall|index: usize| #[trigger] left.contains(index) <==> right.contains(index),
    ensures
        collection_commands(markers, routine, Some(left)) == collection_commands(
            markers,
            routine,
            Some(right),
        ),
{
    law_collection_hook_and_system_agree(markers, left);
    law_collection_hook_and_system_agree(markers, right);
    law_collection_cleanup_is_one_call(markers, Some(left));
    law_collection_cleanup_is_one_call(markers, Some(right));
    assert(marker_commands(markers, occurs_in(left)) =~= marker_commands(
        markers,
        occurs_in(right),
    ));
}

/// Once synced, the holder of a collection has the markers of the variants that occur in it and no
/// other marker of the enum, whatever it had before. Markers that share a name are left out.
pub proof fn law_markers_follow_the_collection(
    markers: Seq<Seq<char>>,
    routine: Routine,
    indexes: Seq<usize>,
    present: Set<Component>,
    remove_markers: spec_fn(Set<Component>) -> Set<Component>,
    i: int,
)
    requires
        routine == Routine::HookSync || routine == Routine::Sync,
        markers.no_duplicates(),
        0 <= i < markers.len(),
    ensures
        applied(
            collection_commands(markers, routine, Some(indexes)),
            present,
            remove_markers,
        ).contains(Component::Written(markers[i])) <==> indexes.contains(i as usize),
{
    law_collection_hook_and_system_agree(markers, indexes);
    lemma_applied(
        marker_commands(markers, occurs_in(indexes)),
        present,
        remove_markers,
        Component::Written(markers[i]),
    );
    lemma_marker_word(markers, occurs_in(indexes), i);
}

/// The holder of an empty collection loses every marker.
pub proof fn law_empty_collection_loses_every_marker(
    markers: Seq<Seq<char>>,
    routine: Routine,
    present: Set<Component>,
    remove_markers: spec_fn(Set<Component>) -> Set<Component>,
    marker: Seq<char>,
)
    requires
        routine == Routine::HookSync || routine == Routine::Sync,
        markers.contains(marker),
    ensures
        !applied(
            collection_commands(markers, routine, Some(Seq::empty())),
            present,
            remove_markers,
        ).contains(Component::Written(marker)),
{
    let none = Seq::<usize>::empty();
    law_collection_hook_and_system_agree(markers, none);
    lemma_applied(
        marker_commands(markers, occurs_in(none)),
        present,
        remove_markers,
        Component::Written(marker),
    );
    lemma_inactive_marker_word(markers, occurs_in(none), marker);
}

/// Beyond the markers of the enum, what is generated for a collection touches nothing.
pub proof fn law_collection_touches_only_markers(
    markers: Seq<Seq<char>>,
    routine: Routine,
    held: Option<Seq<usize>>,
)
    requires
        routine == Routine::Sync ==> held is Some,
    ensures
        only_touch(collection_commands(markers, routine, held), markers, Seq::empty()),
{
    let commands = collection_commands(markers, routine, held);
    law_collection_cleanup_is_one_call(markers, held);
    if let Some(indexes) = held {
        law_collection_hook_and_system_agree(markers, indexes);
    }
    assert forall|k: int, component: Component|
        0 <= k < commands.len() && #[trigger] touches(commands[k], component) implies belongs(
        component,
        markers,
        Seq::empty(),
    ) by {
        if routine == Routine::HookSync || routine == Routine::Sync {
            assert(held is Some) by {
                if held is None {
                    assert(collection_steps(Routine::HookSync)[0] == CollectionStep::ReadHeld);
                }
            }
            assert(component == Component::Written(markers[k]));
        } else {
            assert(commands[k] == Command::RemoveMarkers);
        }
    }
}

/// A collection is only read: nothing that is generated for it inserts or removes it.
pub proof fn law_collection_is_only_read(
    markers: Seq<Seq<char>>,
    routine: Routine,
    held: Option<Seq<usize>>,
    k: int,
)
    requires
        routine == Routine::Sync ==> held is Some,
        0 <= k < collection_commands(markers, routine, held).len(),
    ensures
        !touches(collection_commands(markers, routine, held)[k], Component::Owner),
{
    law_collection_touches_only_markers(markers, routine, held);
}

/// Only the first `#[enum_filter_collection(...)]` counts: items whose attributes agree up to one of
/// that name have the same configuration or are refused with the same messages, whatever attributes
/// follow it.
pub proof fn law_only_the_first_attribute_counts(
    item: InputView,
    other: InputView,
    i: int,
    made: Seq<Option<Seq<char>>>,
)
    requires
        0 <= i < item.attributes.len(),
        i < other.attributes.len(),
        item.attributes.take(i + 1) == other.attributes.take(i + 1),
        is_word_path(attribute_path(item.attributes[i]), "enum_filter_collection"@),
    ensures
        item_fields_made(other, made) == item_fields_made(item, made),
        config(other, made) == config(item, made),
{
    assert(other.attributes[i] == other.attributes.take(i + 1)[i]);
    assert(item.attributes[i] == item.attributes.take(i + 1)[i]);
    lemma_first_attribute(item.attributes, "enum_filter_collection"@, i);
    lemma_first_attribute(other.attributes, "enum_filter_collection"@, i);
}

/// The first attribute of a name does not depend on those that follow one of that name.
proof fn lemma_first_attribute(attributes: Seq<syn::Attribute>, word: Seq<char>, i: int)
    requires
        0 <= i < attributes.len(),
        is_word_path(attribute_path(attributes[i]), word),
    ensures
        first_attribute(attributes, word) == first_attribute(attributes.take(i + 1), word),
    decreases i,
{
    assert(attributes.take(i + 1)[0] == attributes[0]);
    if !is_word_path(attribute_path(attributes[0]), word) {
        assert(attributes.take(i + 1).skip(1) =~= attributes.skip(1).take(i));
        assert(attributes.skip(1)[i - 1] == attributes[i]);
        lemma_first_attribute(attributes.skip(1), word, i - 1);
    }
}

/// The configuration goes by the attributes alone: items with the same attributes have the same
/// configuration or are refused with the same messages, whatever else they are.
pub proof fn law_config_goes_by_the_attributes(
    item: InputView,
    other: InputView,
    made: Seq<Option<Seq<char>>>,
)
    requires
        item.attributes == other.attributes,
    ensures
        item_fields_made(other, made) == item_fields_made(item, made),
        config(other, made) == config(item, made),
{
}

/// Whether a list of places has each place of a list of the given length once.
pub open spec fn reorders(places: Seq<int>, len: nat) -> bool {
    &&& places.len() == len
    &&& places.no_duplicates()
    &&& forall|i: int| 0 <= i < len ==> 0 <= #[trigger] places[i] < len
}

/// The order of the arguments does not matter where no key occurs twice: what they say is the same,
/// or what they are refused with is.
pub proof fn law_key_order_does_not_matter(
    arguments: ArgumentsView,
    made: Seq<Option<Seq<char>>>,
    places: Seq<int>,
    other: ArgumentsView,
    other_made: Seq<Option<Seq<char>>>,
)
    requires
        fields_made(arguments.entries, made),
        forall|i: int, j: int|
            0 <= i < j < arguments.entries.len() ==> (#[trigger] arguments.entries[i]).key != (
            #[trigger] arguments.entries[j]).key,
        reorders(places, arguments.entries.len()),
        other.entries == Seq::new(places.len(), |i: int| arguments.entries[places[i]]),
        other_made == Seq::new(places.len(), |i: int| made[places[i]]),
        other.failure == arguments.failure,
    ensures
        fields_made(other.entries, other_made),
        config_from(other, other_made) == config_from(arguments, made),
{
    let entries = arguments.entries;
    let others = other.entries;
    lemma_reorders(places, entries.len());
    assert forall|i: int| 0 <= i < others.len() implies #[trigger] others[i] == entries[places[i]]
        && other_made[i] == made[places[i]] by {}
    assert(fields_made(others, other_made)) by {
        assert forall|i: int| 0 <= i < others.len() implies (field_text(
            #[trigger] others[i],
        ) matches Some(text) ==> made_from(other_made[i], text)) by {
            assert(others[i] == entries[places[i]]);
        }
    }
    assert(field_unmade(entries, made) == field_unmade(others, other_made)) by {
        if field_unmade(entries, made) {
            let j = choose|j: int|
                0 <= j < entries.len() && field_text(#[trigger] entries[j]) is Some
                    && made[j] is None;
            assert(places.contains(j));
            let i = choose|i: int| 0 <= i < places.len() && places[i] == j;
            assert(others[i] == entries[j]);
        }
        if field_unmade(others, other_made) {
            let i = choose|i: int|
                0 <= i < others.len() && field_text(#[trigger] others[i]) is Some
                    && other_made[i] is None;
            assert(others[i] == entries[places[i]]);
        }
    }
    assert forall|i: int, j: int| 0 <= i < j < others.len() implies (#[trigger] others[i]).key != (
    #[trigger] others[j]).key by {
        assert(places[i] != places[j]);
        if places[i] < places[j] {
            assert(entries[places[i]].key != entries[places[j]].key);
        } else {
            assert(entries[places[j]].key != entries[places[i]].key);
        }
    }
    lemma_same_arguments(entries, made, places, others, other_made, "enum"@);
    lemma_same_arguments(entries, made, places, others, other_made, "iter"@);
    lemma_same_arguments(entries, made, places, others, other_made, "map"@);
}

/// Such a list leaves out no place.
proof fn lemma_reorders(places: Seq<int>, len: nat)
    requires
        reorders(places, len),
    ensures
        forall|j: int| 0 <= j < len ==> #[trigger] places.contains(j),
{
    let all = vstd::set_lib::set_int_range(0, len as int);
    vstd::set_lib::lemma_int_range(0, len as int);
    places.unique_seq_to_set();
    assert(places.to_set().subset_of(all)) by {
        assert forall|j: int| places.to_set().contains(j) implies all.contains(j) by {
            let i = choose|i: int| 0 <= i < places.len() && places[i] == j;
            assert(0 <= places[i] < len);
        }
    }
    vstd::set_lib::lemma_subset_equality(places.to_set(), all);
    assert forall|j: int| 0 <= j < len implies #[trigger] places.contains(j) by {
        assert(all.contains(j));
        assert(places.to_set().contains(j));
    }
}

/// What is read for a key does not depend on the order of arguments with different keys.
proof fn lemma_same_arguments(
    entries: Seq<EntryView>,
    made: Seq<Option<Seq<char>>>,
    places: Seq<int>,
    others: Seq<EntryView>,
    other_made: Seq<Option<Seq<char>>>,
    key: Seq<char>,
)
    requires
        made.len() == entries.len(),
        other_made.len() == others.len(),
        others.len() == entries.len(),
        places.len() == entries.len(),
        forall|j: int| 0 <= j < entries.len() ==> #[trigger] places.contains(j),
        forall|i: int|
            0 <= i < others.len() ==> 0 <= places[i] < entries.len() && #[trigger] others[i]
                == entries[places[i]] && other_made[i] == made[places[i]],
        forall|i: int, j: int|
            0 <= i < j < entries.len() ==> (#[trigger] entries[i]).key != (#[trigger] entries[j]).key,
        forall|i: int, j: int|
            0 <= i < j < others.len() ==> (#[trigger] others[i]).key != (#[trigger] others[j]).key,
    ensures
        last_path(others, key) == last_path(entries, key),
        last_made(others, other_made, key) == last_made(entries, made, key),
        last_span(others, key) == last_span(entries, key),
{
    if exists|j: int| 0 <= j < entries.len() && is_word_path((#[trigger] entries[j]).key, key) {
        let j = choose|j: int|
            0 <= j < entries.len() && is_word_path((#[trigger] entries[j]).key, key);
        assert(places.contains(j));
        let i = choose|i: int| 0 <= i < places.len() && places[i] == j;
        assert(others[i] == entries[j]);
        lemma_only_argument(entries, made, key, j);
        lemma_only_argument(others, other_made, key, i);
    } else {
        assert forall|i: int| 0 <= i < others.len() implies !is_word_path(
            (#[trigger] others[i]).key,
            key,
        ) by {
            assert(others[i] == entries[places[i]]);
        }
        lemma_no_argument(entries, made, key);
        lemma_no_argument(others, other_made, key);
    }
}

/// Nothing is read for a key that no argument has.
proof fn lemma_no_argument(entries: Seq<EntryView>, made: Seq<Option<Seq<char>>>, key: Seq<char>)
    requires
        made.len() == entries.len(),
        forall|i: int|
            0 <= i < entries.len() ==> !is_word_path((#[trigger] entries[i]).key, key),
    ensures
        last_path(entries, key) is None,
        last_made(entries, made, key) is None,
        last_span(entries, key) is None,
    decreases entries.len(),
{
    if entries.len() > 0 {
        let shorter = entries.drop_last();
        assert forall|i: int| 0 <= i < shorter.len() implies !is_word_path(
            (#[trigger] shorter[i]).key,
            key,
        ) by {
            assert(shorter[i] == entries[i]);
        }
        lemma_no_argument(shorter, made.drop_last(), key);
        assert(!is_word_path(entries[entries.len() - 1].key, key));
    }
}

/// The one argument that has a key is what is read for it.
proof fn lemma_only_argument(
    entries: Seq<EntryView>,
    made: Seq<Option<Seq<char>>>,
    key: Seq<char>,
    j: int,
)
    requires
        made.len() == entries.len(),
        0 <= j < entries.len(),
        is_word_path(entries[j].key, key),
        forall|i: int, k: int|
            0 <= i < k < entries.len() ==> (#[trigger] entries[i]).key != (#[trigger] entries[k]).key,
    ensures
        last_path(entries, key) == (match entries[j].value {
            ValueView::Path(path) => Some(path),
            _ => None,
        }),
        last_made(entries, made, key) == (match entries[j].value {
            ValueView::Text(_, _) => made[j],
            _ => None,
        }),
        last_span(entries, key) == (match entries[j].value {
            ValueView::Text(_, span) => Some(span),
            _ => None,
        }),
    decreases entries.len(),
{
    let shorter = entries.drop_last();
    let fewer = made.drop_last();
    assert forall|i: int| 0 <= i < shorter.len() implies #[trigger] shorter[i] == entries[i] by {}
    if j == entries.len() - 1 {
        assert forall|i: int| 0 <= i < shorter.len() implies !is_word_path(
            (#[trigger] shorter[i]).key,
            key,
        ) by {
            assert(entries[i].key != entries[j].key);
        }
        lemma_no_argument(shorter, fewer, key);
    } else {
        assert(entries[j].key != entries[entries.len() - 1].key);
        assert(shorter[j] == entries[j]);
        assert forall|i: int, k: int| 0 <= i < k < shorter.len() implies (#[trigger] shorter[i]).key
            != (#[trigger] shorter[k]).key by {
            assert(entries[i].key != entries[k].key);
        }
        lemma_only_argument(shorter, fewer, key, j);
    }
}

/// The last argument with a key is the one that counts.
pub proof fn law_later_argument_wins(
    entries: Seq<EntryView>,
    made: Seq<Option<Seq<char>>>,
    key: Seq<char>,
    path: Seq<Token>,
    text: Seq<char>,
    span: Span,
    ident: Option<Seq<char>>,
)
    ensures
        last_path(
            entries.push(EntryView { key: seq![Token::Ident(key)], value: ValueView::Path(path) }),
            key,
        ) == Some(path),
        last_made(
            entries.push(EntryView { key: seq![Token::Ident(key)], value: ValueView::Text(text, span) }),
            made.push(ident),
            key,
        ) == ident,
{
}

/// A configuration names an enum and a field, and its fields are identifiers that are made from the
/// last texts given for them.
pub proof fn law_config_is_complete(
    arguments: ArgumentsView,
    made: Seq<Option<Seq<char>>>,
    config: ConfigView,
)
    requires
        fields_made(arguments.entries, made),
        config_from(arguments, made) == Some(Ok::<ConfigView, Seq<Seq<char>>>(config)),
    ensures
        arguments.failure is None,
        last_path(arguments.entries, "enum"@) == Some(config.enum_path),
        last_text(arguments.entries, "iter"@) matches Some(text) && made_from(
            Some(config.iter_field),
            text,
        ),
        match last_text(arguments.entries, "map"@) {
            Some(text) => config.map_field is Some && made_from(config.map_field, text),
            None => config.map_field is None,
        },
{
    lemma_last_made(arguments.entries, made, "iter"@);
    lemma_last_made(arguments.entries, made, "map"@);
}

} // verus!
