use bevy_filter_enum_derive::derive_enum_filter_collection;
use proc_macro2::{TokenStream, TokenTree};
use std::str::FromStr;

/// The tokens of a stream as text, one entry for each token and for each bracket.
fn flat(stream: TokenStream) -> Vec<String> {
    let mut words = Vec::new();
    for tree in stream {
        match tree {
            TokenTree::Group(group) => {
                words.push(format!("open {:?}", group.delimiter()));
                words.extend(flat(group.stream()));
                words.push(format!("close {:?}", group.delimiter()));
            }
            other => words.push(other.to_string()),
        }
    }
    words
}

fn tokens(source: &str) -> TokenStream {
    TokenStream::from_str(source).unwrap()
}

/// What the derive gives where it reports the given messages.
fn reported(messages: &[&str]) -> Vec<String> {
    let mut source = String::new();
    for message in messages {
        source.push_str(&format!("::core::compile_error! {{ {:?} }} ", message));
    }
    flat(tokens(&source))
}

fn derived(source: &str) -> Vec<String> {
    flat(derive_enum_filter_collection(tokens(source)).unwrap())
}

/// Whether `part` stands in `whole`, token by token.
fn stands_in(whole: &[String], part: &str) -> bool {
    let part = flat(tokens(part));
    whole.windows(part.len()).any(|window| window == &part[..])
}

const BAG: &str = r##"
    #[enum_filter_collection(enum = game::ItemKind, iter = "slots", map = "kind")]
    pub(crate) struct Bag {
        owner: u32,
        slots: Vec<Slot>,
    }
"##;

const BAG_EXPANDED: &str = r##"
#[doc = "Plugin that syncs [`Bag`] enum collection values to marker components."]
pub(crate) struct BagEnumFilterPlugin;

impl ::bevy_filter_enum::__private::bevy_app::Plugin for BagEnumFilterPlugin {
    fn build(&self, app: &mut ::bevy_filter_enum::__private::bevy_app::App) {
        __bevy_enum_filter_collection_register_hooks_bag(app.world_mut());
        app.add_systems(
            ::bevy_filter_enum::__private::bevy_app::PreUpdate,
            (
                __bevy_enum_filter_collection_sync_bag,
                __bevy_enum_filter_collection_cleanup_bag,
            ),
        );
    }
}

fn __bevy_enum_filter_collection_register_hooks_bag(
    world: &mut ::bevy_filter_enum::__private::bevy_ecs::world::World,
) {
    let component_id = world.register_component::<Bag>();
    if world.archetypes().iter().any(|archetype| archetype.contains(component_id)) {
        return;
    }

    let Some(hooks) = world.register_component_hooks_by_id(component_id) else {
        return;
    };

    let _ = hooks.try_on_insert(__bevy_enum_filter_collection_hook_sync_bag);
    let _ = hooks.try_on_remove(__bevy_enum_filter_collection_hook_cleanup_bag);
}

fn __bevy_enum_filter_collection_hook_sync_bag(
    mut world: ::bevy_filter_enum::__private::bevy_ecs::world::DeferredWorld<'_>,
    context: ::bevy_filter_enum::__private::bevy_ecs::lifecycle::HookContext,
) {
    let marker_indexes: ::std::vec::Vec<usize> = match world.get::<Bag>(context.entity) {
        Some(value) => value
            .slots
            .iter()
            .map(|item| ::bevy_filter_enum::EnumFilterValue::marker_index(&item.kind))
            .collect(),
        None => return,
    };

    let mut commands = world.commands();
    let mut entity_commands = commands.entity(context.entity);
    <game::ItemKind as ::bevy_filter_enum::EnumFilterValue>::sync_markers(
        |index| marker_indexes.contains(&index),
        &mut entity_commands,
    );
}

fn __bevy_enum_filter_collection_hook_cleanup_bag(
    mut world: ::bevy_filter_enum::__private::bevy_ecs::world::DeferredWorld<'_>,
    context: ::bevy_filter_enum::__private::bevy_ecs::lifecycle::HookContext,
) {
    let mut commands = world.commands();
    let mut entity_commands = commands.entity(context.entity);
    <game::ItemKind as ::bevy_filter_enum::EnumFilterValue>::remove_markers(&mut entity_commands);
}

fn __bevy_enum_filter_collection_sync_bag(
    mut commands: ::bevy_filter_enum::__private::bevy_ecs::prelude::Commands,
    q: ::bevy_filter_enum::__private::bevy_ecs::prelude::Query<
        (
            ::bevy_filter_enum::__private::bevy_ecs::prelude::Entity,
            &Bag
        ),
        ::bevy_filter_enum::__private::bevy_ecs::prelude::Or<(
            ::bevy_filter_enum::__private::bevy_ecs::prelude::Added<Bag>,
            ::bevy_filter_enum::__private::bevy_ecs::prelude::Changed<Bag>,
        )>
    >,
) {
    for (entity, collection) in &q {
        let marker_indexes: ::std::vec::Vec<usize> = collection
            .slots
            .iter()
            .map(|item| ::bevy_filter_enum::EnumFilterValue::marker_index(&item.kind))
            .collect();
        let mut ec = commands.entity(entity);
        <game::ItemKind as ::bevy_filter_enum::EnumFilterValue>::sync_markers(
            |index| marker_indexes.contains(&index),
            &mut ec,
        );
    }
}

fn __bevy_enum_filter_collection_cleanup_bag(
    mut commands: ::bevy_filter_enum::__private::bevy_ecs::prelude::Commands,
    mut removed: ::bevy_filter_enum::__private::bevy_ecs::lifecycle::RemovedComponents<Bag>,
) {
    for entity in removed.read() {
        let mut ec = commands.entity(entity);
        <game::ItemKind as ::bevy_filter_enum::EnumFilterValue>::remove_markers(&mut ec);
    }
}
"##;

#[test]
fn collection_expands_to_a_plugin() {
    assert_eq!(derived(BAG), flat(tokens(BAG_EXPANDED)));
}

#[test]
fn items_are_the_values_without_map() {
    let source = BAG.replace(", map = \"kind\"", "");
    let expected = BAG_EXPANDED.replace("&item.kind", "item");
    assert_eq!(derived(&source), flat(tokens(&expected)));
}

#[test]
fn later_keys_and_the_first_attribute_win() {
    let source = r##"
        #[enum_filter_collection(
            enum = A, iter = "owner", map = "x", iter = "slots", enum = game::ItemKind, map = "kind",
        )]
        #[enum_filter_collection(enum = B, iter = "owner", bogus)]
        pub(crate) struct Bag { owner: u32, slots: Vec<Slot> }
    "##;
    assert_eq!(derived(source), flat(tokens(BAG_EXPANDED)));
}

#[test]
fn enum_paths_keep_their_arguments() {
    let source = BAG.replace("game::ItemKind", "::game::Kind::<A, B>");
    let expected = BAG_EXPANDED.replace("game::ItemKind", "::game::Kind::<A, B>");
    assert_eq!(derived(&source), flat(tokens(&expected)));
}

#[test]
fn escapes_in_field_names_are_resolved() {
    let source = BAG.replace("\"slots\"", "\"sl\\x6fts\"");
    assert_eq!(derived(&source), flat(tokens(BAG_EXPANDED)));
}

#[test]
fn attribute_is_required() {
    let expected =
        reported(&["missing #[enum_filter_collection(enum = EnumType, iter = \"field\")]"]);
    assert_eq!(derived("struct A { b: u8 }"), expected);
    assert_eq!(derived("#[a::enum_filter_collection] enum A {}"), expected);
}

#[test]
fn enum_and_iter_are_required() {
    let missing_enum = reported(&["missing enum"]);
    let missing_iter = reported(&["missing iter"]);
    assert_eq!(derived("#[enum_filter_collection()] struct A { b: u8 }"), missing_enum);
    assert_eq!(derived("#[enum_filter_collection(iter = \"b\")] struct A { b: u8 }"), missing_enum);
    assert_eq!(derived("#[enum_filter_collection(enum = E)] struct A { b: u8 }"), missing_iter);
    assert_eq!(
        derived("#[enum_filter_collection(enum = E, map = \"b\")] struct A { b: u8 }"),
        missing_iter,
    );
}

#[test]
fn other_keys_are_refused() {
    let expected = reported(&["unsupported enum_filter_collection attribute key"]);
    assert_eq!(
        derived("#[enum_filter_collection(enum = E, iter = \"b\", sort)] struct A { b: u8 }"),
        expected,
    );
    assert_eq!(derived("#[enum_filter_collection(x = )] struct A;"), expected);
}

#[test]
fn values_are_checked() {
    assert_eq!(
        derived("#[enum_filter_collection(enum = E, iter = b)] struct A { b: u8 }"),
        reported(&["expected string literal"]),
    );
    assert_eq!(
        derived("#[enum_filter_collection(enum = \"E\", iter = \"b\")] struct A { b: u8 }"),
        reported(&["expected identifier"]),
    );
    assert_eq!(
        derived("#[enum_filter_collection(enum, iter = \"b\")] struct A { b: u8 }"),
        reported(&["expected `=`"]),
    );
}

#[test]
fn only_structs_with_named_fields_are_accepted() {
    let attribute = "#[enum_filter_collection(enum = E, iter = \"b\")]";
    let not_struct = reported(&["EnumFilterCollection can only be derived for structs"]);
    let not_named = reported(&["EnumFilterCollection only supports structs with named fields"]);
    assert_eq!(derived(&format!("{attribute} enum A {{ B }}")), not_struct);
    assert_eq!(derived(&format!("{attribute} union A {{ b: u8 }}")), not_struct);
    assert_eq!(derived(&format!("{attribute} struct A(u8);")), not_named);
    assert_eq!(derived(&format!("{attribute} struct A;")), not_named);
}

#[test]
fn iter_field_must_exist() {
    let expected = reported(&["EnumFilterCollection iter field `b` does not exist"]);
    let attribute = "#[enum_filter_collection(enum = E, iter = \"b\")]";
    assert_eq!(derived(&format!("{attribute} struct A {{}}")), expected);
    assert_eq!(derived(&format!("{attribute} struct A {{ c: u8, r#b: u8 }}")), expected);
}

#[test]
fn errors_of_the_attribute_come_first() {
    assert_eq!(
        derived("#[enum_filter_collection(bogus)] enum A { B }"),
        reported(&["unsupported enum_filter_collection attribute key"]),
    );
}

#[test]
fn field_names_must_be_identifiers() {
    for name in ["", "a b", "1", "r#b", "a-b"] {
        let source = format!("#[enum_filter_collection(iter = {:?}, bogus)] enum A {{}}", name);
        assert!(derive_enum_filter_collection(tokens(&source)).is_none());
    }
    let keyword = "#[enum_filter_collection(enum = E, iter = \"type\")] struct A { b: u8 }";
    assert_eq!(
        flat(derive_enum_filter_collection(tokens(keyword)).unwrap()),
        reported(&["EnumFilterCollection iter field `type` does not exist"]),
    );
}

#[test]
fn field_names_beyond_ascii_are_kept_as_they_are_written() {
    let source = BAG.replace("slots", "cafe\u{301}").replace("kind", "\u{e9}tat");
    let expected = BAG_EXPANDED.replace("slots", "cafe\u{301}").replace("kind", "\u{e9}tat");
    assert_eq!(derived(&source), flat(tokens(&expected)));

    let other = "#[enum_filter_collection(enum = E, iter = \"caf\u{e9}\")] struct A { cafe\u{301}: u8 }";
    assert_eq!(
        derived(other),
        reported(&["EnumFilterCollection iter field `caf\u{e9}` does not exist"]),
    );
}

#[test]
fn field_names_beyond_ascii_must_be_identifiers() {
    for name in ["\u{1f980}", "caf\u{e9} ", "\u{301}e", "a\u{a0}b", "r#\u{e9}"] {
        let source = format!("#[enum_filter_collection(iter = \"{name}\")] struct A {{ b: u8 }}");
        assert!(derive_enum_filter_collection(tokens(&source)).is_none());
    }
}

#[test]
fn cleanup_is_one_call() {
    let output = derived(BAG);
    let removing = |on: &str| {
        format!("<game::ItemKind as ::bevy_filter_enum::EnumFilterValue>::remove_markers(&mut {on});")
    };
    let hook = format!(
        "{{ let mut commands = world.commands();
            let mut entity_commands = commands.entity(context.entity); {} }}",
        removing("entity_commands"),
    );
    let system = format!("{{ let mut ec = commands.entity(entity); {} }}", removing("ec"));
    assert!(stands_in(&output, &hook));
    assert!(stands_in(&output, &system));
    let calls = output.iter().filter(|word| *word == "remove_markers").count();
    assert_eq!(calls, 2);
}

#[test]
fn the_collection_itself_is_only_read() {
    let output = derived(BAG);
    for word in ["insert", "insert_if_new", "remove"] {
        assert!(!output.contains(&word.to_string()));
    }
    assert!(!stands_in(&output, "&mut Bag"));
    assert!(stands_in(&output, "|index| marker_indexes.contains(&index)"));
}

#[test]
fn raw_struct_name_cannot_be_derived() {
    let source = "#[enum_filter_collection(enum = E, iter = \"b\")] struct r#type { b: u8 }";
    assert!(derive_enum_filter_collection(tokens(source)).is_none());
}

#[test]
fn syntax_errors_of_the_item_are_reported() {
    assert_eq!(derived(""), reported(&["unexpected end of input, expected one of: `struct`, `enum`, `union`"]));
}
