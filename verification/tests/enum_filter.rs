use bevy_filter_enum_derive::derive_enum_filter;
use proc_macro2::{TokenStream, TokenTree};
use std::str::FromStr;

/// The tokens of a stream as text, one entry for each token and for each bracket.
fn flat(stream: TokenStream) -> Vec<String> {
    let mut words = Vec::new();
    for tree in stream {
        match tree {
            TokenTree::Group(group) => {
                words.push(format!("open {:?}", group.delimiter()));
                words.extend(flat(group.stream()));
                words.push(format!("close {:?}", group.delimiter()));
            }
            other => words.push(other.to_string()),
        }
    }
    words
}

fn tokens(source: &str) -> TokenStream {
    TokenStream::from_str(source).unwrap()
}

/// What the derive gives where it reports the given messages.
fn reported(messages: &[&str]) -> Vec<String> {
    let mut source = String::new();
    for message in messages {
        source.push_str(&format!("::core::compile_error! {{ {:?} }} ", message));
    }
    flat(tokens(&source))
}

fn derived(source: &str) -> Vec<String> {
    flat(derive_enum_filter(tokens(source)).unwrap())
}

/// Whether `part` stands in `whole`, token by token.
fn stands_in(whole: &[String], part: &str) -> bool {
    let part = flat(tokens(part));
    whole.windows(part.len()).any(|window| window == &part[..])
}

const PHASE: &str = r##"
    /// The phase of a unit.
    #[derive(Component, EnumFilter)]
    pub enum Phase {
        #[strum(to_string = "idle!")]
        Idle,
        #[enum_filter(extract)]
        Moving(Speed),
        Hit { by: u8 },
        #[enum_filter(extract)]
        Dash(Speed),
        #[enum_filter(extract)]
        Held(Grip<u8>),
        #[strum(to_string = "pair!")]
        Pair(u8, u8),
    }
"##;

const PHASE_EXPANDED: &str = r##"
        #[doc = "Marker component for [`Phase::Idle`]."] #[derive(::bevy_filter_enum::__private::bevy_ecs::prelude::Component, Debug, Default)] pub struct PhaseIdle;
#[doc = "Marker component for [`Phase::Moving`]."] #[derive(::bevy_filter_enum::__private::bevy_ecs::prelude::Component, Debug, Default)] pub struct PhaseMoving;
#[doc = "Marker component for [`Phase::Hit`]."] #[derive(::bevy_filter_enum::__private::bevy_ecs::prelude::Component, Debug, Default)] pub struct PhaseHit;
#[doc = "Marker component for [`Phase::Dash`]."] #[derive(::bevy_filter_enum::__private::bevy_ecs::prelude::Component, Debug, Default)] pub struct PhaseDash;
#[doc = "Marker component for [`Phase::Held`]."] #[derive(::bevy_filter_enum::__private::bevy_ecs::prelude::Component, Debug, Default)] pub struct PhaseHeld;
#[doc = "Marker component for [`Phase::Pair`]."] #[derive(::bevy_filter_enum::__private::bevy_ecs::prelude::Component, Debug, Default)] pub struct PhasePair;

        impl ::core::fmt::Display for PhaseIdle { fn fmt(&self, f: &mut ::core::fmt::Formatter<'_>) -> ::core::fmt::Result { ::core::fmt::Display::fmt(&Phase::Idle, f) } }
impl ::core::fmt::Display for PhaseMoving { fn fmt(&self, f: &mut ::core::fmt::Formatter<'_>) -> ::core::fmt::Result { f.write_str("Moving") } }
impl ::core::fmt::Display for PhaseHit { fn fmt(&self, f: &mut ::core::fmt::Formatter<'_>) -> ::core::fmt::Result { f.write_str("Hit") } }
impl ::core::fmt::Display for PhaseDash { fn fmt(&self, f: &mut ::core::fmt::Formatter<'_>) -> ::core::fmt::Result { f.write_str("Dash") } }
impl ::core::fmt::Display for PhaseHeld { fn fmt(&self, f: &mut ::core::fmt::Formatter<'_>) -> ::core::fmt::Result { f.write_str("Held") } }
impl ::core::fmt::Display for PhasePair { fn fmt(&self, f: &mut ::core::fmt::Formatter<'_>) -> ::core::fmt::Result { f.write_str("Pair") } }

        impl ::bevy_filter_enum::EnumFilterValue for Phase {
            fn marker_index(&self) -> usize {
                match self {
                    Phase::Idle => 0usize,
Phase::Moving(..) => 1usize,
Phase::Hit { .. } => 2usize,
Phase::Dash(..) => 3usize,
Phase::Held(..) => 4usize,
Phase::Pair(..) => 5usize,
                }
            }

            fn sync_markers(
                active: impl Fn(usize) -> bool,
                entity: &mut ::bevy_filter_enum::__private::bevy_ecs::system::EntityCommands<'_>,
            ) {
                if active(0usize) { entity.insert_if_new(PhaseIdle); } else { entity.remove::<PhaseIdle>(); }
if active(1usize) { entity.insert_if_new(PhaseMoving); } else { entity.remove::<PhaseMoving>(); }
if active(2usize) { entity.insert_if_new(PhaseHit); } else { entity.remove::<PhaseHit>(); }
if active(3usize) { entity.insert_if_new(PhaseDash); } else { entity.remove::<PhaseDash>(); }
if active(4usize) { entity.insert_if_new(PhaseHeld); } else { entity.remove::<PhaseHeld>(); }
if active(5usize) { entity.insert_if_new(PhasePair); } else { entity.remove::<PhasePair>(); }
            }
        }

        #[doc = "Plugin that syncs [`Phase`] variants to marker components."]
        pub struct PhaseEnumFilterPlugin;

        impl ::bevy_filter_enum::__private::bevy_app::Plugin for PhaseEnumFilterPlugin {
            fn build(&self, app: &mut ::bevy_filter_enum::__private::bevy_app::App) {
                __bevy_enum_filter_register_hooks_phase(app.world_mut());
                app.add_systems(
                    ::bevy_filter_enum::__private::bevy_app::PreUpdate,
                    (
                        __bevy_enum_filter_sync_phase,
                        __bevy_enum_filter_cleanup_phase,
                    ),
                );
            }
        }

        fn __bevy_enum_filter_register_hooks_phase(
            world: &mut ::bevy_filter_enum::__private::bevy_ecs::world::World,
        ) {
            let component_id = world.register_component::<Phase>();
            if world.archetypes().iter().any(|archetype| archetype.contains(component_id)) {
                return;
            }

            let Some(hooks) = world.register_component_hooks_by_id(component_id) else {
                return;
            };

            let _ = hooks.try_on_insert(__bevy_enum_filter_hook_sync_phase);
            let _ = hooks.try_on_remove(__bevy_enum_filter_hook_cleanup_phase);
        }

        fn __bevy_enum_filter_hook_sync_phase(
            mut world: ::bevy_filter_enum::__private::bevy_ecs::world::DeferredWorld<'_>,
            context: ::bevy_filter_enum::__private::bevy_ecs::lifecycle::HookContext,
        ) {
            let ::core::option::Option::Some(value) = world.get::<Phase>(context.entity) else {
                return;
            };
            let variant_index = ::bevy_filter_enum::EnumFilterValue::marker_index(value);
            let __enum_filter_payload_1: ::core::option::Option<Speed> = match value { Phase::Moving(payload) => { ::core::option::Option::Some(::core::clone::Clone::clone(payload)) } Phase::Idle => ::core::option::Option::None, Phase::Hit { .. } => ::core::option::Option::None, Phase::Dash(..) => ::core::option::Option::None, Phase::Held(..) => ::core::option::Option::None, Phase::Pair(..) => ::core::option::Option::None, };
let __enum_filter_payload_3: ::core::option::Option<Speed> = match value { Phase::Dash(payload) => { ::core::option::Option::Some(::core::clone::Clone::clone(payload)) } Phase::Idle => ::core::option::Option::None, Phase::Moving(..) => ::core::option::Option::None, Phase::Hit { .. } => ::core::option::Option::None, Phase::Held(..) => ::core::option::Option::None, Phase::Pair(..) => ::core::option::Option::None, };
let __enum_filter_payload_4: ::core::option::Option<Grip<u8>> = match value { Phase::Held(payload) => { ::core::option::Option::Some(::core::clone::Clone::clone(payload)) } Phase::Idle => ::core::option::Option::None, Phase::Moving(..) => ::core::option::Option::None, Phase::Hit { .. } => ::core::option::Option::None, Phase::Dash(..) => ::core::option::Option::None, Phase::Pair(..) => ::core::option::Option::None, };

            let mut commands = world.commands();
            let mut entity_commands = commands.entity(context.entity);
            <Phase as ::bevy_filter_enum::EnumFilterValue>::sync_markers(
                |index| index == variant_index,
                &mut entity_commands,
            );
            {
                let ec = &mut entity_commands;
                if !::core::matches!(variant_index, 1usize | 3usize) { ec.remove::<Speed>(); } if !::core::matches!(variant_index, 4usize) { ec.remove::<Grip<u8> >(); }
            }
            if let ::core::option::Option::Some(payload) = __enum_filter_payload_1 { entity_commands.insert(payload); }
if let ::core::option::Option::Some(payload) = __enum_filter_payload_3 { entity_commands.insert(payload); }
if let ::core::option::Option::Some(payload) = __enum_filter_payload_4 { entity_commands.insert(payload); }
        }

        fn __bevy_enum_filter_hook_cleanup_phase(
            mut world: ::bevy_filter_enum::__private::bevy_ecs::world::DeferredWorld<'_>,
            context: ::bevy_filter_enum::__private::bevy_ecs::lifecycle::HookContext,
        ) {
            let mut commands = world.commands();
            let mut ec = commands.entity(context.entity);
            <Phase as ::bevy_filter_enum::EnumFilterValue>::remove_markers(&mut ec);
            ec.remove::<(Speed, Grip<u8>,)>();
        }

        fn __bevy_enum_filter_sync_phase(
            mut commands: ::bevy_filter_enum::__private::bevy_ecs::prelude::Commands,
            q: ::bevy_filter_enum::__private::bevy_ecs::prelude::Query<
                (
                    ::bevy_filter_enum::__private::bevy_ecs::prelude::Entity,
                    &Phase
                ),
                ::bevy_filter_enum::__private::bevy_ecs::prelude::Or<(
                    ::bevy_filter_enum::__private::bevy_ecs::prelude::Added<Phase>,
                    ::bevy_filter_enum::__private::bevy_ecs::prelude::Changed<Phase>,
                )>
            >,
        ) {
            for (entity, value) in &q {
                let variant_index = ::bevy_filter_enum::EnumFilterValue::marker_index(value);
                let mut ec = commands.entity(entity);
                <Phase as ::bevy_filter_enum::EnumFilterValue>::sync_markers(
                    |index| index == variant_index,
                    &mut ec,
                );
                {
                    let ec = &mut ec;
                    if !::core::matches!(variant_index, 1usize | 3usize) { ec.remove::<Speed>(); } if !::core::matches!(variant_index, 4usize) { ec.remove::<Grip<u8> >(); }
                }
                match value { Phase::Idle => {} Phase::Moving(payload) => { ec.insert(::core::clone::Clone::clone(payload)); } Phase::Hit { .. } => {} Phase::Dash(payload) => { ec.insert(::core::clone::Clone::clone(payload)); } Phase::Held(payload) => { ec.insert(::core::clone::Clone::clone(payload)); } Phase::Pair(..) => {} }
            }
        }

        fn __bevy_enum_filter_cleanup_phase(
            mut commands: ::bevy_filter_enum::__private::bevy_ecs::prelude::Commands,
            mut removed: ::bevy_filter_enum::__private::bevy_ecs::lifecycle::RemovedComponents<Phase>,
        ) {
            for entity in removed.read() {
                let mut ec = commands.entity(entity);
                <Phase as ::bevy_filter_enum::EnumFilterValue>::remove_markers(&mut ec);
                ec.remove::<(Speed, Grip<u8>,)>();
            }
        }
"##;

#[test]
fn enum_expands_to_markers_plugin_and_payload_sync() {
    assert_eq!(derived(PHASE), flat(tokens(PHASE_EXPANDED)));
}

#[test]
fn enum_without_extraction_has_no_payload_code() {
    let output = derived("enum Door { Open, Shut }");
    assert!(!output.contains(&"matches".to_string()));
    assert!(!output.contains(&"Clone".to_string()));
    assert!(!output.iter().any(|word| word.starts_with("__enum_filter_payload_")));
    assert!(stands_in(&output, "{ let ec = &mut entity_commands; }"));
    assert!(stands_in(
        &output,
        "{ let mut commands = world.commands(); let mut ec = commands.entity(context.entity); \
         <Door as ::bevy_filter_enum::EnumFilterValue>::remove_markers(&mut ec); }",
    ));
}

#[test]
fn enum_without_variants_expands() {
    let output = derived("enum Never {}");
    assert!(stands_in(&output, "fn marker_index(&self) -> usize { match self {} }"));
    assert!(stands_in(&output, "struct NeverEnumFilterPlugin;"));
}

#[test]
fn strum_on_the_enum_displays_unit_markers_as_variants() {
    let output = derived("#[strum(serialize_all = \"x\")] enum A { B, C(u8), D {} }");
    assert!(stands_in(&output, "{ ::core::fmt::Display::fmt(&A::B, f) }"));
    assert!(stands_in(&output, "{ f.write_str(\"C\") }"));
    assert!(stands_in(&output, "{ f.write_str(\"D\") }"));
}

#[test]
fn attributes_are_told_apart_by_their_whole_path() {
    let output = derived("#[a::strum] enum A { B, #[a::enum_filter(nope)] C(u8) }");
    assert!(stands_in(&output, "{ f.write_str(\"B\") }"));
    assert!(!output.contains(&"compile_error".to_string()));
}

#[test]
fn visibility_is_kept() {
    let output = derived("pub(in crate::game) enum A { B }");
    assert!(stands_in(&output, "pub(in crate::game) struct AB;"));
    assert!(stands_in(&output, "pub(in crate::game) struct AEnumFilterPlugin;"));
}

#[test]
fn raw_variant_names_lose_their_prefix_in_the_marker() {
    let output = derived("enum A { r#type }");
    assert!(stands_in(&output, "struct Atype;"));
    assert!(stands_in(&output, "A::r#type => 0usize,"));
    assert!(stands_in(&output, "{ f.write_str(\"r#type\") }"));
    assert!(stands_in(&output, "#[doc = \"Marker component for [`A::r#type`].\"]"));
}

#[test]
fn helper_functions_are_named_in_lower_case() {
    let output = derived("enum \u{c9}tatDuJeu { A }");
    assert!(output.contains(&"__bevy_enum_filter_sync_\u{e9}tatdujeu".to_string()));
    assert!(output.contains(&"\u{c9}tatDuJeuEnumFilterPlugin".to_string()));
}

#[test]
fn names_beyond_ascii_are_kept_as_they_are_written() {
    let output = derived("enum Sce\u{300}ne { \u{c9}te\u{301}, #[enum_filter(extract)] E\u{301}te\u{301}(Dure\u{301}e) }");
    assert!(stands_in(&output, "struct Sce\u{300}ne\u{c9}te\u{301};"));
    assert!(stands_in(&output, "struct Sce\u{300}neE\u{301}te\u{301};"));
    assert!(stands_in(&output, "Sce\u{300}ne::E\u{301}te\u{301}(..) => 1usize,"));
    assert!(stands_in(&output, "ec.remove::<(Dure\u{301}e,)>();"));
    assert!(stands_in(&output, "{ f.write_str(\"\u{c9}te\\u{301}\") }"));
    assert!(output.contains(&"Sce\u{300}neEnumFilterPlugin".to_string()));
    assert!(output.contains(&"__bevy_enum_filter_hook_sync_sce\u{300}ne".to_string()));
}

#[test]
fn lower_case_can_be_longer_than_the_name() {
    let output = derived("enum \u{130}l { A }");
    assert!(output.contains(&"__bevy_enum_filter_cleanup_i\u{307}l".to_string()));
}

#[test]
fn hook_and_system_issue_the_same_commands() {
    let output = derived(PHASE);
    for on in ["entity_commands", "ec"] {
        let synced = format!(
            "<Phase as ::bevy_filter_enum::EnumFilterValue>::sync_markers(
                |index| index == variant_index, &mut {on},
            );
            {{
                let ec = &mut {on};
                if !::core::matches!(variant_index, 1usize | 3usize) {{ ec.remove::<Speed>(); }}
                if !::core::matches!(variant_index, 4usize) {{ ec.remove::<Grip<u8> >(); }}
            }}"
        );
        assert!(stands_in(&output, &synced));
    }
    let inserts = output.windows(3).filter(|words| words[0] == "insert" && words[2] == "payload");
    assert_eq!(inserts.count(), 3);
    let arms = output.windows(6).filter(|words| words[0] == "insert" && words[2] == ":");
    assert_eq!(arms.count(), 3);
}

#[test]
fn the_enum_itself_is_only_read() {
    let output = derived(PHASE);
    assert!(!stands_in(&output, "remove::<Phase>"));
    assert!(!stands_in(&output, "insert_if_new(Phase)"));
    assert!(!stands_in(&output, "&mut Phase"));
    assert!(stands_in(&output, "world.get::<Phase>(context.entity)"));
}

#[test]
fn raw_enum_name_cannot_be_derived() {
    assert!(derive_enum_filter(tokens("enum r#type { A }")).is_none());
}

#[test]
fn raw_enum_name_with_a_refused_variant_reports_the_variant() {
    let output = derive_enum_filter(tokens("enum r#type { #[enum_filter(extract)] A }"));
    assert_eq!(
        flat(output.unwrap()),
        reported(&["#[enum_filter(extract)] requires a tuple variant with exactly one field"]),
    );
}

#[test]
fn payload_types_are_told_apart_by_what_they_print_as() {
    let output = derived(
        "enum A { #[enum_filter(extract)] B(a::T), #[enum_filter(extract)] C(T), \
         #[enum_filter(extract)] D(a :: T) }",
    );
    assert!(stands_in(
        &output,
        "if !::core::matches!(variant_index, 0usize | 2usize) { ec.remove::<a::T>(); } \
         if !::core::matches!(variant_index, 1usize) { ec.remove::<T>(); }",
    ));
    assert!(stands_in(&output, "ec.remove::<(a::T, T,)>();"));
}

#[test]
fn only_enums_are_accepted() {
    let expected = reported(&["EnumFilter can only be derived for enums"]);
    assert_eq!(derived("struct A;"), expected);
    assert_eq!(derived("struct A { b: u8 }"), expected);
    assert_eq!(derived("union A { b: u8 }"), expected);
}

#[test]
fn syntax_errors_are_reported() {
    assert_eq!(derived("fn a() {}"), reported(&["expected one of: `struct`, `enum`, `union`"]));
}

#[test]
fn extract_needs_a_tuple_variant_with_one_field() {
    let expected =
        reported(&["#[enum_filter(extract)] requires a tuple variant with exactly one field"]);
    assert_eq!(derived("enum A { #[enum_filter(extract)] B }"), expected);
    assert_eq!(derived("enum A { #[enum_filter(extract)] B() }"), expected);
    assert_eq!(derived("enum A { #[enum_filter(extract)] B(u8, u8) }"), expected);
    assert_eq!(derived("enum A { #[enum_filter(extract)] B { c: u8 } }"), expected);
}

#[test]
fn extract_is_the_only_key() {
    let expected = reported(&["unsupported enum_filter attribute key, expected `extract`"]);
    assert_eq!(derived("enum A { #[enum_filter(extrakt)] B(u8) }"), expected);
    assert_eq!(derived("enum A { #[enum_filter(extract, skip)] B(u8) }"), expected);
    assert_eq!(derived("enum A { #[enum_filter(a::extract)] B(u8) }"), expected);
    assert_eq!(derived("enum A { #[enum_filter(other = \"x\")] B(u8) }"), expected);
}

#[test]
fn an_unsupported_key_comes_before_a_later_syntax_error() {
    assert_eq!(
        derived("enum A { #[enum_filter(other this is wrong)] B(u8) }"),
        reported(&["unsupported enum_filter attribute key, expected `extract`"]),
    );
}

#[test]
fn extract_takes_no_value() {
    assert_eq!(
        derived("enum A { #[enum_filter(extract = true)] B(u8) }"),
        reported(&["expected `,`"]),
    );
}

#[test]
fn enum_filter_needs_parentheses() {
    assert_eq!(
        derived("enum A { #[enum_filter] B(u8) }"),
        reported(&["expected attribute arguments in parentheses: #[enum_filter(...)]"]),
    );
}

#[test]
fn empty_arguments_and_repeated_attributes_are_accepted() {
    let output = derived("enum A { #[enum_filter()] B(u8), #[enum_filter(extract,)] #[enum_filter()] C(u16) }");
    assert!(stands_in(&output, "let __enum_filter_payload_1: ::core::option::Option<u16> ="));
    assert!(!output.contains(&"__enum_filter_payload_0".to_string()));
}

#[test]
fn the_first_refused_variant_decides() {
    assert_eq!(
        derived("enum A { B, #[enum_filter(x)] C(u8), #[enum_filter(extract)] D }"),
        reported(&["unsupported enum_filter attribute key, expected `extract`"]),
    );
}
