use bevy_filter_enum_derive::collection::{config_from_arguments, EnumFilterCollectionConfig};
use bevy_filter_enum_derive::enum_filter::render_enum;
use bevy_filter_enum_derive::enum_plan::plan_enum;
use bevy_filter_enum_derive::extract::names_extract;
use bevy_filter_enum_derive::ident::{ident_from, is_ascii_text};
use bevy_filter_enum_derive::ident::{is_identifier_shaped, without_raw_prefix};
use bevy_filter_enum_derive::meta::{Arguments, Entry, Value};
use bevy_filter_enum_derive::names::{make_marker, make_names, payload_var};
use bevy_filter_enum_derive::payload::{carrying_indexes, distinct_payload_types};
use bevy_filter_enum_derive::syntax::{Body, Input, Variant};
use bevy_filter_enum_derive::template::{quote, Holes};
use bevy_filter_enum_derive::token::decimal_string;
use proc_macro2::{Ident, Span, TokenStream};
use std::str::FromStr;

fn tokens(source: &str) -> TokenStream {
    TokenStream::from_str(source).unwrap()
}

fn ident(text: &str) -> Ident {
    Ident::new(text, Span::call_site())
}

#[test]
fn template_splits_words_and_punctuation() {
    let got = quote("fn f(&self, g: &mut a::B<'_>) -> C { x == y => [..]; }", &Holes::new());
    assert_eq!(
        got.to_string(),
        "fn f (& self , g : & mut a :: B < '_ >) -> C { x == y => [..] ; }",
    );
}

#[test]
fn template_fills_holes_by_name() {
    let holes = Holes::new()
        .with("a", &tokens("x + 1"))
        .with("ab", &tokens("y"))
        .with("a", &tokens("never"));
    assert_eq!(quote("#a, #ab { #a }", &holes).to_string(), "x + 1 , y { x + 1 }");
}

#[test]
fn template_keeps_a_pound_that_no_hole_follows() {
    let holes = Holes::new().with("doc", &tokens("\"text\""));
    assert_eq!(quote("#[doc = #doc] #other", &holes).to_string(), "# [doc = \"text\"] # other");
}

#[test]
fn identifiers_are_told_from_other_texts() {
    for text in ["a", "_", "_1", "Type", "type", "self", "\u{e9}t\u{e9}", "\u{4f60}\u{597d}", "cafe\u{301}"] {
        assert!(is_identifier_shaped(text));
        assert_eq!(ident_from(text, Span::call_site()).unwrap().to_string(), text);
    }
    for text in ["", "1", "1a", "a b", "a#", "r#a", " a", "a-", "1\u{e9}", "\u{e9} ", "r#\u{e9}"] {
        assert!(!is_identifier_shaped(text));
        assert!(ident_from(text, Span::call_site()).is_none());
    }
    for text in [
        "\u{20ac}", "\u{301}a", "\u{1f980}", "a\u{1f980}", "\u{a0}\u{e9}", "\u{e9}\u{a0}",
        "a\u{3000}b", "\u{feff}\u{e9}", "\u{e9}\u{200e}",
    ] {
        assert!(is_identifier_shaped(text));
        assert!(ident_from(text, Span::call_site()).is_none());
    }
}

#[test]
fn ascii_is_told_from_other_texts() {
    for text in ["", "a", "~", "\u{7f}"] {
        assert!(is_ascii_text(text));
    }
    for text in ["\u{80}", "a\u{301}", "\u{e9}a"] {
        assert!(!is_ascii_text(text));
    }
}

#[test]
fn raw_prefix_is_taken_off_once() {
    assert_eq!(without_raw_prefix("r#type"), "type");
    assert_eq!(without_raw_prefix("r"), "r");
    assert_eq!(without_raw_prefix("rare"), "rare");
    assert_eq!(without_raw_prefix("r#r#a"), "r#a");
}

#[test]
fn numbers_are_written_in_base_ten() {
    assert_eq!(decimal_string(0), "0");
    assert_eq!(decimal_string(9), "9");
    assert_eq!(decimal_string(10), "10");
    assert_eq!(decimal_string(90210), "90210");
    assert_eq!(decimal_string(usize::MAX), usize::MAX.to_string());
    assert_eq!(payload_var(120).to_string(), "__enum_filter_payload_120");
}

#[test]
fn names_are_made_up_from_the_type() {
    let names = make_names("__bevy_enum_filter_", &ident("GameState")).unwrap();
    assert_eq!(names.plugin.to_string(), "GameStateEnumFilterPlugin");
    assert_eq!(names.register_hooks.to_string(), "__bevy_enum_filter_register_hooks_gamestate");
    assert_eq!(names.hook_sync.to_string(), "__bevy_enum_filter_hook_sync_gamestate");
    assert_eq!(names.hook_cleanup.to_string(), "__bevy_enum_filter_hook_cleanup_gamestate");
    assert_eq!(names.sync.to_string(), "__bevy_enum_filter_sync_gamestate");
    assert_eq!(names.cleanup.to_string(), "__bevy_enum_filter_cleanup_gamestate");
    let helpers = [
        names.register_hooks.to_string(),
        names.hook_sync.to_string(),
        names.hook_cleanup.to_string(),
        names.sync.to_string(),
        names.cleanup.to_string(),
    ];
    for i in 0..helpers.len() {
        for j in 0..i {
            assert_ne!(helpers[i], helpers[j]);
        }
    }
    assert!(make_names("__x_", &Ident::new_raw("type", Span::call_site())).is_none());
    let marker = make_marker(&ident("Game"), &Ident::new_raw("type", Span::call_site()));
    assert_eq!(marker.unwrap().to_string(), "Gametype");
}

#[test]
fn markers_of_different_variants_differ() {
    let a = make_marker(&ident("Game"), &ident("On")).unwrap();
    let b = make_marker(&ident("Game"), &ident("Off")).unwrap();
    assert_ne!(a.to_string(), b.to_string());
}

#[test]
fn helper_names_of_enums_and_collections_differ() {
    let a = make_names("__bevy_enum_filter_", &ident("collection_sync_a")).unwrap();
    let b = make_names("__bevy_enum_filter_collection_", &ident("a")).unwrap();
    assert_eq!(a.sync.to_string(), "__bevy_enum_filter_sync_collection_sync_a");
    assert_eq!(b.sync.to_string(), "__bevy_enum_filter_collection_sync_a");
}

#[test]
fn payload_types_are_listed_once_with_their_carriers() {
    let payloads = vec![
        None,
        Some(tokens("Speed")),
        Some(tokens("Grip<u8>")),
        None,
        Some(tokens("Speed")),
        Some(tokens("Grip < u8 >")),
    ];
    let types = distinct_payload_types(&payloads);
    let printed: Vec<String> = types.iter().map(|ty| ty.to_string()).collect();
    assert_eq!(printed, vec!["Speed".to_string(), "Grip < u8 >".to_string()]);
    assert_eq!(carrying_indexes(&payloads, &types[0]), vec![1, 4]);
    assert_eq!(carrying_indexes(&payloads, &types[1]), vec![2, 5]);
    assert_eq!(carrying_indexes(&payloads, &tokens("Other")), Vec::<usize>::new());
}

#[test]
fn every_variant_that_extracts_keeps_its_own_type_only() {
    let payloads = vec![Some(tokens("A")), None, Some(tokens("B")), Some(tokens("A"))];
    let types = distinct_payload_types(&payloads);
    for active in 0..payloads.len() {
        let kept: Vec<String> = types
            .iter()
            .filter(|ty| carrying_indexes(&payloads, ty).contains(&active))
            .map(|ty| ty.to_string())
            .collect();
        let own: Vec<String> = payloads[active].iter().map(|ty| ty.to_string()).collect();
        assert_eq!(kept, own);
    }
}

fn path(text: &str) -> syn::Path {
    syn::parse_str(text).unwrap()
}

fn entry(key: syn::Path, value: Value) -> Entry {
    Entry { key, value }
}

fn text(value: &str) -> Value {
    Value::Text(syn::LitStr::new(value, Span::call_site()))
}

fn word(text: &str) -> syn::Path {
    syn::Path::from(ident(text))
}

/// A path of one word with a `::` at its end.
fn trailed(text: &str) -> syn::Path {
    let mut path = word(text);
    path.segments.push_punct(syn::token::PathSep::default());
    path
}

fn error(message: &str) -> syn::Error {
    syn::Error::new(Span::call_site(), message)
}

#[test]
fn arguments_name_extract_or_fail() {
    let named = Arguments {
        entries: vec![entry(word("other"), Value::Absent), entry(word("extract"), Value::Absent)],
        unsupported: None,
        failure: None,
    };
    assert!(names_extract(named).unwrap());
    let unnamed = Arguments {
        entries: vec![entry(path("a::extract"), Value::Absent)],
        unsupported: None,
        failure: None,
    };
    assert!(!names_extract(unnamed).unwrap());
    let failed = Arguments {
        entries: vec![entry(word("extract"), Value::Absent)],
        unsupported: Some(word("x")),
        failure: Some(error("no")),
    };
    assert_eq!(names_extract(failed).unwrap_err().to_string(), "no");
}

#[test]
fn a_separator_at_the_end_of_a_path_counts_only_where_it_is_printed() {
    let named = Arguments {
        entries: vec![entry(trailed("extract"), Value::Absent)],
        unsupported: None,
        failure: None,
    };
    assert!(names_extract(named).unwrap());
    let arguments = Arguments {
        entries: vec![
            entry(trailed("enum"), Value::Path(trailed("E"))),
            entry(trailed("iter"), text("b")),
        ],
        unsupported: None,
        failure: None,
    };
    let config = config_from_arguments(arguments, &tokens("struct S;")).unwrap().unwrap();
    assert_eq!(quote::ToTokens::to_token_stream(&config.enum_path).to_string(), "E ::");
    assert_eq!(config.iter_field.to_string(), "b");
}

#[test]
fn fields_beyond_ascii_are_kept_as_they_are_written() {
    let arguments = Arguments {
        entries: vec![
            entry(word("enum"), Value::Path(path("E"))),
            entry(word("iter"), text("cafe\u{301}")),
            entry(word("map"), text("caf\u{e9}")),
        ],
        unsupported: None,
        failure: None,
    };
    let config = config_from_arguments(arguments, &tokens("struct S;")).unwrap().unwrap();
    assert_eq!(config.iter_field.to_string(), "cafe\u{301}");
    assert_eq!(config.map_field.unwrap().to_string(), "caf\u{e9}");
}

#[test]
fn configuration_is_read_off_the_arguments() {
    let entries = || {
        vec![
            entry(word("enum"), Value::Path(path("a::B"))),
            entry(word("iter"), text("old")),
            entry(word("iter"), text("new")),
        ]
    };
    let item = tokens("struct S;");
    let arguments = Arguments { entries: entries(), unsupported: None, failure: None };
    let config = config_from_arguments(arguments, &item).unwrap().unwrap();
    assert_eq!(quote::ToTokens::to_token_stream(&config.enum_path).to_string(), "a :: B");
    assert_eq!(config.iter_field.to_string(), "new");
    assert!(config.map_field.is_none());

    let arguments = Arguments { entries: entries(), unsupported: None, failure: Some(error("no")) };
    let failure = config_from_arguments(arguments, &item).unwrap().err().unwrap();
    assert_eq!(failure.to_string(), "no");

    let mut invalid = entries();
    invalid.push(entry(word("map"), text("not one")));
    let arguments = Arguments { entries: invalid, unsupported: None, failure: Some(error("no")) };
    assert!(config_from_arguments(arguments, &item).is_none());
}

fn item(name: &str, body: Body) -> Input {
    Input {
        attributes: Vec::new(),
        visibility: tokens("pub"),
        ident: ident(name),
        body,
        tokens: tokens("whole"),
    }
}

#[test]
fn an_item_made_by_hand_is_planned_and_rendered() {
    let variant = Variant {
        attributes: Vec::new(),
        ident: ident("On"),
        fields: syn::Fields::Unit,
        tokens: tokens("On"),
    };
    let plan = match plan_enum(&item("Light", Body::Enum(vec![variant]))) {
        Some(Ok(plan)) => plan,
        _ => panic!("no plan"),
    };
    assert_eq!(plan.variants.len(), 1);
    assert_eq!(plan.variants[0].marker.to_string(), "LightOn");
    assert!(!plan.variants[0].displays_variant);
    assert!(plan.payloads()[0].is_none());
    let output = render_enum(&plan).to_string();
    assert!(output.contains("pub struct LightOn ;"));
    assert!(output.contains("match self { Light :: On => 0usize , }"));
}

#[test]
fn an_item_that_is_no_enum_is_refused() {
    let refused = plan_enum(&item("Light", Body::Union)).unwrap().err().unwrap();
    assert_eq!(refused.to_string(), "EnumFilter can only be derived for enums");
}

/// What the attributes of an item say, with the fields as text.
fn said(source: &str, body: Body) -> Result<(String, String, Option<String>), String> {
    let parsed: syn::DeriveInput = syn::parse_str(source).unwrap();
    let mut item = item("Any", body);
    item.attributes = parsed.attrs;
    match EnumFilterCollectionConfig::parse(&item).unwrap() {
        Ok(config) => Ok((
            quote::ToTokens::to_token_stream(&config.enum_path).to_string(),
            config.iter_field.to_string(),
            config.map_field.map(|field| field.to_string()),
        )),
        Err(error) => Err(error.to_string()),
    }
}

#[test]
fn the_order_of_keys_does_not_matter() {
    let keys = ["enum = a::B", "iter = \"c\"", "map = \"d\""];
    let expected = Ok(("a :: B".to_string(), "c".to_string(), Some("d".to_string())));
    for order in [[0, 1, 2], [0, 2, 1], [1, 0, 2], [1, 2, 0], [2, 0, 1], [2, 1, 0]] {
        let listed: Vec<&str> = order.iter().map(|i| keys[*i]).collect();
        let source = format!("#[enum_filter_collection({})] struct S;", listed.join(", "));
        assert_eq!(said(&source, Body::Union), expected);
    }
}

#[test]
fn only_the_first_attribute_counts() {
    for first in ["enum = E, iter = \"b\"", "enum = E", "x"] {
        let alone = format!("#[doc = \"\"] #[enum_filter_collection({first})] struct S;");
        let followed = format!(
            "#[doc = \"\"] #[enum_filter_collection({first})] \
             #[enum_filter_collection(enum = F, iter = \"c\", map = \"d\")] \
             #[enum_filter_collection(y)] struct S;"
        );
        assert_eq!(said(&alone, Body::Union), said(&followed, Body::Union));
    }
}

#[test]
fn the_configuration_goes_by_the_attributes_alone() {
    for arguments in ["enum = E, iter = \"b\"", "iter = \"b\"", "enum = E, nope"] {
        let source = format!("#[enum_filter_collection({arguments})] struct S;");
        let expected = said(&source, Body::Union);
        assert_eq!(said(&source, Body::Enum(Vec::new())), expected);
        assert_eq!(said(&source, Body::Struct(syn::Fields::Unit)), expected);
    }
}
