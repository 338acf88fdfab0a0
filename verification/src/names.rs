//! The names of what is generated for a type.

use proc_macro2::{Ident, Span};
use vstd::prelude::*;

use crate::ident::{ascii_letter, continues_identifier, ident_from, lower_case, lowercase};
use crate::ident::{made_from, option_text, plain_identifier, spelled, unraw, without_raw_prefix};
use crate::token::{decimal, decimal_string, digit, ident_span, ident_string, ident_text};

verus! {

/// The name of the plugin for a type.
pub open spec fn plugin_name(ident: Seq<char>) -> Seq<char> {
    unraw(ident) + "EnumFilterPlugin"@
}

/// The name of the marker for a variant.
pub open spec fn marker_name(enum_ident: Seq<char>, variant_ident: Seq<char>) -> Seq<char> {
    unraw(enum_ident) + unraw(variant_ident)
}

/// The name of the variable that holds the payload of the variant at an index.
pub open spec fn payload_var_name(index: nat) -> Seq<char> {
    "__enum_filter_payload_"@ + decimal(index)
}

/// What every helper function of `#[derive(EnumFilter)]` is named after.
pub open spec fn enum_prefix() -> Seq<char> {
    "__bevy_enum_filter_"@
}

/// What every helper function of `#[derive(EnumFilterCollection)]` is named after.
pub open spec fn collection_prefix() -> Seq<char> {
    "__bevy_enum_filter_collection_"@
}

/// The name of the helper function that plays a role for a type.
pub open spec fn helper_name(prefix: Seq<char>, role: Seq<char>, ident: Seq<char>) -> Seq<char> {
    prefix + role + lower_case(ident)
}

/// The plugin and the helper functions that are generated for a type.
pub struct Names {
    pub plugin: Ident,
    pub register_hooks: Ident,
    pub hook_sync: Ident,
    pub hook_cleanup: Ident,
    pub sync: Ident,
    pub cleanup: Ident,
}

/// The model of `Names`.
pub struct NamesView {
    pub plugin: Seq<char>,
    pub register_hooks: Seq<char>,
    pub hook_sync: Seq<char>,
    pub hook_cleanup: Seq<char>,
    pub sync: Seq<char>,
    pub cleanup: Seq<char>,
}

impl View for Names {
    type V = NamesView;

    open spec fn view(&self) -> NamesView {
        NamesView {
            plugin: ident_text(self.plugin),
            register_hooks: ident_text(self.register_hooks),
            hook_sync: ident_text(self.hook_sync),
            hook_cleanup: ident_text(self.hook_cleanup),
            sync: ident_text(self.sync),
            cleanup: ident_text(self.cleanup),
        }
    }
}

/// The texts that the names for a type are made from.
pub open spec fn names_for(prefix: Seq<char>, ident: Seq<char>) -> NamesView {
    NamesView {
        plugin: plugin_name(ident),
        register_hooks: helper_name(prefix, "register_hooks_"@, ident),
        hook_sync: helper_name(prefix, "hook_sync_"@, ident),
        hook_cleanup: helper_name(prefix, "hook_cleanup_"@, ident),
        sync: helper_name(prefix, "sync_"@, ident),
        cleanup: helper_name(prefix, "cleanup_"@, ident),
    }
}

/// Whether each of the names is made of ASCII characters and is that of an identifier.
pub open spec fn plain_names(names: NamesView) -> bool {
    &&& plain_identifier(names.plugin)
    &&& plain_identifier(names.register_hooks)
    &&& plain_identifier(names.hook_sync)
    &&& plain_identifier(names.hook_cleanup)
    &&& plain_identifier(names.sync)
    &&& plain_identifier(names.cleanup)
}

/// Whether each of the names is that of an identifier, spelled as the text that it is made from.
pub open spec fn names_spelled(names: NamesView, texts: NamesView) -> bool {
    &&& made_from(Some(names.plugin), texts.plugin)
    &&& made_from(Some(names.register_hooks), texts.register_hooks)
    &&& made_from(Some(names.hook_sync), texts.hook_sync)
    &&& made_from(Some(names.hook_cleanup), texts.hook_cleanup)
    &&& made_from(Some(names.sync), texts.sync)
    &&& made_from(Some(names.cleanup), texts.cleanup)
}

/// What can come of making the names for a type: each spelled as its text, or nothing. Beyond
/// ASCII the lexer at hand decides between the two.
pub open spec fn names_made(names: Option<NamesView>, texts: NamesView) -> bool {
    match names {
        Some(names) => names_spelled(names, texts),
        None => !plain_names(texts),
    }
}

/// The model of names that may be missing.
pub open spec fn option_names(names: Option<Names>) -> Option<NamesView> {
    match names {
        Some(names) => Some(names@),
        None => None,
    }
}

/// The helper function that plays a role, or `None` where none can be made of its name.
fn helper(prefix: &str, role: &str, lower: &String) -> (ident: Option<Ident>)
    ensures
        made_from(option_text(ident), prefix@ + role@ + lower@),
{
    let mut name = prefix.to_owned();
    name.append(role);
    name.append(lower.as_str());
    ident_from(name.as_str(), Span::call_site())
}

/// The names for a type, or `None` where one of them cannot be made. The plugin's name points to
/// the type's.
pub fn make_names(prefix: &str, ident: &Ident) -> (names: Option<Names>)
    ensures
        names_made(option_names(names), names_for(prefix@, ident_text(*ident))),
        names matches Some(names) ==> ident_span(names.plugin) == ident_span(*ident),
{
    let text = ident_string(ident);
    let mut plugin = without_raw_prefix(text.as_str()).to_owned();
    plugin.append("EnumFilterPlugin");
    let lower = lowercase(text.as_str());
    let plugin = ident_from(plugin.as_str(), ident.span());
    let register_hooks = helper(prefix, "register_hooks_", &lower);
    let hook_sync = helper(prefix, "hook_sync_", &lower);
    let hook_cleanup = helper(prefix, "hook_cleanup_", &lower);
    let sync = helper(prefix, "sync_", &lower);
    let cleanup = helper(prefix, "cleanup_", &lower);
    match (plugin, register_hooks, hook_sync, hook_cleanup, sync, cleanup) {
        (
            Some(plugin),
            Some(register_hooks),
            Some(hook_sync),
            Some(hook_cleanup),
            Some(sync),
            Some(cleanup),
        ) => Some(Names { plugin, register_hooks, hook_sync, hook_cleanup, sync, cleanup }),
        _ => None,
    }
}

/// The marker for a variant, or `None` where none can be made of its name. It points to the enum's
/// name.
pub fn make_marker(enum_ident: &Ident, variant_ident: &Ident) -> (marker: Option<Ident>)
    ensures
        made_from(
            option_text(marker),
            marker_name(ident_text(*enum_ident), ident_text(*variant_ident)),
        ),
        marker matches Some(marker) ==> ident_span(marker) == ident_span(*enum_ident),
{
    let mut name = without_raw_prefix(ident_string(enum_ident).as_str()).to_owned();
    name.append(without_raw_prefix(ident_string(variant_ident).as_str()));
    ident_from(name.as_str(), enum_ident.span())
}

/// The text of ASCII letters, digits and `_`.
pub open spec fn word_text(text: Seq<char>) -> bool {
    forall|i: int|
        0 <= i < text.len() ==> (#[trigger] text[i]) as u32 <= 0x7f && continues_identifier(text[i])
}

/// The digits of a number are such a text.
proof fn lemma_decimal_continues(n: nat)
    ensures
        word_text(decimal(n)),
    decreases n,
{
    let last = digit(n % 10);
    assert('0' <= last <= '9');
    if n >= 10 {
        lemma_decimal_continues(n / 10);
        let before = decimal(n / 10);
        assert forall|i: int| 0 <= i < decimal(n).len() implies (#[trigger] decimal(n)[i]) as u32
            <= 0x7f && continues_identifier(decimal(n)[i]) by {
            assert(decimal(n) == before.push(last));
            if i < before.len() {
                assert(decimal(n)[i] == before[i]);
            }
        }
    }
}

/// Two such texts add up to one.
pub proof fn lemma_word_texts_add(left: Seq<char>, right: Seq<char>)
    requires
        word_text(left),
        word_text(right),
    ensures
        word_text(left + right),
{
    assert forall|i: int| 0 <= i < (left + right).len() implies (#[trigger] (left + right)[i]) as u32
        <= 0x7f && continues_identifier((left + right)[i]) by {
        if i < left.len() {
            assert((left + right)[i] == left[i]);
        } else {
            assert((left + right)[i] == right[i - left.len()]);
        }
    }
}

/// Such a text that starts with a letter or `_` is a plain identifier.
pub proof fn lemma_word_is_identifier(text: Seq<char>)
    requires
        word_text(text),
        text.len() > 0,
        text[0] == '_' || ascii_letter(text[0]),
    ensures
        plain_identifier(text),
{
    assert(text[0] as u32 <= 0x7f);
}

/// The name of a payload variable is a plain identifier.
pub proof fn payload_var_is_identifier(index: nat)
    ensures
        plain_identifier(payload_var_name(index)),
{
    reveal_strlit("__enum_filter_payload_");
    lemma_decimal_continues(index);
    assert(word_text("__enum_filter_payload_"@));
    lemma_word_texts_add("__enum_filter_payload_"@, decimal(index));
    assert(payload_var_name(index)[0] == "__enum_filter_payload_"@[0]);
    lemma_word_is_identifier(payload_var_name(index));
}

/// The variable that holds the payload of the variant at an index.
pub fn payload_var(index: usize) -> (ident: Ident)
    ensures
        ident_text(ident) == payload_var_name(index as nat),
{
    let mut name = "__enum_filter_payload_".to_owned();
    name.append(decimal_string(index).as_str());
    proof {
        payload_var_is_identifier(index as nat);
    }
    Ident::new(name.as_str(), Span::call_site())
}

} // verus!
