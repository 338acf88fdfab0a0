//! `#[derive(EnumFilterCollection)]`: a sync plugin for a component that holds several values of
//! an enum, each of which keeps its marker on the entity.

use proc_macro2::{Ident, Span, TokenStream};
use vstd::prelude::*;

use crate::enum_filter::{name, text_literal};
use crate::extract::refusal;
use crate::ident::{ident_from, made_from, option_text, plain_identifier};
use crate::meta::{entries_view, nested_arguments, read_arguments, rules_view};
use crate::meta::{Arguments, ArgumentsView, EntryView, KeyRule, Value, ValueKind, ValueView};
use crate::names::{collection_prefix, make_names, names_for, names_made, option_names};
use crate::names::{Names, NamesView};
use crate::routine::{address_context, cleanup_system_stream, cleanup_system_tokens, hook_stream};
use crate::routine::{hook_tokens, plugin_tokens, register_tokens, remove_markers_call};
use crate::routine::{sync_markers_call, sync_system_stream, sync_system_tokens};
use crate::routine::{Handle, Routine, ADDRESS_QUERIED};
use crate::syntax::{attribute_path, compile_errors, error_messages, points_to};
use crate::syntax::{error_spanning, is_word_path, list_of, parse_input, parsed_input};
use crate::syntax::{path_is, path_stream, path_tokens, style_of};
use crate::syntax::{Body, BodyView, Field, FieldView, FieldsStyle, Input, InputView};
use crate::template::{quote, quoted, Holes};
use crate::token::{append, ident_span, ident_stream, ident_string, ident_text, joined};
use crate::token::{option_tokens, place_of, same_ident, stream_tokens, string_literal};
use crate::token::{Place, Token};

verus! {

/// The keys that `#[enum_filter_collection(...)]` accepts.
pub open spec fn collection_rules() -> Seq<(Seq<char>, ValueKind)> {
    Seq::empty()
        .push(("enum"@, ValueKind::Path))
        .push(("iter"@, ValueKind::Text))
        .push(("map"@, ValueKind::Text))
}

/// What is reported for any other key.
pub open spec fn collection_key_message() -> Seq<char> {
    "unsupported enum_filter_collection attribute key"@
}

/// What is reported where the attribute is missing.
pub open spec fn missing_attribute_message() -> Seq<char> {
    "missing #[enum_filter_collection(enum = EnumType, iter = \"field\")]"@
}

/// What the arguments of the attribute say: the enum, the field that is iterated, and the field of
/// each item that holds the value where the item is not the value itself.
pub struct EnumFilterCollectionConfig {
    pub enum_path: syn::Path,
    pub iter_field: Ident,
    pub map_field: Option<Ident>,
}

/// The model of an `EnumFilterCollectionConfig`.
pub struct ConfigView {
    pub enum_path: Seq<Token>,
    pub iter_field: Seq<char>,
    pub iter_span: Span,
    pub map_field: Option<Seq<char>>,
    pub map_span: Option<Span>,
}

impl View for EnumFilterCollectionConfig {
    type V = ConfigView;

    open spec fn view(&self) -> ConfigView {
        ConfigView {
            enum_path: path_tokens(self.enum_path),
            iter_field: ident_text(self.iter_field),
            iter_span: ident_span(self.iter_field),
            map_field: option_text(self.map_field),
            map_span: option_span(self.map_field),
        }
    }
}

/// The place of an identifier that may be missing.
pub open spec fn option_span(ident: Option<Ident>) -> Option<Span> {
    match ident {
        Some(ident) => Some(ident_span(ident)),
        None => None,
    }
}

/// The path that the last argument with the given key has as its value.
pub open spec fn last_path(entries: Seq<EntryView>, key: Seq<char>) -> Option<Seq<Token>>
    decreases entries.len(),
{
    if entries.len() == 0 {
        None
    } else {
        match entries.last().value {
            ValueView::Path(path) if is_word_path(entries.last().key, key) => Some(path),
            _ => last_path(entries.drop_last(), key),
        }
    }
}

/// The text that the last argument with the given key has as its value.
pub open spec fn last_text(entries: Seq<EntryView>, key: Seq<char>) -> Option<Seq<char>>
    decreases entries.len(),
{
    if entries.len() == 0 {
        None
    } else {
        match entries.last().value {
            ValueView::Text(text, _) if is_word_path(entries.last().key, key) => Some(text),
            _ => last_text(entries.drop_last(), key),
        }
    }
}

/// The place of the text that the last argument with the given key has as its value.
pub open spec fn last_span(entries: Seq<EntryView>, key: Seq<char>) -> Option<Span>
    decreases entries.len(),
{
    if entries.len() == 0 {
        None
    } else {
        match entries.last().value {
            ValueView::Text(_, span) if is_word_path(entries.last().key, key) => Some(span),
            _ => last_span(entries.drop_last(), key),
        }
    }
}

/// The text by which an argument names a field, where it does.
pub open spec fn field_text(entry: EntryView) -> Option<Seq<char>> {
    match entry.value {
        ValueView::Text(text, _) if is_word_path(entry.key, "iter"@) || is_word_path(
            entry.key,
            "map"@,
        ) => Some(text),
        _ => None,
    }
}

/// Whether identifiers can come of making one for each argument that names a field.
pub open spec fn fields_made(entries: Seq<EntryView>, made: Seq<Option<Seq<char>>>) -> bool {
    &&& made.len() == entries.len()
    &&& forall|i: int|
        0 <= i < entries.len() ==> (field_text(#[trigger] entries[i]) matches Some(text)
            ==> made_from(made[i], text))
}

/// Whether an argument names a field for which no identifier could be made.
pub open spec fn field_unmade(entries: Seq<EntryView>, made: Seq<Option<Seq<char>>>) -> bool {
    exists|i: int|
        0 <= i < entries.len() && field_text(#[trigger] entries[i]) is Some && made[i] is None
}

/// What was made of the text that the last argument with the given key has as its value.
pub open spec fn last_made(
    entries: Seq<EntryView>,
    made: Seq<Option<Seq<char>>>,
    key: Seq<char>,
) -> Option<Seq<char>>
    decreases entries.len(),
{
    if entries.len() == 0 {
        None
    } else if entries.last().value is Text && is_word_path(entries.last().key, key) {
        made.last()
    } else {
        last_made(entries.drop_last(), made.drop_last(), key)
    }
}

/// What the arguments that were read say, or the messages that they are refused with, given what
/// came of making identifiers of those that name fields. `None` where one could not be made.
pub open spec fn config_from(arguments: ArgumentsView, made: Seq<Option<Seq<char>>>) -> Option<
    Result<ConfigView, Seq<Seq<char>>>,
> {
    if field_unmade(arguments.entries, made) {
        None
    } else if arguments.failure is Some {
        Some(Err(arguments.failure->0))
    } else {
        match (
            last_path(arguments.entries, "enum"@),
            last_made(arguments.entries, made, "iter"@),
        ) {
            (None, _) => Some(Err(seq!["missing enum"@])),
            (Some(_), None) => Some(Err(seq!["missing iter"@])),
            (Some(enum_path), Some(iter_field)) => Some(
                Ok(
                    ConfigView {
                        enum_path,
                        iter_field,
                        iter_span: last_span(arguments.entries, "iter"@)->0,
                        map_field: last_made(arguments.entries, made, "map"@),
                        map_span: last_span(arguments.entries, "map"@),
                    },
                ),
            ),
        }
    }
}

/// The first attribute with the one word given as its path.
pub open spec fn first_attribute(attributes: Seq<syn::Attribute>, word: Seq<char>) -> Option<
    syn::Attribute,
>
    decreases attributes.len(),
{
    if attributes.len() == 0 {
        None
    } else if is_word_path(attribute_path(attributes[0]), word) {
        Some(attributes[0])
    } else {
        first_attribute(attributes.skip(1), word)
    }
}

/// The arguments with the message for a key that no rule names in place.
pub open spec fn refused_arguments(arguments: ArgumentsView, message: Seq<char>) -> ArgumentsView {
    ArgumentsView { failure: refusal(arguments, message), ..arguments }
}

/// The arguments of the attribute of an item, where it has the attribute.
pub open spec fn item_arguments(item: InputView) -> Option<ArgumentsView> {
    match first_attribute(item.attributes, "enum_filter_collection"@) {
        None => None,
        Some(attribute) => Some(
            refused_arguments(
                nested_arguments(attribute, collection_rules(), collection_key_message()),
                collection_key_message(),
            ),
        ),
    }
}

/// Whether identifiers can come of making those that the attribute of an item names fields by.
pub open spec fn item_fields_made(item: InputView, made: Seq<Option<Seq<char>>>) -> bool {
    item_arguments(item) matches Some(arguments) ==> fields_made(arguments.entries, made)
}

/// What the attribute of an item says, or the messages that the item is refused with, given what
/// came of making the identifiers that it names fields by. `None` where one could not be made.
pub open spec fn config(item: InputView, made: Seq<Option<Seq<char>>>) -> Option<
    Result<ConfigView, Seq<Seq<char>>>,
> {
    match item_arguments(item) {
        None => Some(Err(seq![missing_attribute_message()])),
        Some(arguments) => config_from(arguments, made),
    }
}

/// Where the refusal of arguments points: to what ended the reading of them, or to the item.
pub open spec fn arguments_place(arguments: ArgumentsView, item: Option<Place>) -> Option<Place> {
    if arguments.failure is Some {
        arguments.failure_place
    } else {
        item
    }
}

/// Where the refusal of the attribute of an item points, or of an item without it.
pub open spec fn config_place(item: InputView) -> Option<Place> {
    match item_arguments(item) {
        None => item.place,
        Some(arguments) => arguments_place(arguments, item.place),
    }
}

/// The model of what `EnumFilterCollectionConfig::parse` returns.
pub open spec fn config_outcome(
    outcome: Option<Result<EnumFilterCollectionConfig, syn::Error>>,
) -> Option<Result<ConfigView, Seq<Seq<char>>>> {
    match outcome {
        None => None,
        Some(Ok(config)) => Some(Ok(config@)),
        Some(Err(error)) => Some(Err(error_messages(error))),
    }
}

/// What was made for a key was made from the last text given for it.
pub proof fn lemma_last_made(entries: Seq<EntryView>, made: Seq<Option<Seq<char>>>, key: Seq<char>)
    requires
        key == "iter"@ || key == "map"@,
        fields_made(entries, made),
        !field_unmade(entries, made),
    ensures
        match last_text(entries, key) {
            Some(text) => last_made(entries, made, key) is Some && made_from(
                last_made(entries, made, key),
                text,
            ),
            None => last_made(entries, made, key) is None,
        },
    decreases entries.len(),
{
    if entries.len() > 0 {
        let shorter = entries.drop_last();
        let fewer = made.drop_last();
        let last = entries[entries.len() - 1];
        assert(field_text(last) is Some ==> made.last() is Some);
        assert forall|i: int| 0 <= i < shorter.len() implies (field_text(
            #[trigger] shorter[i],
        ) matches Some(text) ==> made_from(fewer[i], text) && fewer[i] is Some) by {
            assert(shorter[i] == entries[i]);
        }
        lemma_last_made(shorter, fewer, key);
    }
}

/// What was made of the first arguments, with what can be made of each of those that follow.
pub open spec fn filled_fields(entries: Seq<EntryView>, made: Seq<Option<Seq<char>>>) -> Seq<
    Option<Seq<char>>,
> {
    Seq::new(
        entries.len(),
        |i: int|
            if i < made.len() {
                made[i]
            } else {
                match field_text(entries[i]) {
                    Some(text) if plain_identifier(text) => Some(text),
                    _ => None,
                }
            },
    )
}

/// An argument that names a field for which no identifier could be made decides, whatever follows.
proof fn lemma_unmade(entries: Seq<EntryView>, made: Seq<Option<Seq<char>>>)
    requires
        0 < made.len() <= entries.len(),
        fields_made(entries.take(made.len() as int), made),
        field_text(entries[made.len() - 1]) is Some,
        made.last() is None,
    ensures
        fields_made(entries, filled_fields(entries, made)),
        field_unmade(entries, filled_fields(entries, made)),
{
    let filled = filled_fields(entries, made);
    assert forall|i: int| 0 <= i < entries.len() implies (field_text(
        #[trigger] entries[i],
    ) matches Some(text) ==> made_from(filled[i], text)) by {
        if i < made.len() {
            assert(entries.take(made.len() as int)[i] == entries[i]);
        }
    }
    assert(filled[made.len() - 1] is None);
}

/// What was made of one more argument joins what was made of those before it.
proof fn lemma_one_more_made(
    entries: Seq<EntryView>,
    made: Seq<Option<Seq<char>>>,
    i: int,
    ident: Option<Seq<char>>,
)
    requires
        0 <= i < entries.len(),
        fields_made(entries.take(i), made),
        !field_unmade(entries.take(i), made),
        field_text(entries[i]) matches Some(text) ==> made_from(ident, text),
    ensures
        made.push(ident).drop_last() == made,
        fields_made(entries.take(i + 1), made.push(ident)),
        field_text(entries[i]) is None || ident is Some ==> !field_unmade(
            entries.take(i + 1),
            made.push(ident),
        ),
{
    let more = made.push(ident);
    assert(more.drop_last() =~= made);
    assert forall|j: int| 0 <= j < i + 1 implies (field_text(
        #[trigger] entries.take(i + 1)[j],
    ) matches Some(text) ==> made_from(more[j], text) && (j < i ==> more[j] is Some)) by {
        if j < i {
            assert(entries.take(i)[j] == entries.take(i + 1)[j]);
        }
    }
}

/// What the arguments that were read say. The error points to `item` where a key is missing, and the
/// fields point to the texts that name them.
pub fn config_from_arguments(arguments: Arguments, item: &TokenStream) -> (outcome: Option<
    Result<EnumFilterCollectionConfig, syn::Error>,
>)
    ensures
        exists|made: Seq<Option<Seq<char>>>| #[trigger]
            fields_made(arguments@.entries, made) && config_outcome(outcome) == config_from(
                arguments@,
                made,
            ),
        outcome matches Some(Err(error)) ==> points_to(
            error,
            arguments_place(arguments@, place_of(*item)),
        ),
{
    let Arguments { entries, unsupported: _, failure } = arguments;
    let ghost view = entries_view(entries@);
    let ghost mut made: Seq<Option<Seq<char>>> = Seq::empty();
    let mut enum_path: Option<syn::Path> = None;
    let mut iter_field: Option<Ident> = None;
    let mut map_field: Option<Ident> = None;
    let mut i: usize = 0;
    while i < entries.len()
        invariant
            i <= entries.len(),
            view == entries_view(entries@),
            arguments@.entries == view,
            fields_made(view.take(i as int), made),
            !field_unmade(view.take(i as int), made),
            last_path(view.take(i as int), "enum"@) == match enum_path {
                Some(path) => Some(path_tokens(path)),
                None => None,
            },
            last_made(view.take(i as int), made, "iter"@) == option_text(iter_field),
            last_made(view.take(i as int), made, "map"@) == option_text(map_field),
            last_span(view.take(i as int), "iter"@) == option_span(iter_field),
            last_span(view.take(i as int), "map"@) == option_span(map_field),
        decreases entries.len() - i,
    {
        let entry = &entries[i];
        proof {
            assert(view[i as int] == entry@);
            assert(view.take(i + 1).drop_last() =~= view.take(i as int));
            assert(view.take(i + 1).last() == entry@);
            lemma_words();
        }
        let ghost mut named: Option<Seq<char>> = None;
        match &entry.value {
            Value::Absent => {},
            Value::Path(path) => {
                if path_is(&entry.key, "enum") {
                    enum_path = Some(path.clone());
                }
            },
            Value::Text(text) => {
                let iter = path_is(&entry.key, "iter");
                if iter || path_is(&entry.key, "map") {
                    let ident = ident_from(text.value().as_str(), text.span());
                    proof {
                        named = option_text(ident);
                    }
                    match ident {
                        Some(ident) => if iter {
                            iter_field = Some(ident);
                        } else {
                            map_field = Some(ident);
                        },
                        None => {
                            proof {
                                lemma_one_more_made(view, made, i as int, named);
                                lemma_unmade(view, made.push(named));
                            }
                            return None;
                        },
                    }
                }
            },
        }
        proof {
            lemma_one_more_made(view, made, i as int, named);
            made = made.push(named);
        }
        i = i + 1;
    }
    assert(view.take(view.len() as int) =~= view);
    if let Some(error) = failure {
        return Some(Err(error));
    }
    match (enum_path, iter_field) {
        (None, _) => Some(Err(error_spanning(item, "missing enum"))),
        (Some(_), None) => Some(Err(error_spanning(item, "missing iter"))),
        (Some(enum_path), Some(iter_field)) => Some(
            Ok(EnumFilterCollectionConfig { enum_path, iter_field, map_field }),
        ),
    }
}

/// The keys that name fields are different words.
proof fn lemma_words()
    ensures
        forall|path: Seq<Token>|
            !(#[trigger] is_word_path(path, "iter"@) && is_word_path(path, "map"@)),
{
    reveal_strlit("iter");
    reveal_strlit("map");
    assert forall|path: Seq<Token>| #[trigger]
        is_word_path(path, "iter"@) implies !is_word_path(path, "map"@) by {
        if is_word_path(path, "map"@) {
            assert(path[0] == Token::Ident("iter"@));
            assert(path[0] == Token::Ident("map"@));
            assert("iter"@.len() == "map"@.len());
        }
    }
}

impl EnumFilterCollectionConfig {
    /// What the attribute of an item says, or the error that the item is refused with. `None` where
    /// no identifier could be made of what names a field.
    pub fn parse(item: &Input) -> (outcome: Option<Result<Self, syn::Error>>)
        ensures
            exists|made: Seq<Option<Seq<char>>>| #[trigger]
                item_fields_made(item@, made) && config_outcome(outcome) == config(item@, made),
            outcome matches Some(Err(error)) ==> points_to(error, config_place(item@)),
    {
        let attributes = &item.attributes;
        let rules: Vec<KeyRule> = vec![
            KeyRule { key: "enum", kind: ValueKind::Path },
            KeyRule { key: "iter", kind: ValueKind::Text },
            KeyRule { key: "map", kind: ValueKind::Text },
        ];
        assert(rules_view(rules@) =~= collection_rules());
        let ghost view = attributes@;
        let mut i: usize = 0;
        assert(view.skip(0) =~= view);
        while i < attributes.len()
            invariant
                i <= attributes.len(),
                attributes == item.attributes,
                view == attributes@,
                rules_view(rules@) == collection_rules(),
                first_attribute(view, "enum_filter_collection"@) == first_attribute(
                    view.skip(i as int),
                    "enum_filter_collection"@,
                ),
            decreases attributes.len() - i,
        {
            assert(view.skip(i as int)[0] == view[i as int]);
            if path_is(attributes[i].path(), "enum_filter_collection") {
                let arguments = read_arguments(
                    &attributes[i],
                    &rules,
                    "unsupported enum_filter_collection attribute key",
                );
                assert(refused_arguments(arguments@, collection_key_message()) == arguments@);
                let ghost read = arguments@;
                let outcome = config_from_arguments(arguments, &item.tokens);
                proof {
                    let made = choose|made: Seq<Option<Seq<char>>>| #[trigger]
                        fields_made(read.entries, made) && config_outcome(outcome) == config_from(
                            read,
                            made,
                        );
                    assert(item_fields_made(item@, made));
                }
                return outcome;
            }
            assert(view.skip(i as int).skip(1) =~= view.skip(i + 1));
            i = i + 1;
        }
        assert(item_fields_made(item@, Seq::empty()));
        Some(
            Err(
                error_spanning(
                    &item.tokens,
                    "missing #[enum_filter_collection(enum = EnumType, iter = \"field\")]",
                ),
            ),
        )
    }
}

/// What is to be generated for a struct.
pub struct CollectionPlan {
    pub visibility: TokenStream,
    pub ident: Ident,
    pub names: Names,
    pub config: EnumFilterCollectionConfig,
}

/// The model of a `CollectionPlan`.
pub struct CollectionPlanView {
    pub visibility: Seq<Token>,
    pub ident: Seq<char>,
    pub names: NamesView,
    pub config: ConfigView,
}

impl View for CollectionPlan {
    type V = CollectionPlanView;

    open spec fn view(&self) -> CollectionPlanView {
        CollectionPlanView {
            visibility: stream_tokens(self.visibility),
            ident: ident_text(self.ident),
            names: self.names@,
            config: self.config@,
        }
    }
}

/// Whether one of the fields has the given name.
pub open spec fn has_field(fields: Seq<FieldView>, ident: Seq<char>) -> bool {
    exists|i: int| 0 <= i < fields.len() && (#[trigger] fields[i]).ident == Some(ident)
}

/// What is reported where the field to be iterated is not there.
pub open spec fn missing_field_message(ident: Seq<char>) -> Seq<char> {
    "EnumFilterCollection iter field `"@ + ident + "` does not exist"@
}

/// What is wrong with the body of an item, given what its attribute says.
pub open spec fn body_refusal(body: BodyView, config: ConfigView) -> Option<Seq<char>> {
    match body {
        BodyView::Struct(fields) => if fields.style !is Named {
            Some("EnumFilterCollection only supports structs with named fields"@)
        } else if !has_field(fields.fields, config.iter_field) {
            Some(missing_field_message(config.iter_field))
        } else {
            None
        },
        _ => Some("EnumFilterCollection can only be derived for structs"@),
    }
}

/// What came of making the names that the code for a struct needs: an identifier for each argument
/// that names a field, and the names for the struct.
pub struct CollectionNames {
    pub fields: Seq<Option<Seq<char>>>,
    pub names: Option<NamesView>,
}

/// Whether names can come of making those that the code for an item needs.
pub open spec fn collection_made_for(item: InputView, made: CollectionNames) -> bool {
    &&& item_fields_made(item, made.fields)
    &&& names_made(made.names, names_for(collection_prefix(), item.ident))
}

/// What is to be generated for an item, or the messages that it is refused with, given what came
/// of making the names. `None` where a name that is needed could not be made.
pub open spec fn collection_plan(item: InputView, made: CollectionNames) -> Option<
    Result<CollectionPlanView, Seq<Seq<char>>>,
> {
    match config(item, made.fields) {
        None => None,
        Some(Err(messages)) => Some(Err(messages)),
        Some(Ok(config)) => match (body_refusal(item.body, config), made.names) {
            (Some(message), _) => Some(Err(seq![message])),
            (None, None) => None,
            (None, Some(names)) => Some(
                Ok(
                    CollectionPlanView {
                        visibility: item.visibility,
                        ident: item.ident,
                        names,
                        config,
                    },
                ),
            ),
        },
    }
}

/// Whether planning an item can have an outcome: it is that of some way in which the making of the
/// names can go.
pub open spec fn collection_planned(
    item: InputView,
    outcome: Option<Result<CollectionPlanView, Seq<Seq<char>>>>,
) -> bool {
    exists|made: CollectionNames| #[trigger]
        collection_made_for(item, made) && outcome == collection_plan(item, made)
}

/// Whether what is wrong with an item is the attribute: it is missing, the reading of it fails, or
/// it names no enum or no field.
pub open spec fn config_refused(item: InputView) -> bool {
    match item_arguments(item) {
        None => true,
        Some(arguments) => {
            ||| arguments.failure is Some
            ||| last_path(arguments.entries, "enum"@) is None
            ||| last_text(arguments.entries, "iter"@) is None
        },
    }
}

/// Where the refusal of an item points: where that of its attribute does, or to the item's name.
pub open spec fn collection_plan_place(item: InputView) -> Option<Place> {
    if config_refused(item) {
        config_place(item)
    } else {
        Some(item.ident_place)
    }
}

/// The attribute is what is wrong exactly where it is refused.
proof fn lemma_config_refused(item: InputView, made: Seq<Option<Seq<char>>>)
    requires
        item_fields_made(item, made),
        config(item, made) is Some,
    ensures
        config_refused(item) <==> config(item, made)->0 is Err,
{
    if let Some(arguments) = item_arguments(item) {
        lemma_last_made(arguments.entries, made, "iter"@);
    }
}

/// Whether a plan keeps the visibility and the name of an item as they are, and has a plugin that
/// points to the name.
pub open spec fn collection_kept(item: Input, plan: CollectionPlan) -> bool {
    &&& plan.visibility == item.visibility
    &&& plan.ident == item.ident
    &&& ident_span(plan.names.plugin) == ident_span(item.ident)
}

/// The model of what `plan_collection` returns.
pub open spec fn collection_plan_outcome(
    outcome: Option<Result<CollectionPlan, syn::Error>>,
) -> Option<Result<CollectionPlanView, Seq<Seq<char>>>> {
    match outcome {
        None => None,
        Some(Ok(plan)) => Some(Ok(plan@)),
        Some(Err(error)) => Some(Err(error_messages(error))),
    }
}

/// Whether one of the fields has the given name.
fn any_field(fields: &Vec<Field>, ident: &Ident) -> (r: bool)
    ensures
        r == has_field(fields@.map_values(|field: Field| field@), ident_text(*ident)),
{
    let ghost view = fields@.map_values(|field: Field| field@);
    let mut i: usize = 0;
    while i < fields.len()
        invariant
            i <= fields.len(),
            view.len() == fields.len(),
            forall|j: int| 0 <= j < view.len() ==> #[trigger] view[j] == fields@[j]@,
            forall|j: int|
                0 <= j < i ==> (#[trigger] view[j]).ident != Some(ident_text(*ident)),
        ensures
            i < fields.len() ==> view[i as int].ident == Some(ident_text(*ident)),
            i <= fields.len(),
            forall|j: int|
                0 <= j < i ==> (#[trigger] view[j]).ident != Some(ident_text(*ident)),
        decreases fields.len() - i,
    {
        assert(view[i as int] == fields@[i as int]@);
        if let Some(name) = &fields[i].ident {
            if same_ident(name, ident) {
                break;
            }
        }
        i = i + 1;
    }
    i < fields.len()
}

/// What is wrong with the body of an item, given what its attribute says.
fn refuse_body(body: &Body, config: &EnumFilterCollectionConfig) -> (message: Option<String>)
    ensures
        match message {
            Some(text) => body_refusal(body@, config@) == Some(text@),
            None => body_refusal(body@, config@) is None,
        },
{
    let fields = match body {
        Body::Struct(fields) => fields,
        _ => return Some("EnumFilterCollection can only be derived for structs".to_owned()),
    };
    if style_of(fields) != FieldsStyle::Named {
        return Some("EnumFilterCollection only supports structs with named fields".to_owned());
    }
    if !any_field(&list_of(fields), &config.iter_field) {
        let mut message = "EnumFilterCollection iter field `".to_owned();
        message.append(ident_string(&config.iter_field).as_str());
        message.append("` does not exist");
        return Some(message);
    }
    None
}

/// What is to be generated for an item, or the error that it is refused with. `None` where a name
/// that is needed could not be made. An error points to what is wrong with the attribute, to the
/// item where the attribute or a key is missing, or to the item's name.
pub fn plan_collection(item: &Input) -> (outcome: Option<Result<CollectionPlan, syn::Error>>)
    ensures
        collection_planned(item@, collection_plan_outcome(outcome)),
        outcome matches Some(Err(error)) ==> points_to(error, collection_plan_place(item@)),
        outcome matches Some(Ok(plan)) ==> collection_kept(*item, plan),
{
    let parsed = EnumFilterCollectionConfig::parse(item);
    let names = make_names("__bevy_enum_filter_collection_", &item.ident);
    proof {
        let fields = choose|made: Seq<Option<Seq<char>>>| #[trigger]
            item_fields_made(item@, made) && config_outcome(parsed) == config(item@, made);
        assert(collection_made_for(item@, CollectionNames { fields, names: option_names(names) }));
        if parsed is Some {
            lemma_config_refused(item@, fields);
        }
    }
    let config = match parsed {
        None => return None,
        Some(Err(error)) => return Some(Err(error)),
        Some(Ok(config)) => config,
    };
    if let Some(message) = refuse_body(&item.body, &config) {
        return Some(Err(error_spanning(&ident_stream(&item.ident), message.as_str())));
    }
    match names {
        None => None,
        Some(names) => Some(
            Ok(
                CollectionPlan {
                    visibility: item.visibility.clone(),
                    ident: item.ident.clone(),
                    names,
                    config,
                },
            ),
        ),
    }
}

/// Reads the indexes of the values of the entity that a hook runs for, and is done where it has no
/// such component.
pub const READ_HELD_VALUES: &'static str = "
    let marker_indexes: ::std::vec::Vec<usize> = match world.get::<#component_ident>(context.entity) {
        Some(value) => value
            .#iter_field
            .iter()
            .map(|item| ::bevy_filter_enum::EnumFilterValue::marker_index(#marker_value))
            .collect(),
        None => return,
    };
";

/// Reads the indexes of the values that a system has come to.
pub const READ_QUERIED_VALUES: &'static str = "
    let marker_indexes: ::std::vec::Vec<usize> = collection
        .#iter_field
        .iter()
        .map(|item| ::bevy_filter_enum::EnumFilterValue::marker_index(#marker_value))
        .collect();
";

/// The documentation of the plugin.
pub open spec fn collection_plugin_doc(ident: Seq<char>) -> Seq<char> {
    "Plugin that syncs [`"@ + ident + "`] enum collection values to marker components."@
}

/// The value that an item holds: a field of it where one is named, else the item.
pub open spec fn marker_value(config: ConfigView) -> Seq<Token> {
    match config.map_field {
        Some(map_field) => quoted("&item.#map_field"@, seq![("map_field"@, name(map_field))]),
        None => quoted("item"@, Seq::empty()),
    }
}

/// One step of a function that is generated for a struct.
#[derive(Clone, Copy, PartialEq, Eq, Structural)]
pub enum CollectionStep {
    /// Reads the indexes of the values of the entity that a hook runs for, and is done where it has
    /// no such component.
    ReadHeld,
    /// Reads the indexes of the values that a system has come to.
    ReadQueried,
    /// Addresses the entity that a hook runs for.
    AddressContext(Handle),
    /// Addresses the entity that a system has come to.
    AddressQueried,
    /// Inserts the markers of the values and removes the others.
    SyncMarkers(Handle),
    /// Removes every marker.
    RemoveMarkers(Handle),
}

/// The steps of a function that is generated for a struct.
pub open spec fn collection_steps(routine: Routine) -> Seq<CollectionStep> {
    match routine {
        Routine::HookSync => Seq::empty()
            .push(CollectionStep::ReadHeld)
            .push(CollectionStep::AddressContext(Handle::EntityCommands))
            .push(CollectionStep::SyncMarkers(Handle::EntityCommands)),
        Routine::HookCleanup => Seq::empty()
            .push(CollectionStep::AddressContext(Handle::EntityCommands))
            .push(CollectionStep::RemoveMarkers(Handle::EntityCommands)),
        Routine::Sync => Seq::empty()
            .push(CollectionStep::ReadQueried)
            .push(CollectionStep::AddressQueried)
            .push(CollectionStep::SyncMarkers(Handle::Ec)),
        Routine::Cleanup => Seq::empty()
            .push(CollectionStep::AddressQueried)
            .push(CollectionStep::RemoveMarkers(Handle::Ec)),
    }
}

/// What is generated for a step.
pub open spec fn collection_step_tokens(plan: CollectionPlanView, step: CollectionStep) -> Seq<
    Token,
> {
    match step {
        CollectionStep::ReadHeld => quoted(
            READ_HELD_VALUES@,
            Seq::empty()
                .push(("component_ident"@, name(plan.ident)))
                .push(("iter_field"@, name(plan.config.iter_field)))
                .push(("marker_value"@, marker_value(plan.config))),
        ),
        CollectionStep::ReadQueried => quoted(
            READ_QUERIED_VALUES@,
            Seq::empty()
                .push(("iter_field"@, name(plan.config.iter_field)))
                .push(("marker_value"@, marker_value(plan.config))),
        ),
        CollectionStep::AddressContext(on) => address_context(on),
        CollectionStep::AddressQueried => quoted(ADDRESS_QUERIED@, Seq::empty()),
        CollectionStep::SyncMarkers(on) => sync_markers_call(
            plan.config.enum_path,
            quoted("marker_indexes.contains(&index)"@, Seq::empty()),
            on,
        ),
        CollectionStep::RemoveMarkers(on) => remove_markers_call(plan.config.enum_path, on),
    }
}

/// `collection_step_tokens` as a function of the place among the steps.
pub open spec fn collection_step_tokens_at(
    plan: CollectionPlanView,
    steps: Seq<CollectionStep>,
) -> spec_fn(int) -> Seq<Token> {
    |i: int| collection_step_tokens(plan, steps[i])
}

/// What is generated for the steps of a function, in order.
pub open spec fn collection_routine_tokens(plan: CollectionPlanView, routine: Routine) -> Seq<
    Token,
> {
    let steps = collection_steps(routine);
    joined(steps.len(), collection_step_tokens_at(plan, steps))
}

/// All that is generated for a struct.
pub open spec fn collection_tokens(plan: CollectionPlanView) -> Seq<Token> {
    plugin_tokens(
        text_literal(collection_plugin_doc(plan.ident)),
        plan.visibility,
        plan.names,
    ) + register_tokens(plan.ident, plan.names) + hook_tokens(
        plan.names.hook_sync,
        collection_routine_tokens(plan, Routine::HookSync),
    ) + hook_tokens(
        plan.names.hook_cleanup,
        collection_routine_tokens(plan, Routine::HookCleanup),
    ) + sync_system_tokens(
        plan.names.sync,
        plan.ident,
        quoted("collection"@, Seq::empty()),
        collection_routine_tokens(plan, Routine::Sync),
    ) + cleanup_system_tokens(
        plan.names.cleanup,
        plan.ident,
        collection_routine_tokens(plan, Routine::Cleanup),
    )
}

/// What the derive gives for an item, given what came of making the names: the code for it, or the
/// errors that it is refused with. `None` where a name that is needed could not be made.
pub open spec fn collection_output(item: InputView, made: CollectionNames) -> Option<Seq<Token>> {
    match collection_plan(item, made) {
        None => None,
        Some(Err(messages)) => Some(compile_errors(messages)),
        Some(Ok(plan)) => Some(collection_tokens(plan)),
    }
}

/// Whether the derive can give `output` for a stream. What it gives for one that spells no item is
/// fixed; otherwise it goes by the item and by how the making of the names can go.
pub open spec fn collection_gives(stream: TokenStream, output: Option<Seq<Token>>) -> bool {
    match parsed_input(stream) {
        Err(messages) => output == Some(compile_errors(messages)),
        Ok(item) => exists|made: CollectionNames| #[trigger]
            collection_made_for(item, made) && output == collection_output(item, made),
    }
}

/// The steps of a function that is generated for a struct.
fn collection_steps_of(routine: Routine) -> (steps: Vec<CollectionStep>)
    ensures
        steps@ == collection_steps(routine),
{
    match routine {
        Routine::HookSync => vec![
            CollectionStep::ReadHeld,
            CollectionStep::AddressContext(Handle::EntityCommands),
            CollectionStep::SyncMarkers(Handle::EntityCommands),
        ],
        Routine::HookCleanup => vec![
            CollectionStep::AddressContext(Handle::EntityCommands),
            CollectionStep::RemoveMarkers(Handle::EntityCommands),
        ],
        Routine::Sync => vec![
            CollectionStep::ReadQueried,
            CollectionStep::AddressQueried,
            CollectionStep::SyncMarkers(Handle::Ec),
        ],
        Routine::Cleanup => vec![
            CollectionStep::AddressQueried,
            CollectionStep::RemoveMarkers(Handle::Ec),
        ],
    }
}

impl CollectionPlan {
    /// What is generated for a step.
    fn step(&self, step: CollectionStep) -> (tokens: TokenStream)
        ensures
            stream_tokens(tokens) == collection_step_tokens(self@, step),
    {
        let iter_field = ident_stream(&self.config.iter_field);
        let enum_path = path_stream(&self.config.enum_path);
        let marker_value = match &self.config.map_field {
            Some(map_field) => quote(
                "&item.#map_field",
                &Holes::new().with("map_field", &ident_stream(map_field)),
            ),
            None => quote("item", &Holes::new()),
        };
        match step {
            CollectionStep::ReadHeld => quote(
                READ_HELD_VALUES,
                &Holes::new().with("component_ident", &ident_stream(&self.ident)).with(
                    "iter_field",
                    &iter_field,
                ).with("marker_value", &marker_value),
            ),
            CollectionStep::ReadQueried => quote(
                READ_QUERIED_VALUES,
                &Holes::new().with("iter_field", &iter_field).with("marker_value", &marker_value),
            ),
            CollectionStep::AddressContext(on) => on.addressed(),
            CollectionStep::AddressQueried => quote(ADDRESS_QUERIED, &Holes::new()),
            CollectionStep::SyncMarkers(on) => on.syncing(
                &enum_path,
                &quote("marker_indexes.contains(&index)", &Holes::new()),
            ),
            CollectionStep::RemoveMarkers(on) => on.removing(&enum_path),
        }
    }

    /// What is generated for the steps of a function, in order.
    fn routine(&self, routine: Routine) -> (tokens: TokenStream)
        ensures
            stream_tokens(tokens) == collection_routine_tokens(self@, routine),
    {
        let steps = collection_steps_of(routine);
        let mut tokens = TokenStream::new();
        let mut i: usize = 0;
        while i < steps.len()
            invariant
                i <= steps.len(),
                stream_tokens(tokens) == joined(
                    i as nat,
                    collection_step_tokens_at(self@, steps@),
                ),
            decreases steps.len() - i,
        {
            append(&mut tokens, &self.step(steps[i]));
            i = i + 1;
        }
        tokens
    }
}

/// All that is generated for a struct.
pub fn render_collection(plan: &CollectionPlan) -> (tokens: TokenStream)
    ensures
        stream_tokens(tokens) == collection_tokens(plan@),
{
    let mut doc = "Plugin that syncs [`".to_owned();
    doc.append(ident_string(&plan.ident).as_str());
    doc.append("`] enum collection values to marker components.");
    let mut tokens = plan.names.plugin_stream(&string_literal(doc.as_str()), &plan.visibility);
    append(&mut tokens, &plan.names.register_stream(&plan.ident));
    append(&mut tokens, &hook_stream(&plan.names.hook_sync, &plan.routine(Routine::HookSync)));
    append(
        &mut tokens,
        &hook_stream(&plan.names.hook_cleanup, &plan.routine(Routine::HookCleanup)),
    );
    append(
        &mut tokens,
        &sync_system_stream(
            &plan.names.sync,
            &plan.ident,
            &quote("collection", &Holes::new()),
            &plan.routine(Routine::Sync),
        ),
    );
    append(
        &mut tokens,
        &cleanup_system_stream(
            &plan.names.cleanup,
            &plan.ident,
            &plan.routine(Routine::Cleanup),
        ),
    );
    tokens
}

/// Derives a sync plugin for a component that holds several values of an enum. `None` where a name
/// that is needed could not be made: it is not that of an identifier, or the compiler at hand does
/// not take it for one.
pub fn derive_enum_filter_collection(input: TokenStream) -> (output: Option<TokenStream>)
    ensures
        collection_gives(input, option_tokens(output)),
{
    let item = match parse_input(input) {
        Ok(item) => item,
        Err(error) => return Some(error.to_compile_error()),
    };
    match plan_collection(&item) {
        Some(Ok(plan)) => Some(render_collection(&plan)),
        Some(Err(error)) => Some(error.to_compile_error()),
        None => None,
    }
}

} // verus!
