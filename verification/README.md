# bevy_filter_enum_derive

The code generators behind `#[derive(EnumFilter)]` and `#[derive(EnumFilterCollection)]`, written
and verified in Verus.

- `EnumFilter` gives each variant of an enum component a marker component, and a plugin that keeps
  the markers in sync. Tuple variants with one field can have their payload extracted as a component
  of its own with `#[enum_filter(extract)]`.
- `EnumFilterCollection` gives a struct that holds several values of such an enum a plugin that keeps
  the markers of all of them on the entity.

## Layout

| Module | What it holds |
| --- | --- |
| `token` | the model of token streams, and the calls that build them |
| `ident`, `names` | what an identifier is, and the names that are made up from others |
| `template` | Rust text with holes, and its tokens |
| `syntax`, `meta` | the item that a derive stands on, and the arguments of its attributes |
| `extract`, `payload` | which variants have a payload extracted, and the types of the payloads |
| `enum_plan`, `enum_filter` | what is generated for an enum |
| `collection` | what is generated for a struct |
| `routine` | the wording that the generated functions share |
| `commands` | what the generated functions ask of the world |
| `laws` | what holds of the generated code as a whole |
| `spelling` | the templates that give an index or issue commands, token by token |

`app/` holds the two derive macros as the compiler calls them. A name that has to be generated may
not be that of an identifier (for a raw enum name such as `r#type`); the library returns `None` for
such an item, and the macro panics.

Beyond ASCII the compiler at hand decides which characters a name can have, and it composes them
(Unicode NFC), which other users of a token stream do not. Contracts therefore speak of the names
that were made, each spelled as its text or as the composed form of it, and fix everything else.
Where all names are ASCII, they fix the output (`law_plain_enum_has_one_output`,
`law_plain_collection_has_one_output`).
