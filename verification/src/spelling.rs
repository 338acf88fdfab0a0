//! The templates that give an index or issue commands, spelled out token by token.

use vstd::prelude::*;

use crate::collection::{collection_step_tokens, marker_value, CollectionPlanView, CollectionStep};
use crate::collection::{ConfigView, READ_HELD_VALUES, READ_QUERIED_VALUES};
use crate::enum_filter::{alternatives, index_literal, listed_type, listed_type_at, name, none_arm};
use crate::enum_filter::{none_arms, remove_stale_payloads, stale_removal, step_tokens};
use crate::enum_filter::{variant_pattern, variant_piece, variant_pieces, Step, VariantPiece};
use crate::enum_filter::{MARKER_DISPLAY, MARKER_STRUCT, PAYLOAD_ARM, PAYLOAD_INSERT, PAYLOAD_LET, READ_HELD};
use crate::enum_filter::{READ_QUERIED, REMOVE_STALE, STALE_REMOVAL, SYNC_MARKER};
use crate::enum_plan::EnumPlanView;
use crate::names::payload_var_name;
use crate::payload::{carriers, distinct_types};
use crate::routine::{address_context, handle_tokens, remove_markers_call, sync_markers_call};
use crate::routine::{Handle, ADDRESS_CONTEXT, ADDRESS_QUERIED, REMOVE_MARKERS, SYNC_MARKERS};
use crate::syntax::{FieldsStyle, TypeView};
use crate::template::{closes, filling, glued, in_word, opened, quoted, starts_word, word_end, woven};
use crate::token::{decimal, is_punctuation, joined, Delimiter, Spacing, Token};

verus! {

/// One identifier.
pub open spec fn word(text: Seq<char>) -> Token {
    Token::Ident(text)
}

/// One punctuation character that stands alone.
pub open spec fn mark(c: char) -> Token {
    Token::Punct(c, Spacing::Alone)
}

/// One punctuation character that is glued to the next.
pub open spec fn glued_mark(c: char) -> Token {
    Token::Punct(c, Spacing::Joint)
}

/// One segment of a path, with the `::` before it.
pub open spec fn segment(text: Seq<char>) -> Seq<Token> {
    seq![glued_mark(':'), mark(':'), word(text)]
}

/// How far a template was read: the place, the groups that are open there, and the tokens read so
/// far in the innermost one.
pub struct Reading {
    pub text: Seq<char>,
    pub at: int,
    pub holes: Seq<(Seq<char>, Seq<Token>)>,
    pub open: Seq<(Delimiter, Seq<Token>)>,
    pub done: Seq<Token>,
}

impl Reading {
    /// The start of a template.
    pub open spec fn start(text: Seq<char>, holes: Seq<(Seq<char>, Seq<Token>)>) -> Reading {
        Reading { text, at: 0, holes, open: Seq::empty(), done: Seq::empty() }
    }

    /// The tokens of the whole template.
    pub open spec fn whole(self) -> Seq<Token> {
        woven(self.text, self.at, self.holes, self.open, self.done)
    }

    /// Whether a word stands here and ends where the word does, after `skip` characters.
    pub open spec fn has_word(self, skip: int, word: Seq<char>) -> bool {
        let at = self.at + skip;
        &&& 0 <= at
        &&& at + word.len() <= self.text.len()
        &&& word.len() > 0
        &&& starts_word(word[0])
        &&& forall|i: int| 0 <= i < word.len() ==> in_word(#[trigger] word[i])
        &&& self.text.subrange(at, at + word.len()) =~= word
        &&& at + word.len() < self.text.len() ==> !in_word(self.text[at + word.len() as int])
    }

    /// A word goes on to its end.
    pub proof fn word_ends(self, skip: int, word: Seq<char>, from: int)
        requires
            self.has_word(skip, word),
            0 < from <= word.len(),
        ensures
            word_end(self.text, self.at + skip + from) == self.at + skip + word.len(),
        decreases word.len() - from,
    {
        if from < word.len() {
            let at = self.at + skip;
            assert(self.text[at + from] == self.text.subrange(at, at + word.len())[from]);
            self.word_ends(skip, word, from + 1);
        }
    }

    /// Reads spaces and line breaks.
    pub proof fn gap(self, count: int) -> (next: Reading)
        requires
            0 <= count,
            0 <= self.at <= self.text.len() - count,
            forall|i: int|
                self.at <= i < self.at + count ==> #[trigger] self.text[i] == ' ' || self.text[i]
                    == '\n',
        ensures
            next == (Reading { at: self.at + count, ..self }),
            next.whole() == self.whole(),
        decreases count,
    {
        if count == 0 {
            self
        } else {
            let next = Reading { at: self.at + 1, ..self };
            assert(self.text[self.at] == ' ' || self.text[self.at] == '\n');
            next.gap(count - 1)
        }
    }

    /// Reads a word.
    pub proof fn word(self, word: Seq<char>) -> (next: Reading)
        requires
            self.has_word(0, word),
        ensures
            next == (Reading {
                at: self.at + word.len(),
                done: self.done.push(Token::Ident(word)),
                ..self
            }),
            next.whole() == self.whole(),
    {
        self.word_ends(0, word, 1);
        assert(self.text[self.at] == self.text.subrange(self.at, self.at + word.len())[0]);
        Reading { at: self.at + word.len(), done: self.done.push(Token::Ident(word)), ..self }
    }

    /// Reads a hole.
    pub proof fn hole(self, name: Seq<char>, tokens: Seq<Token>) -> (next: Reading)
        requires
            0 <= self.at < self.text.len(),
            self.text[self.at] == '#',
            self.has_word(1, name),
            filling(self.holes, name) == Some(tokens),
        ensures
            next == (Reading { at: self.at + 1 + name.len(), done: self.done + tokens, ..self }),
            next.whole() == self.whole(),
    {
        let at = self.at + 1;
        self.word_ends(1, name, 1);
        assert(self.text[at] == self.text.subrange(at, at + name.len())[0]);
        Reading { at: at + name.len(), done: self.done + tokens, ..self }
    }

    /// Reads a punctuation character that is no part of an operator.
    pub proof fn mark(self, c: char) -> (next: Reading)
        requires
            0 <= self.at < self.text.len(),
            self.text[self.at] == c,
            is_punctuation(c) && c != '\'',
            c == '#' && self.at + 1 < self.text.len() ==> !starts_word(self.text[self.at + 1]),
            self.at + 1 < self.text.len() ==> !glued(c, self.text[self.at + 1]),
        ensures
            next == (Reading { at: self.at + 1, done: self.done.push(mark(c)), ..self }),
            next.whole() == self.whole(),
    {
        Reading { at: self.at + 1, done: self.done.push(mark(c)), ..self }
    }

    /// Reads the quote of a lifetime, which is glued to its name.
    pub proof fn quote(self) -> (next: Reading)
        requires
            0 <= self.at < self.text.len(),
            self.text[self.at] == '\'',
        ensures
            next == (Reading { at: self.at + 1, done: self.done.push(glued_mark('\'')), ..self }),
            next.whole() == self.whole(),
    {
        Reading { at: self.at + 1, done: self.done.push(glued_mark('\'')), ..self }
    }

    /// Reads an operator of two characters.
    pub proof fn operator(self, first: char, second: char) -> (next: Reading)
        requires
            0 <= self.at < self.text.len() - 1,
            self.text[self.at] == first,
            self.text[self.at + 1] == second,
            glued(first, second),
        ensures
            next == (Reading {
                at: self.at + 2,
                done: self.done.push(glued_mark(first)).push(mark(second)),
                ..self
            }),
            next.whole() == self.whole(),
    {
        Reading {
            at: self.at + 2,
            done: self.done.push(glued_mark(first)).push(mark(second)),
            ..self
        }
    }

    /// Reads `::` and a word.
    pub proof fn segment(self, word: Seq<char>) -> (next: Reading)
        requires
            0 <= self.at < self.text.len() - 1,
            self.text[self.at] == ':',
            self.text[self.at + 1] == ':',
            self.has_word(2, word),
        ensures
            next == (Reading {
                at: self.at + 2 + word.len(),
                done: self.done + segment(word),
                ..self
            }),
            next.whole() == self.whole(),
    {
        let next = self.operator(':', ':');
        let next = next.word(word);
        assert(next.done =~= self.done + segment(word));
        next
    }

    /// Reads an opening bracket.
    pub proof fn opening(self, delimiter: Delimiter) -> (next: Reading)
        requires
            0 <= self.at < self.text.len(),
            opened(self.text[self.at]) == Some(delimiter),
        ensures
            next == (Reading {
                at: self.at + 1,
                open: self.open.push((delimiter, self.done)),
                done: Seq::empty(),
                ..self
            }),
            next.whole() == self.whole(),
    {
        Reading {
            at: self.at + 1,
            open: self.open.push((delimiter, self.done)),
            done: Seq::empty(),
            ..self
        }
    }

    /// Reads a closing bracket. `before` is how far the template was read where it was opened,
    /// `inner` what stands in the group.
    pub proof fn closing(self, before: Reading, inner: Seq<Token>) -> (next: Reading)
        requires
            0 <= self.at < self.text.len(),
            closes(self.text[self.at]),
            self.open.len() == before.open.len() + 1,
            self.open.drop_last() =~= before.open,
            self.open.last().1 == before.done,
            self.done =~= inner,
        ensures
            next == (Reading {
                at: self.at + 1,
                open: before.open,
                done: before.done.push(Token::Group(self.open.last().0, inner)),
                ..self
            }),
            next.whole() == self.whole(),
    {
        Reading {
            at: self.at + 1,
            open: before.open,
            done: before.done.push(Token::Group(self.open.last().0, inner)),
            ..self
        }
    }
}

/// The first hole is found by its name.
proof fn lemma_first_hole(holes: Seq<(Seq<char>, Seq<Token>)>)
    requires
        holes.len() > 0,
    ensures
        filling(holes, holes[0].0) == Some(holes[0].1),
{
}

/// The second hole is found by its name where the first has another.
proof fn lemma_second_hole(holes: Seq<(Seq<char>, Seq<Token>)>)
    requires
        holes.len() > 1,
        holes[0].0 != holes[1].0,
    ensures
        filling(holes, holes[1].0) == Some(holes[1].1),
{
    lemma_first_hole(holes.skip(1));
}

/// The third hole is found by its name where the first two have others.
proof fn lemma_third_hole(holes: Seq<(Seq<char>, Seq<Token>)>)
    requires
        holes.len() > 2,
        holes[0].0 != holes[2].0,
        holes[1].0 != holes[2].0,
    ensures
        filling(holes, holes[2].0) == Some(holes[2].1),
{
    lemma_second_hole(holes.skip(1));
}

/// The arm of a variant gives its index.
pub proof fn law_index_arm_is_spelled(plan: EnumPlanView, i: int)
    ensures
        variant_piece(plan, VariantPiece::IndexArm, i) == variant_pattern(plan, i)
            + seq![glued_mark('='), mark('>')] + index_literal(i as nat) + seq![mark(',')],
{
    reveal_strlit("#pattern => #index,");
    reveal_strlit("pattern");
    reveal_strlit("index");
    let pattern = variant_pattern(plan, i);
    let index = index_literal(i as nat);
    let holes = Seq::empty().push(("pattern"@, pattern)).push(("index"@, index));
    assert("pattern"@[0] != "index"@[0]);
    lemma_first_hole(holes);
    lemma_second_hole(holes);
    let read = Reading::start("#pattern => #index,"@, holes);
    let read = read.hole("pattern"@, pattern);
    let read = read.gap(1);
    let read = read.operator('=', '>');
    let read = read.gap(1);
    let read = read.hole("index"@, index);
    let read = read.mark(',');
}

/// The marker of a variant is inserted where its index is active, and else removed.
pub proof fn law_marker_sync_is_spelled(plan: EnumPlanView, i: int)
    ensures
        variant_piece(plan, VariantPiece::MarkerSync, i) == seq![
            word("if"@),
            word("active"@),
            Token::Group(Delimiter::Parenthesis, index_literal(i as nat)),
            Token::Group(
                Delimiter::Brace,
                seq![
                    word("entity"@),
                    mark('.'),
                    word("insert_if_new"@),
                    Token::Group(Delimiter::Parenthesis, name(plan.variants[i].marker)),
                    mark(';'),
                ],
            ),
            word("else"@),
            Token::Group(
                Delimiter::Brace,
                seq![
                    word("entity"@),
                    mark('.'),
                    word("remove"@),
                    glued_mark(':'),
                    mark(':'),
                    mark('<'),
                ] + name(plan.variants[i].marker) + seq![
                    mark('>'),
                    Token::Group(Delimiter::Parenthesis, Seq::empty()),
                    mark(';'),
                ],
            ),
        ],
{
    reveal_strlit("
    if active(#index) {
        entity.insert_if_new(#marker);
    } else {
        entity.remove::<#marker>();
    }
");
    reveal_strlit("if");
    reveal_strlit("active");
    reveal_strlit("index");
    reveal_strlit("entity");
    reveal_strlit("insert_if_new");
    reveal_strlit("marker");
    reveal_strlit("else");
    reveal_strlit("remove");
    let index = index_literal(i as nat);
    let marker = name(plan.variants[i].marker);
    let holes = Seq::empty().push(("index"@, index)).push(("marker"@, marker));
    assert("index"@[0] != "marker"@[0]);
    lemma_first_hole(holes);
    lemma_second_hole(holes);
    let read = Reading::start(SYNC_MARKER@, holes);
    let read = read.gap(5);
    let read = read.word("if"@);
    let read = read.gap(1);
    let read = read.word("active"@);
    let before_1 = read;
    let read = read.opening(Delimiter::Parenthesis);
    let read = read.hole("index"@, index);
    let read = read.closing(before_1, index);
    let read = read.gap(1);
    let before_2 = read;
    let read = read.opening(Delimiter::Brace);
    let read = read.gap(9);
    let read = read.word("entity"@);
    let read = read.mark('.');
    let read = read.word("insert_if_new"@);
    let before_3 = read;
    let read = read.opening(Delimiter::Parenthesis);
    let read = read.hole("marker"@, marker);
    let read = read.closing(before_3, marker);
    let read = read.mark(';');
    let read = read.gap(5);
    let read = read.closing(
        before_2,
        seq![
            word("entity"@),
            mark('.'),
            word("insert_if_new"@),
            Token::Group(Delimiter::Parenthesis, marker),
            mark(';'),
        ],
    );
    let read = read.gap(1);
    let read = read.word("else"@);
    let read = read.gap(1);
    let before_4 = read;
    let read = read.opening(Delimiter::Brace);
    let read = read.gap(9);
    let read = read.word("entity"@);
    let read = read.mark('.');
    let read = read.word("remove"@);
    let read = read.operator(':', ':');
    let read = read.mark('<');
    let read = read.hole("marker"@, marker);
    let read = read.mark('>');
    let before_5 = read;
    let read = read.opening(Delimiter::Parenthesis);
    let read = read.closing(before_5, Seq::empty());
    let read = read.mark(';');
    let read = read.gap(5);
    let read = read.closing(
        before_4,
        seq![
            word("entity"@),
            mark('.'),
            word("remove"@),
            glued_mark(':'),
            mark(':'),
            mark('<'),
        ] + marker + seq![mark('>'), Token::Group(Delimiter::Parenthesis, Seq::empty()), mark(';')],
    );
    let read = read.gap(1);
}

/// A payload type is removed where the index is not among those of the variants that carry it.
pub proof fn law_stale_removal_is_spelled(payloads: Seq<Option<TypeView>>, ty: TypeView)
    ensures
        stale_removal(payloads, ty) == seq![
            word("if"@),
            mark('!'),
            glued_mark(':'),
            mark(':'),
            word("core"@),
            glued_mark(':'),
            mark(':'),
            word("matches"@),
            mark('!'),
            Token::Group(
                Delimiter::Parenthesis,
                seq![word("variant_index"@), mark(',')] + alternatives(carriers(payloads, ty.text)),
            ),
            Token::Group(
                Delimiter::Brace,
                seq![
                    word("ec"@),
                    mark('.'),
                    word("remove"@),
                    glued_mark(':'),
                    mark(':'),
                    mark('<'),
                ] + ty.tokens + seq![
                    mark('>'),
                    Token::Group(Delimiter::Parenthesis, Seq::empty()),
                    mark(';'),
                ],
            ),
        ],
{
    reveal_strlit("
    if !::core::matches!(variant_index, #carrying_indexes) {
        ec.remove::<#payload_type>();
    }
");
    reveal_strlit("if");
    reveal_strlit("core");
    reveal_strlit("matches");
    reveal_strlit("variant_index");
    reveal_strlit("carrying_indexes");
    reveal_strlit("ec");
    reveal_strlit("remove");
    reveal_strlit("payload_type");
    let carrying_indexes = alternatives(carriers(payloads, ty.text));
    let payload_type = ty.tokens;
    let holes = Seq::empty()
        .push(("carrying_indexes"@, carrying_indexes))
        .push(("payload_type"@, payload_type));
    assert("carrying_indexes"@[0] != "payload_type"@[0]);
    lemma_first_hole(holes);
    lemma_second_hole(holes);
    let read = Reading::start(STALE_REMOVAL@, holes);
    let read = read.gap(5);
    let read = read.word("if"@);
    let read = read.gap(1);
    let read = read.mark('!');
    let read = read.operator(':', ':');
    let read = read.word("core"@);
    let read = read.operator(':', ':');
    let read = read.word("matches"@);
    let read = read.mark('!');
    let before_1 = read;
    let read = read.opening(Delimiter::Parenthesis);
    let read = read.word("variant_index"@);
    let read = read.mark(',');
    let read = read.gap(1);
    let read = read.hole("carrying_indexes"@, carrying_indexes);
    let read = read.closing(before_1, seq![word("variant_index"@), mark(',')] + carrying_indexes);
    let read = read.gap(1);
    let before_2 = read;
    let read = read.opening(Delimiter::Brace);
    let read = read.gap(9);
    let read = read.word("ec"@);
    let read = read.mark('.');
    let read = read.word("remove"@);
    let read = read.operator(':', ':');
    let read = read.mark('<');
    let read = read.hole("payload_type"@, payload_type);
    let read = read.mark('>');
    let before_3 = read;
    let read = read.opening(Delimiter::Parenthesis);
    let read = read.closing(before_3, Seq::empty());
    let read = read.mark(';');
    let read = read.gap(5);
    let read = read.closing(
        before_2,
        seq![
            word("ec"@),
            mark('.'),
            word("remove"@),
            glued_mark(':'),
            mark(':'),
            mark('<'),
        ] + payload_type
            + seq![mark('>'), Token::Group(Delimiter::Parenthesis, Seq::empty()), mark(';')],
    );
    let read = read.gap(1);
}

/// The stale payload types are removed through the given variable.
pub proof fn law_remove_stale_is_spelled(plan: EnumPlanView, on: Handle)
    ensures
        step_tokens(plan, Step::RemoveStale(on)) == seq![
            Token::Group(
                Delimiter::Brace,
                seq![word("let"@), word("ec"@), mark('='), mark('&'), word("mut"@)]
                    + handle_tokens(on) + seq![mark(';')] + remove_stale_payloads(plan.payloads()),
            ),
        ],
{
    reveal_strlit("
    {
        let ec = &mut #on;
        #remove_stale_payloads
    }
");
    reveal_strlit("let");
    reveal_strlit("ec");
    reveal_strlit("mut");
    reveal_strlit("on");
    reveal_strlit("remove_stale_payloads");
    let on = handle_tokens(on);
    let remove_stale_payloads = remove_stale_payloads(plan.payloads());
    let holes = Seq::empty()
        .push(("on"@, on))
        .push(("remove_stale_payloads"@, remove_stale_payloads));
    assert("on"@[0] != "remove_stale_payloads"@[0]);
    lemma_first_hole(holes);
    lemma_second_hole(holes);
    let read = Reading::start(REMOVE_STALE@, holes);
    let read = read.gap(5);
    let before_1 = read;
    let read = read.opening(Delimiter::Brace);
    let read = read.gap(9);
    let read = read.word("let"@);
    let read = read.gap(1);
    let read = read.word("ec"@);
    let read = read.gap(1);
    let read = read.mark('=');
    let read = read.gap(1);
    let read = read.mark('&');
    let read = read.word("mut"@);
    let read = read.gap(1);
    let read = read.hole("on"@, on);
    let read = read.mark(';');
    let read = read.gap(9);
    let read = read.hole("remove_stale_payloads"@, remove_stale_payloads);
    let read = read.gap(5);
    let read = read.closing(
        before_1,
        seq![word("let"@), word("ec"@), mark('='), mark('&'), word("mut"@)] + on
            + seq![mark(';')] + remove_stale_payloads,
    );
    let read = read.gap(1);
}

/// The held payload of a variant is inserted where there is one.
pub proof fn law_payload_insert_is_spelled(plan: EnumPlanView, i: usize)
    requires
        plan.variants[i as int].payload is Some,
    ensures
        step_tokens(plan, Step::InsertHeld(i)) == seq![
            word("if"@),
            word("let"@),
            glued_mark(':'),
            mark(':'),
            word("core"@),
            glued_mark(':'),
            mark(':'),
            word("option"@),
            glued_mark(':'),
            mark(':'),
            word("Option"@),
            glued_mark(':'),
            mark(':'),
            word("Some"@),
            Token::Group(Delimiter::Parenthesis, seq![word("payload"@)]),
            mark('='),
        ] + name(payload_var_name(i as nat)) + seq![
            Token::Group(
                Delimiter::Brace,
                seq![
                    word("entity_commands"@),
                    mark('.'),
                    word("insert"@),
                    Token::Group(Delimiter::Parenthesis, seq![word("payload"@)]),
                    mark(';'),
                ],
            ),
        ],
{
    reveal_strlit("
    if let ::core::option::Option::Some(payload) = #payload_var {
        entity_commands.insert(payload);
    }
");
    reveal_strlit("if");
    reveal_strlit("let");
    reveal_strlit("core");
    reveal_strlit("option");
    reveal_strlit("Option");
    reveal_strlit("Some");
    reveal_strlit("payload");
    reveal_strlit("payload_var");
    reveal_strlit("entity_commands");
    reveal_strlit("insert");
    let payload_var = name(payload_var_name(i as nat));
    let holes = Seq::empty().push(("payload_var"@, payload_var));
    lemma_first_hole(holes);
    let read = Reading::start(PAYLOAD_INSERT@, holes);
    let read = read.gap(5);
    let read = read.word("if"@);
    let read = read.gap(1);
    let read = read.word("let"@);
    let read = read.gap(1);
    let read = read.operator(':', ':');
    let read = read.word("core"@);
    let read = read.operator(':', ':');
    let read = read.word("option"@);
    let read = read.operator(':', ':');
    let read = read.word("Option"@);
    let read = read.operator(':', ':');
    let read = read.word("Some"@);
    let before_1 = read;
    let read = read.opening(Delimiter::Parenthesis);
    let read = read.word("payload"@);
    let read = read.closing(before_1, seq![word("payload"@)]);
    let read = read.gap(1);
    let read = read.mark('=');
    let read = read.gap(1);
    let read = read.hole("payload_var"@, payload_var);
    let read = read.gap(1);
    let before_2 = read;
    let read = read.opening(Delimiter::Brace);
    let read = read.gap(9);
    let read = read.word("entity_commands"@);
    let read = read.mark('.');
    let read = read.word("insert"@);
    let before_3 = read;
    let read = read.opening(Delimiter::Parenthesis);
    let read = read.word("payload"@);
    let read = read.closing(before_3, seq![word("payload"@)]);
    let read = read.mark(';');
    let read = read.gap(5);
    let read = read.closing(
        before_2,
        seq![
            word("entity_commands"@),
            mark('.'),
            word("insert"@),
            Token::Group(Delimiter::Parenthesis, seq![word("payload"@)]),
            mark(';'),
        ],
    );
    let read = read.gap(1);
}

/// The arm of a variant with a payload inserts a clone of it.
pub proof fn law_payload_arm_is_spelled(plan: EnumPlanView, i: int)
    requires
        plan.variants[i].payload is Some,
    ensures
        variant_piece(plan, VariantPiece::PayloadArm, i) == name(plan.ident)
            + seq![glued_mark(':'), mark(':')] + name(plan.variants[i].ident) + seq![
            Token::Group(Delimiter::Parenthesis, seq![word("payload"@)]),
            glued_mark('='),
            mark('>'),
            Token::Group(
                Delimiter::Brace,
                seq![
                    word("ec"@),
                    mark('.'),
                    word("insert"@),
                    Token::Group(
                        Delimiter::Parenthesis,
                        seq![
                            glued_mark(':'),
                            mark(':'),
                            word("core"@),
                            glued_mark(':'),
                            mark(':'),
                            word("clone"@),
                            glued_mark(':'),
                            mark(':'),
                            word("Clone"@),
                            glued_mark(':'),
                            mark(':'),
                            word("clone"@),
                            Token::Group(Delimiter::Parenthesis, seq![word("payload"@)]),
                        ],
                    ),
                    mark(';'),
                ],
            ),
        ],
{
    reveal_strlit("
    #enum_ident::#variant_ident(payload) => {
        ec.insert(::core::clone::Clone::clone(payload));
    }
");
    reveal_strlit("enum_ident");
    reveal_strlit("variant_ident");
    reveal_strlit("payload");
    reveal_strlit("ec");
    reveal_strlit("insert");
    reveal_strlit("core");
    reveal_strlit("clone");
    reveal_strlit("Clone");
    let enum_ident = name(plan.ident);
    let variant_ident = name(plan.variants[i].ident);
    let holes = Seq::empty()
        .push(("enum_ident"@, enum_ident))
        .push(("variant_ident"@, variant_ident));
    assert("enum_ident"@[0] != "variant_ident"@[0]);
    lemma_first_hole(holes);
    lemma_second_hole(holes);
    let read = Reading::start(PAYLOAD_ARM@, holes);
    let read = read.gap(5);
    let read = read.hole("enum_ident"@, enum_ident);
    let read = read.operator(':', ':');
    let read = read.hole("variant_ident"@, variant_ident);
    let before_1 = read;
    let read = read.opening(Delimiter::Parenthesis);
    let read = read.word("payload"@);
    let read = read.closing(before_1, seq![word("payload"@)]);
    let read = read.gap(1);
    let read = read.operator('=', '>');
    let read = read.gap(1);
    let before_2 = read;
    let read = read.opening(Delimiter::Brace);
    let read = read.gap(9);
    let read = read.word("ec"@);
    let read = read.mark('.');
    let read = read.word("insert"@);
    let before_3 = read;
    let read = read.opening(Delimiter::Parenthesis);
    let read = read.operator(':', ':');
    let read = read.word("core"@);
    let read = read.operator(':', ':');
    let read = read.word("clone"@);
    let read = read.operator(':', ':');
    let read = read.word("Clone"@);
    let read = read.operator(':', ':');
    let read = read.word("clone"@);
    let before_4 = read;
    let read = read.opening(Delimiter::Parenthesis);
    let read = read.word("payload"@);
    let read = read.closing(before_4, seq![word("payload"@)]);
    let read = read.closing(
        before_3,
        seq![
            glued_mark(':'),
            mark(':'),
            word("core"@),
            glued_mark(':'),
            mark(':'),
            word("clone"@),
            glued_mark(':'),
            mark(':'),
            word("Clone"@),
            glued_mark(':'),
            mark(':'),
            word("clone"@),
            Token::Group(Delimiter::Parenthesis, seq![word("payload"@)]),
        ],
    );
    let read = read.mark(';');
    let read = read.gap(5);
    let read = read.closing(
        before_2,
        seq![
            word("ec"@),
            mark('.'),
            word("insert"@),
            Token::Group(
                Delimiter::Parenthesis,
                seq![
                    glued_mark(':'),
                    mark(':'),
                    word("core"@),
                    glued_mark(':'),
                    mark(':'),
                    word("clone"@),
                    glued_mark(':'),
                    mark(':'),
                    word("Clone"@),
                    glued_mark(':'),
                    mark(':'),
                    word("clone"@),
                    Token::Group(Delimiter::Parenthesis, seq![word("payload"@)]),
                ],
            ),
            mark(';'),
        ],
    );
    let read = read.gap(1);
}

/// The payload of the value is inserted by the arm that matches it.
pub proof fn law_insert_matched_is_spelled(plan: EnumPlanView)
    requires
        distinct_types(plan.payloads()).len() > 0,
    ensures
        step_tokens(plan, Step::InsertMatched) == seq![
            word("match"@),
            word("value"@),
            Token::Group(Delimiter::Brace, variant_pieces(plan, VariantPiece::PayloadArm)),
        ],
{
    reveal_strlit("match value { #system_payload_arms }");
    reveal_strlit("match");
    reveal_strlit("value");
    reveal_strlit("system_payload_arms");
    let system_payload_arms = variant_pieces(plan, VariantPiece::PayloadArm);
    let holes = Seq::empty().push(("system_payload_arms"@, system_payload_arms));
    lemma_first_hole(holes);
    let read = Reading::start("match value { #system_payload_arms }"@, holes);
    let read = read.word("match"@);
    let read = read.gap(1);
    let read = read.word("value"@);
    let read = read.gap(1);
    let before_1 = read;
    let read = read.opening(Delimiter::Brace);
    let read = read.gap(1);
    let read = read.hole("system_payload_arms"@, system_payload_arms);
    let read = read.gap(1);
    let read = read.closing(before_1, system_payload_arms);
}

/// Every payload type is removed at once.
pub proof fn law_remove_all_is_spelled(plan: EnumPlanView)
    requires
        distinct_types(plan.payloads()).len() > 0,
    ensures
        step_tokens(plan, Step::RemoveAll) == seq![
            word("ec"@),
            mark('.'),
            word("remove"@),
            glued_mark(':'),
            mark(':'),
            mark('<'),
            Token::Group(
                Delimiter::Parenthesis,
                joined(
        distinct_types(plan.payloads()).len(),
        listed_type_at(plan.payloads()),
    ),
            ),
            mark('>'),
            Token::Group(Delimiter::Parenthesis, Seq::empty()),
            mark(';'),
        ],
{
    reveal_strlit("ec.remove::<(#payload_types)>();");
    reveal_strlit("ec");
    reveal_strlit("remove");
    reveal_strlit("payload_types");
    let payload_types = joined(
        distinct_types(plan.payloads()).len(),
        listed_type_at(plan.payloads()),
    );
    let holes = Seq::empty().push(("payload_types"@, payload_types));
    lemma_first_hole(holes);
    let read = Reading::start("ec.remove::<(#payload_types)>();"@, holes);
    let read = read.word("ec"@);
    let read = read.mark('.');
    let read = read.word("remove"@);
    let read = read.operator(':', ':');
    let read = read.mark('<');
    let before_1 = read;
    let read = read.opening(Delimiter::Parenthesis);
    let read = read.hole("payload_types"@, payload_types);
    let read = read.closing(before_1, payload_types);
    let read = read.mark('>');
    let before_2 = read;
    let read = read.opening(Delimiter::Parenthesis);
    let read = read.closing(before_2, Seq::empty());
    let read = read.mark(';');
}

/// The markers of an enum are synced by one call, which is given the active indexes.
pub proof fn law_sync_markers_call_is_spelled(enum_type: Seq<Token>, active: Seq<Token>, on: Handle)
    ensures
        sync_markers_call(enum_type, active, on) == seq![mark('<')] + enum_type + seq![
            word("as"@),
            glued_mark(':'),
            mark(':'),
            word("bevy_filter_enum"@),
            glued_mark(':'),
            mark(':'),
            word("EnumFilterValue"@),
            mark('>'),
            glued_mark(':'),
            mark(':'),
            word("sync_markers"@),
            Token::Group(
                Delimiter::Parenthesis,
                seq![mark('|'), word("index"@), mark('|')] + active
                    + seq![mark(','), mark('&'), word("mut"@)] + handle_tokens(on)
                    + seq![mark(',')],
            ),
            mark(';'),
        ],
{
    reveal_strlit("
    <#enum_type as ::bevy_filter_enum::EnumFilterValue>::sync_markers(
        |index| #active,
        &mut #on,
    );
");
    reveal_strlit("enum_type");
    reveal_strlit("as");
    reveal_strlit("bevy_filter_enum");
    reveal_strlit("EnumFilterValue");
    reveal_strlit("sync_markers");
    reveal_strlit("index");
    reveal_strlit("active");
    reveal_strlit("mut");
    reveal_strlit("on");
    let on = handle_tokens(on);
    let holes = Seq::empty()
        .push(("enum_type"@, enum_type))
        .push(("active"@, active))
        .push(("on"@, on));
    assert("enum_type"@[0] != "active"@[0]);
    assert("enum_type"@[0] != "on"@[0]);
    assert("active"@[0] != "on"@[0]);
    lemma_first_hole(holes);
    lemma_second_hole(holes);
    lemma_third_hole(holes);
    let read = Reading::start(SYNC_MARKERS@, holes);
    let read = read.gap(5);
    let read = read.mark('<');
    let read = read.hole("enum_type"@, enum_type);
    let read = read.gap(1);
    let read = read.word("as"@);
    let read = read.gap(1);
    let read = read.operator(':', ':');
    let read = read.word("bevy_filter_enum"@);
    let read = read.operator(':', ':');
    let read = read.word("EnumFilterValue"@);
    let read = read.mark('>');
    let read = read.operator(':', ':');
    let read = read.word("sync_markers"@);
    let before_1 = read;
    let read = read.opening(Delimiter::Parenthesis);
    let read = read.gap(9);
    let read = read.mark('|');
    let read = read.word("index"@);
    let read = read.mark('|');
    let read = read.gap(1);
    let read = read.hole("active"@, active);
    let read = read.mark(',');
    let read = read.gap(9);
    let read = read.mark('&');
    let read = read.word("mut"@);
    let read = read.gap(1);
    let read = read.hole("on"@, on);
    let read = read.mark(',');
    let read = read.gap(5);
    let read = read.closing(
        before_1,
        seq![mark('|'), word("index"@), mark('|')] + active
            + seq![mark(','), mark('&'), word("mut"@)] + on + seq![mark(',')],
    );
    let read = read.mark(';');
    let read = read.gap(1);
}

/// The markers of an enum are removed by one call.
pub proof fn law_remove_markers_call_is_spelled(enum_type: Seq<Token>, on: Handle)
    ensures
        remove_markers_call(enum_type, on) == seq![mark('<')] + enum_type + seq![
            word("as"@),
            glued_mark(':'),
            mark(':'),
            word("bevy_filter_enum"@),
            glued_mark(':'),
            mark(':'),
            word("EnumFilterValue"@),
            mark('>'),
            glued_mark(':'),
            mark(':'),
            word("remove_markers"@),
            Token::Group(
                Delimiter::Parenthesis,
                seq![mark('&'), word("mut"@)] + handle_tokens(on),
            ),
            mark(';'),
        ],
{
    reveal_strlit("
    <#enum_type as ::bevy_filter_enum::EnumFilterValue>::remove_markers(&mut #on);
");
    reveal_strlit("enum_type");
    reveal_strlit("as");
    reveal_strlit("bevy_filter_enum");
    reveal_strlit("EnumFilterValue");
    reveal_strlit("remove_markers");
    reveal_strlit("mut");
    reveal_strlit("on");
    let on = handle_tokens(on);
    let holes = Seq::empty().push(("enum_type"@, enum_type)).push(("on"@, on));
    assert("enum_type"@[0] != "on"@[0]);
    lemma_first_hole(holes);
    lemma_second_hole(holes);
    let read = Reading::start(REMOVE_MARKERS@, holes);
    let read = read.gap(5);
    let read = read.mark('<');
    let read = read.hole("enum_type"@, enum_type);
    let read = read.gap(1);
    let read = read.word("as"@);
    let read = read.gap(1);
    let read = read.operator(':', ':');
    let read = read.word("bevy_filter_enum"@);
    let read = read.operator(':', ':');
    let read = read.word("EnumFilterValue"@);
    let read = read.mark('>');
    let read = read.operator(':', ':');
    let read = read.word("remove_markers"@);
    let before_1 = read;
    let read = read.opening(Delimiter::Parenthesis);
    let read = read.mark('&');
    let read = read.word("mut"@);
    let read = read.gap(1);
    let read = read.hole("on"@, on);
    let read = read.closing(before_1, seq![mark('&'), word("mut"@)] + on);
    let read = read.mark(';');
    let read = read.gap(1);
}

/// A `#` that no hole follows is an ordinary `#`.
pub proof fn law_pound_without_a_hole(
    text: Seq<char>,
    at: int,
    holes: Seq<(Seq<char>, Seq<Token>)>,
    open: Seq<(Delimiter, Seq<Token>)>,
    done: Seq<Token>,
)
    requires
        0 <= at < text.len() - 1,
        text[at] == '#',
        starts_word(text[at + 1]),
        filling(holes, text.subrange(at + 1, word_end(text, at + 2))) is None,
    ensures
        woven(text, at, holes, open, done) == woven(text, at
            + 1, holes, open, done.push(mark('#'))),
{
}

/// At the end of a template its tokens are those read so far.
pub proof fn law_template_ends(
    text: Seq<char>,
    holes: Seq<(Seq<char>, Seq<Token>)>,
    open: Seq<(Delimiter, Seq<Token>)>,
    done: Seq<Token>,
)
    ensures
        woven(text, text.len() as int, holes, open, done) == done,
{
}

/// A hole is found by its name where those before it have others.
pub proof fn law_hole_is_found_by_its_name(holes: Seq<(Seq<char>, Seq<Token>)>, k: int)
    requires
        0 <= k < holes.len(),
        forall|j: int| 0 <= j < k ==> (#[trigger] holes[j]).0 != holes[k].0,
    ensures
        filling(holes, holes[k].0) == Some(holes[k].1),
    decreases k,
{
    if k > 0 {
        let rest = holes.skip(1);
        assert(holes[0].0 != holes[k].0);
        assert(rest[k - 1] == holes[k]);
        assert forall|j: int| 0 <= j < k - 1 implies (#[trigger] rest[j]).0 != rest[k - 1].0 by {
            assert(rest[j] == holes[j + 1]);
        }
        law_hole_is_found_by_its_name(rest, k - 1);
    }
}

/// A name that no hole has is found nowhere.
pub proof fn law_other_names_are_no_holes(holes: Seq<(Seq<char>, Seq<Token>)>, name: Seq<char>)
    requires
        forall|j: int| 0 <= j < holes.len() ==> (#[trigger] holes[j]).0 != name,
    ensures
        filling(holes, name) is None,
    decreases holes.len(),
{
    if holes.len() > 0 {
        let rest = holes.skip(1);
        assert(holes[0].0 != name);
        assert forall|j: int| 0 <= j < rest.len() implies (#[trigger] rest[j]).0 != name by {
            assert(rest[j] == holes[j + 1]);
        }
        law_other_names_are_no_holes(rest, name);
    }
}

/// A unit variant is matched by its path.
pub proof fn law_unit_pattern_is_spelled(plan: EnumPlanView, i: int)
    requires
        plan.variants[i].style == FieldsStyle::Unit,
    ensures
        variant_pattern(plan, i) == seq![word(plan.ident)] + seq![glued_mark(':'), mark(':')]
            + seq![word(plan.variants[i].ident)],
{
    reveal_strlit("#enum_ident::#variant_ident");
    reveal_strlit("enum_ident");
    reveal_strlit("variant_ident");
    let enum_ident = seq![word(plan.ident)];
    let variant_ident = seq![word(plan.variants[i].ident)];
    let holes = Seq::empty()
        .push(("enum_ident"@, enum_ident))
        .push(("variant_ident"@, variant_ident));
    assert("enum_ident"@[0] != "variant_ident"@[0]);
    law_hole_is_found_by_its_name(holes, 0);
    law_hole_is_found_by_its_name(holes, 1);
    let read = Reading::start("#enum_ident::#variant_ident"@, holes);
    let read = read.hole("enum_ident"@, enum_ident);
    let read = read.operator(':', ':');
    let read = read.hole("variant_ident"@, variant_ident);
}

/// A tuple variant is matched by its path and `(..)`.
pub proof fn law_tuple_pattern_is_spelled(plan: EnumPlanView, i: int)
    requires
        plan.variants[i].style == FieldsStyle::Unnamed,
    ensures
        variant_pattern(plan, i) == seq![word(plan.ident)] + seq![glued_mark(':'), mark(':')]
            + seq![word(plan.variants[i].ident)]
            + seq![Token::Group(Delimiter::Parenthesis, seq![glued_mark('.'), mark('.')])],
{
    reveal_strlit("#enum_ident::#variant_ident(..)");
    reveal_strlit("enum_ident");
    reveal_strlit("variant_ident");
    let enum_ident = seq![word(plan.ident)];
    let variant_ident = seq![word(plan.variants[i].ident)];
    let holes = Seq::empty()
        .push(("enum_ident"@, enum_ident))
        .push(("variant_ident"@, variant_ident));
    assert("enum_ident"@[0] != "variant_ident"@[0]);
    law_hole_is_found_by_its_name(holes, 0);
    law_hole_is_found_by_its_name(holes, 1);
    let read = Reading::start("#enum_ident::#variant_ident(..)"@, holes);
    let read = read.hole("enum_ident"@, enum_ident);
    let read = read.operator(':', ':');
    let read = read.hole("variant_ident"@, variant_ident);
    let before_1 = read;
    let read = read.opening(Delimiter::Parenthesis);
    let read = read.operator('.', '.');
    let read = read.closing(before_1, seq![glued_mark('.'), mark('.')]);
}

/// A struct variant is matched by its path and `{ .. }`.
pub proof fn law_struct_pattern_is_spelled(plan: EnumPlanView, i: int)
    requires
        plan.variants[i].style == FieldsStyle::Named,
    ensures
        variant_pattern(plan, i) == seq![word(plan.ident)] + seq![glued_mark(':'), mark(':')]
            + seq![word(plan.variants[i].ident)]
            + seq![Token::Group(Delimiter::Brace, seq![glued_mark('.'), mark('.')])],
{
    reveal_strlit("#enum_ident::#variant_ident { .. }");
    reveal_strlit("enum_ident");
    reveal_strlit("variant_ident");
    let enum_ident = seq![word(plan.ident)];
    let variant_ident = seq![word(plan.variants[i].ident)];
    let holes = Seq::empty()
        .push(("enum_ident"@, enum_ident))
        .push(("variant_ident"@, variant_ident));
    assert("enum_ident"@[0] != "variant_ident"@[0]);
    law_hole_is_found_by_its_name(holes, 0);
    law_hole_is_found_by_its_name(holes, 1);
    let read = Reading::start("#enum_ident::#variant_ident { .. }"@, holes);
    let read = read.hole("enum_ident"@, enum_ident);
    let read = read.operator(':', ':');
    let read = read.hole("variant_ident"@, variant_ident);
    let read = read.gap(1);
    let before_1 = read;
    let read = read.opening(Delimiter::Brace);
    let read = read.gap(1);
    let read = read.operator('.', '.');
    let read = read.gap(1);
    let read = read.closing(before_1, seq![glued_mark('.'), mark('.')]);
}

/// The marker of a variant is a unit struct, as visible as the enum, with a line of documentation.
#[verifier::rlimit(50)]
pub proof fn law_marker_struct_is_spelled(plan: EnumPlanView, i: int)
    ensures
        variant_piece(plan, VariantPiece::MarkerStruct, i) == seq![
            mark('#'),
            Token::Group(
                Delimiter::Bracket,
                seq![word("doc"@), mark('=')] + seq![Token::Text("Marker component for [`"@
                    + plan.ident + "::"@ + plan.variants[i].ident + "`]."@)],
            ),
            mark('#'),
            Token::Group(
                Delimiter::Bracket,
                seq![
                    word("derive"@),
                    Token::Group(
                        Delimiter::Parenthesis,
                        seq![
                            glued_mark(':'),
                            mark(':'),
                            word("bevy_filter_enum"@),
                            glued_mark(':'),
                            mark(':'),
                            word("__private"@),
                            glued_mark(':'),
                            mark(':'),
                            word("bevy_ecs"@),
                            glued_mark(':'),
                            mark(':'),
                            word("prelude"@),
                            glued_mark(':'),
                            mark(':'),
                            word("Component"@),
                            mark(','),
                            word("Debug"@),
                            mark(','),
                            word("Default"@),
                        ],
                    ),
                ],
            ),
        ] + plan.visibility + seq![word("struct"@)] + seq![word(plan.variants[i].marker)]
            + seq![mark(';')],
{
    reveal_strlit("
    #[doc = #doc]
    #[derive(::bevy_filter_enum::__private::bevy_ecs::prelude::Component, Debug, Default)]
    #vis struct #marker;
");
    reveal_strlit("doc");
    reveal_strlit("derive");
    reveal_strlit("bevy_filter_enum");
    reveal_strlit("__private");
    reveal_strlit("bevy_ecs");
    reveal_strlit("prelude");
    reveal_strlit("Component");
    reveal_strlit("Debug");
    reveal_strlit("Default");
    reveal_strlit("vis");
    reveal_strlit("struct");
    reveal_strlit("marker");
    let doc = seq![Token::Text("Marker component for [`"@ + plan.ident + "::"@
        + plan.variants[i].ident + "`]."@)];
    let vis = plan.visibility;
    let marker = seq![word(plan.variants[i].marker)];
    let holes = Seq::empty().push(("doc"@, doc)).push(("vis"@, vis)).push(("marker"@, marker));
    assert("doc"@[0] != "vis"@[0]);
    assert("doc"@[0] != "marker"@[0]);
    assert("vis"@[0] != "marker"@[0]);
    law_hole_is_found_by_its_name(holes, 0);
    law_hole_is_found_by_its_name(holes, 1);
    law_hole_is_found_by_its_name(holes, 2);
    let read = Reading::start(MARKER_STRUCT@, holes);
    let read = read.gap(5);
    let read = read.mark('#');
    let before_1 = read;
    let read = read.opening(Delimiter::Bracket);
    let read = read.word("doc"@);
    let read = read.gap(1);
    let read = read.mark('=');
    let read = read.gap(1);
    let read = read.hole("doc"@, doc);
    let read = read.closing(before_1, seq![word("doc"@), mark('=')] + doc);
    let read = read.gap(5);
    let read = read.mark('#');
    let before_2 = read;
    let read = read.opening(Delimiter::Bracket);
    let read = read.word("derive"@);
    let before_3 = read;
    let read = read.opening(Delimiter::Parenthesis);
    let read = read.operator(':', ':');
    let read = read.word("bevy_filter_enum"@);
    let read = read.operator(':', ':');
    let read = read.word("__private"@);
    let read = read.operator(':', ':');
    let read = read.word("bevy_ecs"@);
    let read = read.operator(':', ':');
    let read = read.word("prelude"@);
    let read = read.operator(':', ':');
    let read = read.word("Component"@);
    let read = read.mark(',');
    let read = read.gap(1);
    let read = read.word("Debug"@);
    let read = read.mark(',');
    let read = read.gap(1);
    let read = read.word("Default"@);
    let read = read.closing(
        before_3,
        seq![
            glued_mark(':'),
            mark(':'),
            word("bevy_filter_enum"@),
            glued_mark(':'),
            mark(':'),
            word("__private"@),
            glued_mark(':'),
            mark(':'),
            word("bevy_ecs"@),
            glued_mark(':'),
            mark(':'),
            word("prelude"@),
            glued_mark(':'),
            mark(':'),
            word("Component"@),
            mark(','),
            word("Debug"@),
            mark(','),
            word("Default"@),
        ],
    );
    let read = read.closing(
        before_2,
        seq![
            word("derive"@),
            Token::Group(
                Delimiter::Parenthesis,
                seq![
                    glued_mark(':'),
                    mark(':'),
                    word("bevy_filter_enum"@),
                    glued_mark(':'),
                    mark(':'),
                    word("__private"@),
                    glued_mark(':'),
                    mark(':'),
                    word("bevy_ecs"@),
                    glued_mark(':'),
                    mark(':'),
                    word("prelude"@),
                    glued_mark(':'),
                    mark(':'),
                    word("Component"@),
                    mark(','),
                    word("Debug"@),
                    mark(','),
                    word("Default"@),
                ],
            ),
        ],
    );
    let read = read.gap(5);
    let read = read.hole("vis"@, vis);
    let read = read.gap(1);
    let read = read.word("struct"@);
    let read = read.gap(1);
    let read = read.hole("marker"@, marker);
    let read = read.mark(';');
    let read = read.gap(1);
}

/// The marker of a variant that displays as the variant does.
pub proof fn law_variant_display_is_spelled(plan: EnumPlanView, i: int)
    ensures
        quoted(
            "::core::fmt::Display::fmt(&#enum_ident::#variant_ident, f)"@,
            Seq::empty()
                .push(("enum_ident"@, seq![word(plan.ident)]))
                .push(("variant_ident"@, seq![word(plan.variants[i].ident)])),
        ) == seq![
            glued_mark(':'),
            mark(':'),
            word("core"@),
            glued_mark(':'),
            mark(':'),
            word("fmt"@),
            glued_mark(':'),
            mark(':'),
            word("Display"@),
            glued_mark(':'),
            mark(':'),
            word("fmt"@),
            Token::Group(
                Delimiter::Parenthesis,
                seq![mark('&')] + seq![word(plan.ident)] + seq![glued_mark(':'), mark(':')]
                    + seq![word(plan.variants[i].ident)] + seq![mark(','), word("f"@)],
            ),
        ],
{
    reveal_strlit("::core::fmt::Display::fmt(&#enum_ident::#variant_ident, f)");
    reveal_strlit("core");
    reveal_strlit("fmt");
    reveal_strlit("Display");
    reveal_strlit("enum_ident");
    reveal_strlit("variant_ident");
    reveal_strlit("f");
    let enum_ident = seq![word(plan.ident)];
    let variant_ident = seq![word(plan.variants[i].ident)];
    let holes = Seq::empty()
        .push(("enum_ident"@, enum_ident))
        .push(("variant_ident"@, variant_ident));
    assert("enum_ident"@[0] != "variant_ident"@[0]);
    law_hole_is_found_by_its_name(holes, 0);
    law_hole_is_found_by_its_name(holes, 1);
    let read = Reading::start("::core::fmt::Display::fmt(&#enum_ident::#variant_ident, f)"@, holes);
    let read = read.operator(':', ':');
    let read = read.word("core"@);
    let read = read.operator(':', ':');
    let read = read.word("fmt"@);
    let read = read.operator(':', ':');
    let read = read.word("Display"@);
    let read = read.operator(':', ':');
    let read = read.word("fmt"@);
    let before_1 = read;
    let read = read.opening(Delimiter::Parenthesis);
    let read = read.mark('&');
    let read = read.hole("enum_ident"@, enum_ident);
    let read = read.operator(':', ':');
    let read = read.hole("variant_ident"@, variant_ident);
    let read = read.mark(',');
    let read = read.gap(1);
    let read = read.word("f"@);
    let read = read.closing(
        before_1,
        seq![mark('&')] + enum_ident + seq![glued_mark(':'), mark(':')] + variant_ident
            + seq![mark(','), word("f"@)],
    );
}

/// The marker of a variant that displays as the variant's name.
pub proof fn law_name_display_is_spelled(plan: EnumPlanView, i: int)
    ensures
        quoted(
            "f.write_str(#marker_display)"@,
            seq![("marker_display"@, seq![Token::Text(plan.variants[i].ident)])],
        ) == seq![
            word("f"@),
            mark('.'),
            word("write_str"@),
            Token::Group(Delimiter::Parenthesis, seq![Token::Text(plan.variants[i].ident)]),
        ],
{
    reveal_strlit("f.write_str(#marker_display)");
    reveal_strlit("f");
    reveal_strlit("write_str");
    reveal_strlit("marker_display");
    let marker_display = seq![Token::Text(plan.variants[i].ident)];
    let holes = seq![("marker_display"@, marker_display)];
    law_hole_is_found_by_its_name(holes, 0);
    let read = Reading::start("f.write_str(#marker_display)"@, holes);
    let read = read.word("f"@);
    let read = read.mark('.');
    let read = read.word("write_str"@);
    let before_1 = read;
    let read = read.opening(Delimiter::Parenthesis);
    let read = read.hole("marker_display"@, marker_display);
    let read = read.closing(before_1, marker_display);
}

/// How a marker is displayed is given by one function with the given body.
#[verifier::rlimit(50)]
pub proof fn law_display_is_spelled(marker: Seq<Token>, body: Seq<Token>)
    ensures
        quoted(MARKER_DISPLAY@, Seq::empty().push(("marker"@, marker)).push(("body"@, body))) == seq![
            word("impl"@),
            glued_mark(':'),
            mark(':'),
            word("core"@),
            glued_mark(':'),
            mark(':'),
            word("fmt"@),
            glued_mark(':'),
            mark(':'),
            word("Display"@),
            word("for"@),
        ] + marker + seq![
            Token::Group(
                Delimiter::Brace,
                seq![
                    word("fn"@),
                    word("fmt"@),
                    Token::Group(
                        Delimiter::Parenthesis,
                        seq![
                            mark('&'),
                            word("self"@),
                            mark(','),
                            word("f"@),
                            mark(':'),
                            mark('&'),
                            word("mut"@),
                            glued_mark(':'),
                            mark(':'),
                            word("core"@),
                            glued_mark(':'),
                            mark(':'),
                            word("fmt"@),
                            glued_mark(':'),
                            mark(':'),
                            word("Formatter"@),
                            mark('<'),
                            glued_mark('\''),
                            word("_"@),
                            mark('>'),
                        ],
                    ),
                    glued_mark('-'),
                    mark('>'),
                    glued_mark(':'),
                    mark(':'),
                    word("core"@),
                    glued_mark(':'),
                    mark(':'),
                    word("fmt"@),
                    glued_mark(':'),
                    mark(':'),
                    word("Result"@),
                    Token::Group(Delimiter::Brace, body),
                ],
            ),
        ],
{
    reveal_strlit("
    impl ::core::fmt::Display for #marker {
        fn fmt(&self, f: &mut ::core::fmt::Formatter<'_>) -> ::core::fmt::Result {
            #body
        }
    }
");
    reveal_strlit("impl");
    reveal_strlit("core");
    reveal_strlit("fmt");
    reveal_strlit("Display");
    reveal_strlit("for");
    reveal_strlit("marker");
    reveal_strlit("fn");
    reveal_strlit("self");
    reveal_strlit("f");
    reveal_strlit("mut");
    reveal_strlit("Formatter");
    reveal_strlit("_");
    reveal_strlit("Result");
    reveal_strlit("body");
    let holes = Seq::empty().push(("marker"@, marker)).push(("body"@, body));
    assert("marker"@[0] != "body"@[0]);
    law_hole_is_found_by_its_name(holes, 0);
    law_hole_is_found_by_its_name(holes, 1);
    let read = Reading::start(MARKER_DISPLAY@, holes);
    let read = read.gap(5);
    let read = read.word("impl"@);
    let read = read.gap(1);
    let read = read.operator(':', ':');
    let read = read.word("core"@);
    let read = read.operator(':', ':');
    let read = read.word("fmt"@);
    let read = read.operator(':', ':');
    let read = read.word("Display"@);
    let read = read.gap(1);
    let read = read.word("for"@);
    let read = read.gap(1);
    let read = read.hole("marker"@, marker);
    let read = read.gap(1);
    let before_1 = read;
    let read = read.opening(Delimiter::Brace);
    let read = read.gap(9);
    let read = read.word("fn"@);
    let read = read.gap(1);
    let read = read.word("fmt"@);
    let before_2 = read;
    let read = read.opening(Delimiter::Parenthesis);
    let read = read.mark('&');
    let read = read.word("self"@);
    let read = read.mark(',');
    let read = read.gap(1);
    let read = read.word("f"@);
    let read = read.mark(':');
    let read = read.gap(1);
    let read = read.mark('&');
    let read = read.word("mut"@);
    let read = read.gap(1);
    let read = read.operator(':', ':');
    let read = read.word("core"@);
    let read = read.operator(':', ':');
    let read = read.word("fmt"@);
    let read = read.operator(':', ':');
    let read = read.word("Formatter"@);
    let read = read.mark('<');
    let read = read.quote();
    let read = read.word("_"@);
    let read = read.mark('>');
    let read = read.closing(
        before_2,
        seq![
            mark('&'),
            word("self"@),
            mark(','),
            word("f"@),
            mark(':'),
            mark('&'),
            word("mut"@),
            glued_mark(':'),
            mark(':'),
            word("core"@),
            glued_mark(':'),
            mark(':'),
            word("fmt"@),
            glued_mark(':'),
            mark(':'),
            word("Formatter"@),
            mark('<'),
            glued_mark('\''),
            word("_"@),
            mark('>'),
        ],
    );
    let read = read.gap(1);
    let read = read.operator('-', '>');
    let read = read.gap(1);
    let read = read.operator(':', ':');
    let read = read.word("core"@);
    let read = read.operator(':', ':');
    let read = read.word("fmt"@);
    let read = read.operator(':', ':');
    let read = read.word("Result"@);
    let read = read.gap(1);
    let before_3 = read;
    let read = read.opening(Delimiter::Brace);
    let read = read.gap(13);
    let read = read.hole("body"@, body);
    let read = read.gap(9);
    let read = read.closing(before_3, body);
    let read = read.gap(5);
    let read = read.closing(
        before_1,
        seq![
            word("fn"@),
            word("fmt"@),
            Token::Group(
                Delimiter::Parenthesis,
                seq![
                    mark('&'),
                    word("self"@),
                    mark(','),
                    word("f"@),
                    mark(':'),
                    mark('&'),
                    word("mut"@),
                    glued_mark(':'),
                    mark(':'),
                    word("core"@),
                    glued_mark(':'),
                    mark(':'),
                    word("fmt"@),
                    glued_mark(':'),
                    mark(':'),
                    word("Formatter"@),
                    mark('<'),
                    glued_mark('\''),
                    word("_"@),
                    mark('>'),
                ],
            ),
            glued_mark('-'),
            mark('>'),
            glued_mark(':'),
            mark(':'),
            word("core"@),
            glued_mark(':'),
            mark(':'),
            word("fmt"@),
            glued_mark(':'),
            mark(':'),
            word("Result"@),
            Token::Group(Delimiter::Brace, body),
        ],
    );
    let read = read.gap(1);
}

/// A variant other than the excepted one gives no payload.
pub proof fn law_none_arm_is_spelled(plan: EnumPlanView, except: int, i: int)
    requires
        i != except,
    ensures
        none_arm(plan, except, i) == variant_pattern(plan, i) + seq![
            glued_mark('='),
            mark('>'),
            glued_mark(':'),
            mark(':'),
            word("core"@),
            glued_mark(':'),
            mark(':'),
            word("option"@),
            glued_mark(':'),
            mark(':'),
            word("Option"@),
            glued_mark(':'),
            mark(':'),
            word("None"@),
            mark(','),
        ],
{
    reveal_strlit("#pattern => ::core::option::Option::None,");
    reveal_strlit("pattern");
    reveal_strlit("core");
    reveal_strlit("option");
    reveal_strlit("Option");
    reveal_strlit("None");
    let pattern = variant_pattern(plan, i);
    let holes = seq![("pattern"@, pattern)];
    law_hole_is_found_by_its_name(holes, 0);
    let read = Reading::start("#pattern => ::core::option::Option::None,"@, holes);
    let read = read.hole("pattern"@, pattern);
    let read = read.gap(1);
    let read = read.operator('=', '>');
    let read = read.gap(1);
    let read = read.operator(':', ':');
    let read = read.word("core"@);
    let read = read.operator(':', ':');
    let read = read.word("option"@);
    let read = read.operator(':', ':');
    let read = read.word("Option"@);
    let read = read.operator(':', ':');
    let read = read.word("None"@);
    let read = read.mark(',');
}

/// The arm of a variant without a payload does nothing.
pub proof fn law_empty_arm_is_spelled(plan: EnumPlanView, i: int)
    requires
        plan.variants[i].payload is None,
    ensures
        variant_piece(plan, VariantPiece::PayloadArm, i) == variant_pattern(plan, i)
            + seq![glued_mark('='), mark('>'), Token::Group(Delimiter::Brace, Seq::empty())],
{
    reveal_strlit("#pattern => {}");
    reveal_strlit("pattern");
    let pattern = variant_pattern(plan, i);
    let holes = seq![("pattern"@, pattern)];
    law_hole_is_found_by_its_name(holes, 0);
    let read = Reading::start("#pattern => {}"@, holes);
    let read = read.hole("pattern"@, pattern);
    let read = read.gap(1);
    let read = read.operator('=', '>');
    let read = read.gap(1);
    let before_1 = read;
    let read = read.opening(Delimiter::Brace);
    let read = read.closing(before_1, Seq::empty());
}

/// The payload of a variant is held as a clone where the value is that variant, and else as
/// nothing.
#[verifier::rlimit(100)]
pub proof fn law_payload_let_is_spelled(plan: EnumPlanView, i: int)
    requires
        plan.variants[i].payload is Some,
    ensures
        variant_piece(plan, VariantPiece::PayloadLet, i) == seq![word("let"@)]
            + seq![word("__enum_filter_payload_"@ + decimal(i as nat))] + seq![
            mark(':'),
            glued_mark(':'),
            mark(':'),
            word("core"@),
            glued_mark(':'),
            mark(':'),
            word("option"@),
            glued_mark(':'),
            mark(':'),
            word("Option"@),
            mark('<'),
        ] + plan.variants[i].payload->0.tokens + seq![
            mark('>'),
            mark('='),
            word("match"@),
            word("value"@),
            Token::Group(
                Delimiter::Brace,
                seq![word(plan.ident)] + seq![glued_mark(':'), mark(':')]
                    + seq![word(plan.variants[i].ident)] + seq![
                    Token::Group(Delimiter::Parenthesis, seq![word("payload"@)]),
                    glued_mark('='),
                    mark('>'),
                    Token::Group(
                        Delimiter::Brace,
                        seq![
                            glued_mark(':'),
                            mark(':'),
                            word("core"@),
                            glued_mark(':'),
                            mark(':'),
                            word("option"@),
                            glued_mark(':'),
                            mark(':'),
                            word("Option"@),
                            glued_mark(':'),
                            mark(':'),
                            word("Some"@),
                            Token::Group(
                                Delimiter::Parenthesis,
                                seq![
                                    glued_mark(':'),
                                    mark(':'),
                                    word("core"@),
                                    glued_mark(':'),
                                    mark(':'),
                                    word("clone"@),
                                    glued_mark(':'),
                                    mark(':'),
                                    word("Clone"@),
                                    glued_mark(':'),
                                    mark(':'),
                                    word("clone"@),
                                    Token::Group(Delimiter::Parenthesis, seq![word("payload"@)]),
                                ],
                            ),
                        ],
                    ),
                ] + none_arms(plan, i),
            ),
            mark(';'),
        ],
{
    reveal_strlit("
    let #payload_var: ::core::option::Option<#payload_type> = match value {
        #enum_ident::#variant_ident(payload) => {
            ::core::option::Option::Some(::core::clone::Clone::clone(payload))
        }
        #none_arms
    };
");
    reveal_strlit("let");
    reveal_strlit("payload_var");
    reveal_strlit("core");
    reveal_strlit("option");
    reveal_strlit("Option");
    reveal_strlit("payload_type");
    reveal_strlit("match");
    reveal_strlit("value");
    reveal_strlit("enum_ident");
    reveal_strlit("variant_ident");
    reveal_strlit("payload");
    reveal_strlit("Some");
    reveal_strlit("clone");
    reveal_strlit("Clone");
    reveal_strlit("none_arms");
    let payload_var = seq![word("__enum_filter_payload_"@ + decimal(i as nat))];
    let payload_type = plan.variants[i].payload->0.tokens;
    let enum_ident = seq![word(plan.ident)];
    let variant_ident = seq![word(plan.variants[i].ident)];
    let none_arms = none_arms(plan, i);
    let holes = Seq::empty()
        .push(("payload_var"@, payload_var))
        .push(("payload_type"@, payload_type))
        .push(("enum_ident"@, enum_ident))
        .push(("variant_ident"@, variant_ident))
        .push(("none_arms"@, none_arms));
    assert("payload_var"@[8] != "payload_type"@[8]);
    assert("payload_var"@[0] != "enum_ident"@[0]);
    assert("payload_type"@[0] != "enum_ident"@[0]);
    assert("payload_var"@[0] != "variant_ident"@[0]);
    assert("payload_type"@[0] != "variant_ident"@[0]);
    assert("enum_ident"@[0] != "variant_ident"@[0]);
    assert("payload_var"@[0] != "none_arms"@[0]);
    assert("payload_type"@[0] != "none_arms"@[0]);
    assert("enum_ident"@[0] != "none_arms"@[0]);
    assert("variant_ident"@[0] != "none_arms"@[0]);
    law_hole_is_found_by_its_name(holes, 0);
    law_hole_is_found_by_its_name(holes, 1);
    law_hole_is_found_by_its_name(holes, 2);
    law_hole_is_found_by_its_name(holes, 3);
    law_hole_is_found_by_its_name(holes, 4);
    let read = Reading::start(PAYLOAD_LET@, holes);
    let read = read.gap(5);
    let read = read.word("let"@);
    let read = read.gap(1);
    let read = read.hole("payload_var"@, payload_var);
    let read = read.mark(':');
    let read = read.gap(1);
    let read = read.operator(':', ':');
    let read = read.word("core"@);
    let read = read.operator(':', ':');
    let read = read.word("option"@);
    let read = read.operator(':', ':');
    let read = read.word("Option"@);
    let read = read.mark('<');
    let read = read.hole("payload_type"@, payload_type);
    let read = read.mark('>');
    let read = read.gap(1);
    let read = read.mark('=');
    let read = read.gap(1);
    let read = read.word("match"@);
    let read = read.gap(1);
    let read = read.word("value"@);
    let read = read.gap(1);
    let before_1 = read;
    let read = read.opening(Delimiter::Brace);
    let read = read.gap(9);
    let read = read.hole("enum_ident"@, enum_ident);
    let read = read.operator(':', ':');
    let read = read.hole("variant_ident"@, variant_ident);
    let before_2 = read;
    let read = read.opening(Delimiter::Parenthesis);
    let read = read.word("payload"@);
    let read = read.closing(before_2, seq![word("payload"@)]);
    let read = read.gap(1);
    let read = read.operator('=', '>');
    let read = read.gap(1);
    let before_3 = read;
    let read = read.opening(Delimiter::Brace);
    let read = read.gap(13);
    let read = read.operator(':', ':');
    let read = read.word("core"@);
    let read = read.operator(':', ':');
    let read = read.word("option"@);
    let read = read.operator(':', ':');
    let read = read.word("Option"@);
    let read = read.operator(':', ':');
    let read = read.word("Some"@);
    let before_4 = read;
    let read = read.opening(Delimiter::Parenthesis);
    let read = read.operator(':', ':');
    let read = read.word("core"@);
    let read = read.operator(':', ':');
    let read = read.word("clone"@);
    let read = read.operator(':', ':');
    let read = read.word("Clone"@);
    let read = read.operator(':', ':');
    let read = read.word("clone"@);
    let before_5 = read;
    let read = read.opening(Delimiter::Parenthesis);
    let read = read.word("payload"@);
    let read = read.closing(before_5, seq![word("payload"@)]);
    let read = read.closing(
        before_4,
        seq![
            glued_mark(':'),
            mark(':'),
            word("core"@),
            glued_mark(':'),
            mark(':'),
            word("clone"@),
            glued_mark(':'),
            mark(':'),
            word("Clone"@),
            glued_mark(':'),
            mark(':'),
            word("clone"@),
            Token::Group(Delimiter::Parenthesis, seq![word("payload"@)]),
        ],
    );
    let read = read.gap(9);
    let read = read.closing(
        before_3,
        seq![
            glued_mark(':'),
            mark(':'),
            word("core"@),
            glued_mark(':'),
            mark(':'),
            word("option"@),
            glued_mark(':'),
            mark(':'),
            word("Option"@),
            glued_mark(':'),
            mark(':'),
            word("Some"@),
            Token::Group(
                Delimiter::Parenthesis,
                seq![
                    glued_mark(':'),
                    mark(':'),
                    word("core"@),
                    glued_mark(':'),
                    mark(':'),
                    word("clone"@),
                    glued_mark(':'),
                    mark(':'),
                    word("Clone"@),
                    glued_mark(':'),
                    mark(':'),
                    word("clone"@),
                    Token::Group(Delimiter::Parenthesis, seq![word("payload"@)]),
                ],
            ),
        ],
    );
    let read = read.gap(9);
    let read = read.hole("none_arms"@, none_arms);
    let read = read.gap(5);
    let read = read.closing(
        before_1,
        enum_ident + seq![glued_mark(':'), mark(':')] + variant_ident + seq![
            Token::Group(Delimiter::Parenthesis, seq![word("payload"@)]),
            glued_mark('='),
            mark('>'),
            Token::Group(
                Delimiter::Brace,
                seq![
                    glued_mark(':'),
                    mark(':'),
                    word("core"@),
                    glued_mark(':'),
                    mark(':'),
                    word("option"@),
                    glued_mark(':'),
                    mark(':'),
                    word("Option"@),
                    glued_mark(':'),
                    mark(':'),
                    word("Some"@),
                    Token::Group(
                        Delimiter::Parenthesis,
                        seq![
                            glued_mark(':'),
                            mark(':'),
                            word("core"@),
                            glued_mark(':'),
                            mark(':'),
                            word("clone"@),
                            glued_mark(':'),
                            mark(':'),
                            word("Clone"@),
                            glued_mark(':'),
                            mark(':'),
                            word("clone"@),
                            Token::Group(Delimiter::Parenthesis, seq![word("payload"@)]),
                        ],
                    ),
                ],
            ),
        ] + none_arms,
    );
    let read = read.mark(';');
    let read = read.gap(1);
}

/// A listed payload type is its tokens and a comma.
pub proof fn law_listed_type_is_spelled(ty: TypeView)
    ensures
        listed_type(ty) == ty.tokens + seq![mark(',')],
{
    reveal_strlit("#payload_type,");
    reveal_strlit("payload_type");
    let payload_type = ty.tokens;
    let holes = seq![("payload_type"@, payload_type)];
    law_hole_is_found_by_its_name(holes, 0);
    let read = Reading::start("#payload_type,"@, holes);
    let read = read.hole("payload_type"@, payload_type);
    let read = read.mark(',');
}

/// A hook reads the value of its entity, and is done where it has none.
#[verifier::rlimit(100)]
pub proof fn law_read_held_is_spelled(plan: EnumPlanView)
    ensures
        step_tokens(plan, Step::ReadHeld) == seq![
            word("let"@),
            glued_mark(':'),
            mark(':'),
            word("core"@),
            glued_mark(':'),
            mark(':'),
            word("option"@),
            glued_mark(':'),
            mark(':'),
            word("Option"@),
            glued_mark(':'),
            mark(':'),
            word("Some"@),
            Token::Group(Delimiter::Parenthesis, seq![word("value"@)]),
            mark('='),
            word("world"@),
            mark('.'),
            word("get"@),
            glued_mark(':'),
            mark(':'),
            mark('<'),
        ] + seq![word(plan.ident)] + seq![
            mark('>'),
            Token::Group(
                Delimiter::Parenthesis,
                seq![word("context"@), mark('.'), word("entity"@)],
            ),
            word("else"@),
            Token::Group(Delimiter::Brace, seq![word("return"@), mark(';')]),
            mark(';'),
            word("let"@),
            word("variant_index"@),
            mark('='),
            glued_mark(':'),
            mark(':'),
            word("bevy_filter_enum"@),
            glued_mark(':'),
            mark(':'),
            word("EnumFilterValue"@),
            glued_mark(':'),
            mark(':'),
            word("marker_index"@),
            Token::Group(Delimiter::Parenthesis, seq![word("value"@)]),
            mark(';'),
        ],
{
    reveal_strlit("
    let ::core::option::Option::Some(value) = world.get::<#enum_ident>(context.entity) else {
        return;
    };
    let variant_index = ::bevy_filter_enum::EnumFilterValue::marker_index(value);
");
    reveal_strlit("let");
    reveal_strlit("core");
    reveal_strlit("option");
    reveal_strlit("Option");
    reveal_strlit("Some");
    reveal_strlit("value");
    reveal_strlit("world");
    reveal_strlit("get");
    reveal_strlit("enum_ident");
    reveal_strlit("context");
    reveal_strlit("entity");
    reveal_strlit("else");
    reveal_strlit("return");
    reveal_strlit("variant_index");
    reveal_strlit("bevy_filter_enum");
    reveal_strlit("EnumFilterValue");
    reveal_strlit("marker_index");
    let enum_ident = seq![word(plan.ident)];
    let holes = seq![("enum_ident"@, enum_ident)];
    law_hole_is_found_by_its_name(holes, 0);
    let read = Reading::start(READ_HELD@, holes);
    let read = read.gap(5);
    let read = read.word("let"@);
    let read = read.gap(1);
    let read = read.operator(':', ':');
    let read = read.word("core"@);
    let read = read.operator(':', ':');
    let read = read.word("option"@);
    let read = read.operator(':', ':');
    let read = read.word("Option"@);
    let read = read.operator(':', ':');
    let read = read.word("Some"@);
    let before_1 = read;
    let read = read.opening(Delimiter::Parenthesis);
    let read = read.word("value"@);
    let read = read.closing(before_1, seq![word("value"@)]);
    let read = read.gap(1);
    let read = read.mark('=');
    let read = read.gap(1);
    let read = read.word("world"@);
    let read = read.mark('.');
    let read = read.word("get"@);
    let read = read.operator(':', ':');
    let read = read.mark('<');
    let read = read.hole("enum_ident"@, enum_ident);
    let read = read.mark('>');
    let before_2 = read;
    let read = read.opening(Delimiter::Parenthesis);
    let read = read.word("context"@);
    let read = read.mark('.');
    let read = read.word("entity"@);
    let read = read.closing(before_2, seq![word("context"@), mark('.'), word("entity"@)]);
    let read = read.gap(1);
    let read = read.word("else"@);
    let read = read.gap(1);
    let before_3 = read;
    let read = read.opening(Delimiter::Brace);
    let read = read.gap(9);
    let read = read.word("return"@);
    let read = read.mark(';');
    let read = read.gap(5);
    let read = read.closing(before_3, seq![word("return"@), mark(';')]);
    let read = read.mark(';');
    let read = read.gap(5);
    let read = read.word("let"@);
    let read = read.gap(1);
    let read = read.word("variant_index"@);
    let read = read.gap(1);
    let read = read.mark('=');
    let read = read.gap(1);
    let read = read.operator(':', ':');
    let read = read.word("bevy_filter_enum"@);
    let read = read.operator(':', ':');
    let read = read.word("EnumFilterValue"@);
    let read = read.operator(':', ':');
    let read = read.word("marker_index"@);
    let before_4 = read;
    let read = read.opening(Delimiter::Parenthesis);
    let read = read.word("value"@);
    let read = read.closing(before_4, seq![word("value"@)]);
    let read = read.mark(';');
    let read = read.gap(1);
}

/// A system reads the index of the value that it has come to.
pub proof fn law_read_queried_is_spelled(plan: EnumPlanView)
    ensures
        step_tokens(plan, Step::ReadQueried) == seq![
            word("let"@),
            word("variant_index"@),
            mark('='),
            glued_mark(':'),
            mark(':'),
            word("bevy_filter_enum"@),
            glued_mark(':'),
            mark(':'),
            word("EnumFilterValue"@),
            glued_mark(':'),
            mark(':'),
            word("marker_index"@),
            Token::Group(Delimiter::Parenthesis, seq![word("value"@)]),
            mark(';'),
        ],
{
    reveal_strlit("
    let variant_index = ::bevy_filter_enum::EnumFilterValue::marker_index(value);
");
    reveal_strlit("let");
    reveal_strlit("variant_index");
    reveal_strlit("bevy_filter_enum");
    reveal_strlit("EnumFilterValue");
    reveal_strlit("marker_index");
    reveal_strlit("value");
    let holes = Seq::<(Seq<char>, Seq<Token>)>::empty();
    let read = Reading::start(READ_QUERIED@, holes);
    let read = read.gap(5);
    let read = read.word("let"@);
    let read = read.gap(1);
    let read = read.word("variant_index"@);
    let read = read.gap(1);
    let read = read.mark('=');
    let read = read.gap(1);
    let read = read.operator(':', ':');
    let read = read.word("bevy_filter_enum"@);
    let read = read.operator(':', ':');
    let read = read.word("EnumFilterValue"@);
    let read = read.operator(':', ':');
    let read = read.word("marker_index"@);
    let before_1 = read;
    let read = read.opening(Delimiter::Parenthesis);
    let read = read.word("value"@);
    let read = read.closing(before_1, seq![word("value"@)]);
    let read = read.mark(';');
    let read = read.gap(1);
}

/// A hook addresses its entity.
pub proof fn law_address_context_is_spelled(on: Handle)
    ensures
        address_context(on) == seq![
            word("let"@),
            word("mut"@),
            word("commands"@),
            mark('='),
            word("world"@),
            mark('.'),
            word("commands"@),
            Token::Group(Delimiter::Parenthesis, Seq::empty()),
            mark(';'),
            word("let"@),
            word("mut"@),
        ] + handle_tokens(on) + seq![
            mark('='),
            word("commands"@),
            mark('.'),
            word("entity"@),
            Token::Group(
                Delimiter::Parenthesis,
                seq![word("context"@), mark('.'), word("entity"@)],
            ),
            mark(';'),
        ],
{
    reveal_strlit("
    let mut commands = world.commands();
    let mut #on = commands.entity(context.entity);
");
    reveal_strlit("let");
    reveal_strlit("mut");
    reveal_strlit("commands");
    reveal_strlit("world");
    reveal_strlit("on");
    reveal_strlit("entity");
    reveal_strlit("context");
    let on = handle_tokens(on);
    let holes = seq![("on"@, on)];
    law_hole_is_found_by_its_name(holes, 0);
    let read = Reading::start(ADDRESS_CONTEXT@, holes);
    let read = read.gap(5);
    let read = read.word("let"@);
    let read = read.gap(1);
    let read = read.word("mut"@);
    let read = read.gap(1);
    let read = read.word("commands"@);
    let read = read.gap(1);
    let read = read.mark('=');
    let read = read.gap(1);
    let read = read.word("world"@);
    let read = read.mark('.');
    let read = read.word("commands"@);
    let before_1 = read;
    let read = read.opening(Delimiter::Parenthesis);
    let read = read.closing(before_1, Seq::empty());
    let read = read.mark(';');
    let read = read.gap(5);
    let read = read.word("let"@);
    let read = read.gap(1);
    let read = read.word("mut"@);
    let read = read.gap(1);
    let read = read.hole("on"@, on);
    let read = read.gap(1);
    let read = read.mark('=');
    let read = read.gap(1);
    let read = read.word("commands"@);
    let read = read.mark('.');
    let read = read.word("entity"@);
    let before_2 = read;
    let read = read.opening(Delimiter::Parenthesis);
    let read = read.word("context"@);
    let read = read.mark('.');
    let read = read.word("entity"@);
    let read = read.closing(before_2, seq![word("context"@), mark('.'), word("entity"@)]);
    let read = read.mark(';');
    let read = read.gap(1);
}

/// A system addresses the entity that it has come to.
pub proof fn law_address_queried_is_spelled(plan: EnumPlanView)
    ensures
        step_tokens(plan, Step::AddressQueried) == seq![
            word("let"@),
            word("mut"@),
            word("ec"@),
            mark('='),
            word("commands"@),
            mark('.'),
            word("entity"@),
            Token::Group(Delimiter::Parenthesis, seq![word("entity"@)]),
            mark(';'),
        ],
{
    reveal_strlit("
    let mut ec = commands.entity(entity);
");
    reveal_strlit("let");
    reveal_strlit("mut");
    reveal_strlit("ec");
    reveal_strlit("commands");
    reveal_strlit("entity");
    let holes = Seq::<(Seq<char>, Seq<Token>)>::empty();
    let read = Reading::start(ADDRESS_QUERIED@, holes);
    let read = read.gap(5);
    let read = read.word("let"@);
    let read = read.gap(1);
    let read = read.word("mut"@);
    let read = read.gap(1);
    let read = read.word("ec"@);
    let read = read.gap(1);
    let read = read.mark('=');
    let read = read.gap(1);
    let read = read.word("commands"@);
    let read = read.mark('.');
    let read = read.word("entity"@);
    let before_1 = read;
    let read = read.opening(Delimiter::Parenthesis);
    let read = read.word("entity"@);
    let read = read.closing(before_1, seq![word("entity"@)]);
    let read = read.mark(';');
    let read = read.gap(1);
}

/// Commands go through `entity_commands`.
pub proof fn law_entity_commands_is_spelled()
    ensures
        handle_tokens(Handle::EntityCommands) == seq![word("entity_commands"@)],
{
    reveal_strlit("entity_commands");
    let holes = Seq::<(Seq<char>, Seq<Token>)>::empty();
    let read = Reading::start("entity_commands"@, holes);
    let read = read.word("entity_commands"@);
}

/// Commands go through `ec`.
pub proof fn law_ec_is_spelled()
    ensures
        handle_tokens(Handle::Ec) == seq![word("ec"@)],
{
    reveal_strlit("ec");
    let holes = Seq::<(Seq<char>, Seq<Token>)>::empty();
    let read = Reading::start("ec"@, holes);
    let read = read.word("ec"@);
}

/// The index of a value is active.
pub proof fn law_active_index_is_spelled()
    ensures
        quoted("index == variant_index"@, Seq::empty()) == seq![word("index"@), glued_mark('='), mark('='), word("variant_index"@)],
{
    reveal_strlit("index == variant_index");
    reveal_strlit("index");
    reveal_strlit("variant_index");
    let holes = Seq::<(Seq<char>, Seq<Token>)>::empty();
    let read = Reading::start("index == variant_index"@, holes);
    let read = read.word("index"@);
    let read = read.gap(1);
    let read = read.operator('=', '=');
    let read = read.gap(1);
    let read = read.word("variant_index"@);
}

/// The indexes of the values of a collection are active.
pub proof fn law_active_indexes_are_spelled()
    ensures
        quoted("marker_indexes.contains(&index)"@, Seq::empty()) == seq![
            word("marker_indexes"@),
            mark('.'),
            word("contains"@),
            Token::Group(Delimiter::Parenthesis, seq![mark('&'), word("index"@)]),
        ],
{
    reveal_strlit("marker_indexes.contains(&index)");
    reveal_strlit("marker_indexes");
    reveal_strlit("contains");
    reveal_strlit("index");
    let holes = Seq::<(Seq<char>, Seq<Token>)>::empty();
    let read = Reading::start("marker_indexes.contains(&index)"@, holes);
    let read = read.word("marker_indexes"@);
    let read = read.mark('.');
    let read = read.word("contains"@);
    let before_1 = read;
    let read = read.opening(Delimiter::Parenthesis);
    let read = read.mark('&');
    let read = read.word("index"@);
    let read = read.closing(before_1, seq![mark('&'), word("index"@)]);
}

/// An item of a collection is read through the field that is named for it.
pub proof fn law_mapped_value_is_spelled(config: ConfigView)
    requires
        config.map_field is Some,
    ensures
        marker_value(config) == seq![mark('&'), word("item"@), mark('.')]
            + seq![word(config.map_field->0)],
{
    reveal_strlit("&item.#map_field");
    reveal_strlit("item");
    reveal_strlit("map_field");
    let map_field = seq![word(config.map_field->0)];
    let holes = seq![("map_field"@, map_field)];
    law_hole_is_found_by_its_name(holes, 0);
    let read = Reading::start("&item.#map_field"@, holes);
    let read = read.mark('&');
    let read = read.word("item"@);
    let read = read.mark('.');
    let read = read.hole("map_field"@, map_field);
}

/// An item of a collection is the value where no field is named for it.
pub proof fn law_item_value_is_spelled(config: ConfigView)
    requires
        config.map_field is None,
    ensures
        marker_value(config) == seq![word("item"@)],
{
    reveal_strlit("item");
    let holes = Seq::<(Seq<char>, Seq<Token>)>::empty();
    let read = Reading::start("item"@, holes);
    let read = read.word("item"@);
}

/// A hook reads the indexes of the values in the named field of its entity's component, and is
/// done where it has none.
#[verifier::rlimit(100)]
pub proof fn law_read_held_values_is_spelled(plan: CollectionPlanView)
    ensures
        collection_step_tokens(plan, CollectionStep::ReadHeld) == seq![
            word("let"@),
            word("marker_indexes"@),
            mark(':'),
            glued_mark(':'),
            mark(':'),
            word("std"@),
            glued_mark(':'),
            mark(':'),
            word("vec"@),
            glued_mark(':'),
            mark(':'),
            word("Vec"@),
            mark('<'),
            word("usize"@),
            mark('>'),
            mark('='),
            word("match"@),
            word("world"@),
            mark('.'),
            word("get"@),
            glued_mark(':'),
            mark(':'),
            mark('<'),
        ] + seq![word(plan.ident)] + seq![
            mark('>'),
            Token::Group(
                Delimiter::Parenthesis,
                seq![word("context"@), mark('.'), word("entity"@)],
            ),
            Token::Group(
                Delimiter::Brace,
                seq![
                    word("Some"@),
                    Token::Group(Delimiter::Parenthesis, seq![word("value"@)]),
                    glued_mark('='),
                    mark('>'),
                    word("value"@),
                    mark('.'),
                ] + seq![word(plan.config.iter_field)] + seq![
                    mark('.'),
                    word("iter"@),
                    Token::Group(Delimiter::Parenthesis, Seq::empty()),
                    mark('.'),
                    word("map"@),
                    Token::Group(
                        Delimiter::Parenthesis,
                        seq![
                            mark('|'),
                            word("item"@),
                            mark('|'),
                            glued_mark(':'),
                            mark(':'),
                            word("bevy_filter_enum"@),
                            glued_mark(':'),
                            mark(':'),
                            word("EnumFilterValue"@),
                            glued_mark(':'),
                            mark(':'),
                            word("marker_index"@),
                            Token::Group(Delimiter::Parenthesis, marker_value(plan.config)),
                        ],
                    ),
                    mark('.'),
                    word("collect"@),
                    Token::Group(Delimiter::Parenthesis, Seq::empty()),
                    mark(','),
                    word("None"@),
                    glued_mark('='),
                    mark('>'),
                    word("return"@),
                    mark(','),
                ],
            ),
            mark(';'),
        ],
{
    reveal_strlit("
    let marker_indexes: ::std::vec::Vec<usize> = match world.get::<#component_ident>(context.entity) {
        Some(value) => value
            .#iter_field
            .iter()
            .map(|item| ::bevy_filter_enum::EnumFilterValue::marker_index(#marker_value))
            .collect(),
        None => return,
    };
");
    reveal_strlit("let");
    reveal_strlit("marker_indexes");
    reveal_strlit("std");
    reveal_strlit("vec");
    reveal_strlit("Vec");
    reveal_strlit("usize");
    reveal_strlit("match");
    reveal_strlit("world");
    reveal_strlit("get");
    reveal_strlit("component_ident");
    reveal_strlit("context");
    reveal_strlit("entity");
    reveal_strlit("Some");
    reveal_strlit("value");
    reveal_strlit("iter_field");
    reveal_strlit("iter");
    reveal_strlit("map");
    reveal_strlit("item");
    reveal_strlit("bevy_filter_enum");
    reveal_strlit("EnumFilterValue");
    reveal_strlit("marker_index");
    reveal_strlit("marker_value");
    reveal_strlit("collect");
    reveal_strlit("None");
    reveal_strlit("return");
    let component_ident = seq![word(plan.ident)];
    let iter_field = seq![word(plan.config.iter_field)];
    let marker_value = marker_value(plan.config);
    let holes = Seq::empty()
        .push(("component_ident"@, component_ident))
        .push(("iter_field"@, iter_field))
        .push(("marker_value"@, marker_value));
    assert("component_ident"@[0] != "iter_field"@[0]);
    assert("component_ident"@[0] != "marker_value"@[0]);
    assert("iter_field"@[0] != "marker_value"@[0]);
    law_hole_is_found_by_its_name(holes, 0);
    law_hole_is_found_by_its_name(holes, 1);
    law_hole_is_found_by_its_name(holes, 2);
    let read = Reading::start(READ_HELD_VALUES@, holes);
    let read = read.gap(5);
    let read = read.word("let"@);
    let read = read.gap(1);
    let read = read.word("marker_indexes"@);
    let read = read.mark(':');
    let read = read.gap(1);
    let read = read.operator(':', ':');
    let read = read.word("std"@);
    let read = read.operator(':', ':');
    let read = read.word("vec"@);
    let read = read.operator(':', ':');
    let read = read.word("Vec"@);
    let read = read.mark('<');
    let read = read.word("usize"@);
    let read = read.mark('>');
    let read = read.gap(1);
    let read = read.mark('=');
    let read = read.gap(1);
    let read = read.word("match"@);
    let read = read.gap(1);
    let read = read.word("world"@);
    let read = read.mark('.');
    let read = read.word("get"@);
    let read = read.operator(':', ':');
    let read = read.mark('<');
    let read = read.hole("component_ident"@, component_ident);
    let read = read.mark('>');
    let before_1 = read;
    let read = read.opening(Delimiter::Parenthesis);
    let read = read.word("context"@);
    let read = read.mark('.');
    let read = read.word("entity"@);
    let read = read.closing(before_1, seq![word("context"@), mark('.'), word("entity"@)]);
    let read = read.gap(1);
    let before_2 = read;
    let read = read.opening(Delimiter::Brace);
    let read = read.gap(9);
    let read = read.word("Some"@);
    let before_3 = read;
    let read = read.opening(Delimiter::Parenthesis);
    let read = read.word("value"@);
    let read = read.closing(before_3, seq![word("value"@)]);
    let read = read.gap(1);
    let read = read.operator('=', '>');
    let read = read.gap(1);
    let read = read.word("value"@);
    let read = read.gap(13);
    let read = read.mark('.');
    let read = read.hole("iter_field"@, iter_field);
    let read = read.gap(13);
    let read = read.mark('.');
    let read = read.word("iter"@);
    let before_4 = read;
    let read = read.opening(Delimiter::Parenthesis);
    let read = read.closing(before_4, Seq::empty());
    let read = read.gap(13);
    let read = read.mark('.');
    let read = read.word("map"@);
    let before_5 = read;
    let read = read.opening(Delimiter::Parenthesis);
    let read = read.mark('|');
    let read = read.word("item"@);
    let read = read.mark('|');
    let read = read.gap(1);
    let read = read.operator(':', ':');
    let read = read.word("bevy_filter_enum"@);
    let read = read.operator(':', ':');
    let read = read.word("EnumFilterValue"@);
    let read = read.operator(':', ':');
    let read = read.word("marker_index"@);
    let before_6 = read;
    let read = read.opening(Delimiter::Parenthesis);
    let read = read.hole("marker_value"@, marker_value);
    let read = read.closing(before_6, marker_value);
    let read = read.closing(
        before_5,
        seq![
            mark('|'),
            word("item"@),
            mark('|'),
            glued_mark(':'),
            mark(':'),
            word("bevy_filter_enum"@),
            glued_mark(':'),
            mark(':'),
            word("EnumFilterValue"@),
            glued_mark(':'),
            mark(':'),
            word("marker_index"@),
            Token::Group(Delimiter::Parenthesis, marker_value),
        ],
    );
    let read = read.gap(13);
    let read = read.mark('.');
    let read = read.word("collect"@);
    let before_7 = read;
    let read = read.opening(Delimiter::Parenthesis);
    let read = read.closing(before_7, Seq::empty());
    let read = read.mark(',');
    let read = read.gap(9);
    let read = read.word("None"@);
    let read = read.gap(1);
    let read = read.operator('=', '>');
    let read = read.gap(1);
    let read = read.word("return"@);
    let read = read.mark(',');
    let read = read.gap(5);
    let read = read.closing(
        before_2,
        seq![
            word("Some"@),
            Token::Group(Delimiter::Parenthesis, seq![word("value"@)]),
            glued_mark('='),
            mark('>'),
            word("value"@),
            mark('.'),
        ] + iter_field + seq![
            mark('.'),
            word("iter"@),
            Token::Group(Delimiter::Parenthesis, Seq::empty()),
            mark('.'),
            word("map"@),
            Token::Group(
                Delimiter::Parenthesis,
                seq![
                    mark('|'),
                    word("item"@),
                    mark('|'),
                    glued_mark(':'),
                    mark(':'),
                    word("bevy_filter_enum"@),
                    glued_mark(':'),
                    mark(':'),
                    word("EnumFilterValue"@),
                    glued_mark(':'),
                    mark(':'),
                    word("marker_index"@),
                    Token::Group(Delimiter::Parenthesis, marker_value),
                ],
            ),
            mark('.'),
            word("collect"@),
            Token::Group(Delimiter::Parenthesis, Seq::empty()),
            mark(','),
            word("None"@),
            glued_mark('='),
            mark('>'),
            word("return"@),
            mark(','),
        ],
    );
    let read = read.mark(';');
    let read = read.gap(1);
}

/// A system reads the indexes of the values in the named field of the component that it has
/// come to.
#[verifier::rlimit(100)]
pub proof fn law_read_queried_values_is_spelled(plan: CollectionPlanView)
    ensures
        collection_step_tokens(plan, CollectionStep::ReadQueried) == seq![
            word("let"@),
            word("marker_indexes"@),
            mark(':'),
            glued_mark(':'),
            mark(':'),
            word("std"@),
            glued_mark(':'),
            mark(':'),
            word("vec"@),
            glued_mark(':'),
            mark(':'),
            word("Vec"@),
            mark('<'),
            word("usize"@),
            mark('>'),
            mark('='),
            word("collection"@),
            mark('.'),
        ] + seq![word(plan.config.iter_field)] + seq![
            mark('.'),
            word("iter"@),
            Token::Group(Delimiter::Parenthesis, Seq::empty()),
            mark('.'),
            word("map"@),
            Token::Group(
                Delimiter::Parenthesis,
                seq![
                    mark('|'),
                    word("item"@),
                    mark('|'),
                    glued_mark(':'),
                    mark(':'),
                    word("bevy_filter_enum"@),
                    glued_mark(':'),
                    mark(':'),
                    word("EnumFilterValue"@),
                    glued_mark(':'),
                    mark(':'),
                    word("marker_index"@),
                    Token::Group(Delimiter::Parenthesis, marker_value(plan.config)),
                ],
            ),
            mark('.'),
            word("collect"@),
            Token::Group(Delimiter::Parenthesis, Seq::empty()),
            mark(';'),
        ],
{
    reveal_strlit("
    let marker_indexes: ::std::vec::Vec<usize> = collection
        .#iter_field
        .iter()
        .map(|item| ::bevy_filter_enum::EnumFilterValue::marker_index(#marker_value))
        .collect();
");
    reveal_strlit("let");
    reveal_strlit("marker_indexes");
    reveal_strlit("std");
    reveal_strlit("vec");
    reveal_strlit("Vec");
    reveal_strlit("usize");
    reveal_strlit("collection");
    reveal_strlit("iter_field");
    reveal_strlit("iter");
    reveal_strlit("map");
    reveal_strlit("item");
    reveal_strlit("bevy_filter_enum");
    reveal_strlit("EnumFilterValue");
    reveal_strlit("marker_index");
    reveal_strlit("marker_value");
    reveal_strlit("collect");
    let iter_field = seq![word(plan.config.iter_field)];
    let marker_value = marker_value(plan.config);
    let holes = Seq::empty()
        .push(("iter_field"@, iter_field))
        .push(("marker_value"@, marker_value));
    assert("iter_field"@[0] != "marker_value"@[0]);
    law_hole_is_found_by_its_name(holes, 0);
    law_hole_is_found_by_its_name(holes, 1);
    let read = Reading::start(READ_QUERIED_VALUES@, holes);
    let read = read.gap(5);
    let read = read.word("let"@);
    let read = read.gap(1);
    let read = read.word("marker_indexes"@);
    let read = read.mark(':');
    let read = read.gap(1);
    let read = read.operator(':', ':');
    let read = read.word("std"@);
    let read = read.operator(':', ':');
    let read = read.word("vec"@);
    let read = read.operator(':', ':');
    let read = read.word("Vec"@);
    let read = read.mark('<');
    let read = read.word("usize"@);
    let read = read.mark('>');
    let read = read.gap(1);
    let read = read.mark('=');
    let read = read.gap(1);
    let read = read.word("collection"@);
    let read = read.gap(9);
    let read = read.mark('.');
    let read = read.hole("iter_field"@, iter_field);
    let read = read.gap(9);
    let read = read.mark('.');
    let read = read.word("iter"@);
    let before_1 = read;
    let read = read.opening(Delimiter::Parenthesis);
    let read = read.closing(before_1, Seq::empty());
    let read = read.gap(9);
    let read = read.mark('.');
    let read = read.word("map"@);
    let before_2 = read;
    let read = read.opening(Delimiter::Parenthesis);
    let read = read.mark('|');
    let read = read.word("item"@);
    let read = read.mark('|');
    let read = read.gap(1);
    let read = read.operator(':', ':');
    let read = read.word("bevy_filter_enum"@);
    let read = read.operator(':', ':');
    let read = read.word("EnumFilterValue"@);
    let read = read.operator(':', ':');
    let read = read.word("marker_index"@);
    let before_3 = read;
    let read = read.opening(Delimiter::Parenthesis);
    let read = read.hole("marker_value"@, marker_value);
    let read = read.closing(before_3, marker_value);
    let read = read.closing(
        before_2,
        seq![
            mark('|'),
            word("item"@),
            mark('|'),
            glued_mark(':'),
            mark(':'),
            word("bevy_filter_enum"@),
            glued_mark(':'),
            mark(':'),
            word("EnumFilterValue"@),
            glued_mark(':'),
            mark(':'),
            word("marker_index"@),
            Token::Group(Delimiter::Parenthesis, marker_value),
        ],
    );
    let read = read.gap(9);
    let read = read.mark('.');
    let read = read.word("collect"@);
    let before_4 = read;
    let read = read.opening(Delimiter::Parenthesis);
    let read = read.closing(before_4, Seq::empty());
    let read = read.mark(';');
    let read = read.gap(1);
}

} // verus!
