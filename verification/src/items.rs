//! The generated items, spelled out token by token.

use vstd::prelude::*;

use crate::enum_filter::VALUE_IMPL;
use crate::names::NamesView;
use crate::routine::{cleanup_system_tokens, hook_tokens, plugin_tokens, register_tokens};
use crate::routine::{sync_system_tokens, CLEANUP_SYSTEM, HOOK, PLUGIN, REGISTER_HOOKS};
use crate::routine::SYNC_SYSTEM;
use crate::spelling::{glued_mark, law_hole_is_found_by_its_name, mark, segment, word, Reading};
use crate::template::quoted;
use crate::token::{Delimiter, Token};

verus! {

/// An enum gives the index of a value by the arms for its variants, and syncs its markers one
/// by one.
#[verifier::rlimit(100)]
#[verifier::spinoff_prover]
pub proof fn law_value_impl_is_spelled(
    enum_ident: Seq<Token>,
    index_arms: Seq<Token>,
    marker_syncs: Seq<Token>,
)
    ensures
        quoted(
            VALUE_IMPL@,
            Seq::empty()
                .push(("enum_ident"@, enum_ident))
                .push(("index_arms"@, index_arms))
                .push(("marker_syncs"@, marker_syncs)),
        ) == seq![word("impl"@)] + segment("bevy_filter_enum"@) + segment("EnumFilterValue"@)
            + seq![word("for"@)] + enum_ident + seq![
            Token::Group(
                Delimiter::Brace,
                seq![
                    word("fn"@),
                    word("marker_index"@),
                    Token::Group(Delimiter::Parenthesis, seq![mark('&'), word("self"@)]),
                    glued_mark('-'),
                    mark('>'),
                    word("usize"@),
                    Token::Group(
                        Delimiter::Brace,
                        seq![
                            word("match"@),
                            word("self"@),
                            Token::Group(Delimiter::Brace, index_arms),
                        ],
                    ),
                    word("fn"@),
                    word("sync_markers"@),
                    Token::Group(
                        Delimiter::Parenthesis,
                        seq![
                            word("active"@),
                            mark(':'),
                            word("impl"@),
                            word("Fn"@),
                            Token::Group(Delimiter::Parenthesis, seq![word("usize"@)]),
                            glued_mark('-'),
                            mark('>'),
                            word("bool"@),
                            mark(','),
                            word("entity"@),
                            mark(':'),
                            mark('&'),
                            word("mut"@),
                        ] + segment("bevy_filter_enum"@) + segment("__private"@)
                            + segment("bevy_ecs"@) + segment("system"@)
                            + segment("EntityCommands"@)
                            + seq![mark('<'), glued_mark('\''), word("_"@), mark('>'), mark(',')],
                    ),
                    Token::Group(Delimiter::Brace, marker_syncs),
                ],
            ),
        ],
{
    reveal_strlit("
    impl ::bevy_filter_enum::EnumFilterValue for #enum_ident {
        fn marker_index(&self) -> usize {
            match self {
                #index_arms
            }
        }

        fn sync_markers(
            active: impl Fn(usize) -> bool,
            entity: &mut ::bevy_filter_enum::__private::bevy_ecs::system::EntityCommands<'_>,
        ) {
            #marker_syncs
        }
    }
");
    reveal_strlit("impl");
    reveal_strlit("bevy_filter_enum");
    reveal_strlit("EnumFilterValue");
    reveal_strlit("for");
    reveal_strlit("enum_ident");
    reveal_strlit("fn");
    reveal_strlit("marker_index");
    reveal_strlit("self");
    reveal_strlit("usize");
    reveal_strlit("match");
    reveal_strlit("index_arms");
    reveal_strlit("sync_markers");
    reveal_strlit("active");
    reveal_strlit("Fn");
    reveal_strlit("bool");
    reveal_strlit("entity");
    reveal_strlit("mut");
    reveal_strlit("__private");
    reveal_strlit("bevy_ecs");
    reveal_strlit("system");
    reveal_strlit("EntityCommands");
    reveal_strlit("_");
    reveal_strlit("marker_syncs");
    let holes = Seq::empty()
        .push(("enum_ident"@, enum_ident))
        .push(("index_arms"@, index_arms))
        .push(("marker_syncs"@, marker_syncs));
    assert("enum_ident"@[0] != "index_arms"@[0]);
    assert("enum_ident"@[0] != "marker_syncs"@[0]);
    assert("index_arms"@[0] != "marker_syncs"@[0]);
    law_hole_is_found_by_its_name(holes, 0);
    law_hole_is_found_by_its_name(holes, 1);
    law_hole_is_found_by_its_name(holes, 2);
    let read = Reading::start(VALUE_IMPL@, holes);
    let read = read.gap(5);
    let read = read.word("impl"@);
    let read = read.gap(1);
    let read = read.segment("bevy_filter_enum"@);
    let read = read.segment("EnumFilterValue"@);
    let read = read.gap(1);
    let read = read.word("for"@);
    let read = read.gap(1);
    let read = read.hole("enum_ident"@, enum_ident);
    let read = read.gap(1);
    let before_1 = read;
    let read = read.opening(Delimiter::Brace);
    let read = read.gap(9);
    let read = read.word("fn"@);
    let read = read.gap(1);
    let read = read.word("marker_index"@);
    let before_2 = read;
    let read = read.opening(Delimiter::Parenthesis);
    let read = read.mark('&');
    let read = read.word("self"@);
    let read = read.closing(before_2, seq![mark('&'), word("self"@)]);
    let read = read.gap(1);
    let read = read.operator('-', '>');
    let read = read.gap(1);
    let read = read.word("usize"@);
    let read = read.gap(1);
    let before_3 = read;
    let read = read.opening(Delimiter::Brace);
    let read = read.gap(13);
    let read = read.word("match"@);
    let read = read.gap(1);
    let read = read.word("self"@);
    let read = read.gap(1);
    let before_4 = read;
    let read = read.opening(Delimiter::Brace);
    let read = read.gap(17);
    let read = read.hole("index_arms"@, index_arms);
    let read = read.gap(13);
    let read = read.closing(before_4, index_arms);
    let read = read.gap(9);
    let read = read.closing(
        before_3,
        seq![word("match"@), word("self"@), Token::Group(Delimiter::Brace, index_arms)],
    );
    let read = read.gap(10);
    let read = read.word("fn"@);
    let read = read.gap(1);
    let read = read.word("sync_markers"@);
    let before_5 = read;
    let read = read.opening(Delimiter::Parenthesis);
    let read = read.gap(13);
    let read = read.word("active"@);
    let read = read.mark(':');
    let read = read.gap(1);
    let read = read.word("impl"@);
    let read = read.gap(1);
    let read = read.word("Fn"@);
    let before_6 = read;
    let read = read.opening(Delimiter::Parenthesis);
    let read = read.word("usize"@);
    let read = read.closing(before_6, seq![word("usize"@)]);
    let read = read.gap(1);
    let read = read.operator('-', '>');
    let read = read.gap(1);
    let read = read.word("bool"@);
    let read = read.mark(',');
    let read = read.gap(13);
    let read = read.word("entity"@);
    let read = read.mark(':');
    let read = read.gap(1);
    let read = read.mark('&');
    let read = read.word("mut"@);
    let read = read.gap(1);
    let read = read.segment("bevy_filter_enum"@);
    let read = read.segment("__private"@);
    let read = read.segment("bevy_ecs"@);
    let read = read.segment("system"@);
    let read = read.segment("EntityCommands"@);
    let read = read.mark('<');
    let read = read.quote();
    let read = read.word("_"@);
    let read = read.mark('>');
    let read = read.mark(',');
    let read = read.gap(9);
    let read = read.closing(
        before_5,
        seq![
            word("active"@),
            mark(':'),
            word("impl"@),
            word("Fn"@),
            Token::Group(Delimiter::Parenthesis, seq![word("usize"@)]),
            glued_mark('-'),
            mark('>'),
            word("bool"@),
            mark(','),
            word("entity"@),
            mark(':'),
            mark('&'),
            word("mut"@),
        ] + segment("bevy_filter_enum"@) + segment("__private"@) + segment("bevy_ecs"@)
            + segment("system"@) + segment("EntityCommands"@)
            + seq![mark('<'), glued_mark('\''), word("_"@), mark('>'), mark(',')],
    );
    let read = read.gap(1);
    let before_7 = read;
    let read = read.opening(Delimiter::Brace);
    let read = read.gap(13);
    let read = read.hole("marker_syncs"@, marker_syncs);
    let read = read.gap(9);
    let read = read.closing(before_7, marker_syncs);
    let read = read.gap(5);
    let read = read.closing(
        before_1,
        seq![
            word("fn"@),
            word("marker_index"@),
            Token::Group(Delimiter::Parenthesis, seq![mark('&'), word("self"@)]),
            glued_mark('-'),
            mark('>'),
            word("usize"@),
            Token::Group(
                Delimiter::Brace,
                seq![
                    word("match"@),
                    word("self"@),
                    Token::Group(Delimiter::Brace, index_arms),
                ],
            ),
            word("fn"@),
            word("sync_markers"@),
            Token::Group(
                Delimiter::Parenthesis,
                seq![
                    word("active"@),
                    mark(':'),
                    word("impl"@),
                    word("Fn"@),
                    Token::Group(Delimiter::Parenthesis, seq![word("usize"@)]),
                    glued_mark('-'),
                    mark('>'),
                    word("bool"@),
                    mark(','),
                    word("entity"@),
                    mark(':'),
                    mark('&'),
                    word("mut"@),
                ] + segment("bevy_filter_enum"@) + segment("__private"@) + segment("bevy_ecs"@)
                    + segment("system"@) + segment("EntityCommands"@)
                    + seq![mark('<'), glued_mark('\''), word("_"@), mark('>'), mark(',')],
            ),
            Token::Group(Delimiter::Brace, marker_syncs),
        ],
    );
    let read = read.gap(1);
}

/// The plugin is a unit struct, as visible as the type and documented; it registers the hooks
/// and adds
/// the two systems.
#[verifier::rlimit(100)]
#[verifier::spinoff_prover]
pub proof fn law_plugin_is_spelled(plugin_doc: Seq<Token>, vis: Seq<Token>, names: NamesView)
    ensures
        plugin_tokens(plugin_doc, vis, names) == seq![
            mark('#'),
            Token::Group(Delimiter::Bracket, seq![word("doc"@), mark('=')] + plugin_doc),
        ] + vis + seq![word("struct"@)] + seq![word(names.plugin)]
            + seq![mark(';'), word("impl"@)] + segment("bevy_filter_enum"@)
            + segment("__private"@) + segment("bevy_app"@) + segment("Plugin"@)
            + seq![word("for"@)] + seq![word(names.plugin)] + seq![
            Token::Group(
                Delimiter::Brace,
                seq![
                    word("fn"@),
                    word("build"@),
                    Token::Group(
                        Delimiter::Parenthesis,
                        seq![
                            mark('&'),
                            word("self"@),
                            mark(','),
                            word("app"@),
                            mark(':'),
                            mark('&'),
                            word("mut"@),
                        ] + segment("bevy_filter_enum"@) + segment("__private"@)
                            + segment("bevy_app"@) + segment("App"@),
                    ),
                    Token::Group(
                        Delimiter::Brace,
                        seq![word(names.register_hooks)] + seq![
                            Token::Group(
                                Delimiter::Parenthesis,
                                seq![
                                    word("app"@),
                                    mark('.'),
                                    word("world_mut"@),
                                    Token::Group(Delimiter::Parenthesis, Seq::empty()),
                                ],
                            ),
                            mark(';'),
                            word("app"@),
                            mark('.'),
                            word("add_systems"@),
                            Token::Group(
                                Delimiter::Parenthesis,
                                segment("bevy_filter_enum"@) + segment("__private"@)
                                    + segment("bevy_app"@) + segment("PreUpdate"@) + seq![
                                    mark(','),
                                    Token::Group(
                                        Delimiter::Parenthesis,
                                        seq![word(names.sync)] + seq![mark(',')]
                                            + seq![word(names.cleanup)] + seq![mark(',')],
                                    ),
                                    mark(','),
                                ],
                            ),
                            mark(';'),
                        ],
                    ),
                ],
            ),
        ],
{
    reveal_strlit("
    #[doc = #plugin_doc]
    #vis struct #plugin;

    impl ::bevy_filter_enum::__private::bevy_app::Plugin for #plugin {
        fn build(&self, app: &mut ::bevy_filter_enum::__private::bevy_app::App) {
            #register_hooks(app.world_mut());
            app.add_systems(
                ::bevy_filter_enum::__private::bevy_app::PreUpdate,
                (
                    #sync,
                    #cleanup,
                ),
            );
        }
    }
");
    reveal_strlit("doc");
    reveal_strlit("plugin_doc");
    reveal_strlit("vis");
    reveal_strlit("struct");
    reveal_strlit("plugin");
    reveal_strlit("impl");
    reveal_strlit("bevy_filter_enum");
    reveal_strlit("__private");
    reveal_strlit("bevy_app");
    reveal_strlit("Plugin");
    reveal_strlit("for");
    reveal_strlit("fn");
    reveal_strlit("build");
    reveal_strlit("self");
    reveal_strlit("app");
    reveal_strlit("mut");
    reveal_strlit("App");
    reveal_strlit("register_hooks");
    reveal_strlit("world_mut");
    reveal_strlit("add_systems");
    reveal_strlit("PreUpdate");
    reveal_strlit("sync");
    reveal_strlit("cleanup");
    let plugin = seq![word(names.plugin)];
    let register_hooks = seq![word(names.register_hooks)];
    let sync = seq![word(names.sync)];
    let cleanup = seq![word(names.cleanup)];
    let holes = Seq::empty()
        .push(("plugin_doc"@, plugin_doc))
        .push(("vis"@, vis))
        .push(("plugin"@, plugin))
        .push(("register_hooks"@, register_hooks))
        .push(("sync"@, sync))
        .push(("cleanup"@, cleanup));
    assert("plugin_doc"@[0] != "vis"@[0]);
    assert("plugin_doc"@.len() != "plugin"@.len());
    assert("vis"@[0] != "plugin"@[0]);
    assert("plugin_doc"@[0] != "register_hooks"@[0]);
    assert("vis"@[0] != "register_hooks"@[0]);
    assert("plugin"@[0] != "register_hooks"@[0]);
    assert("plugin_doc"@[0] != "sync"@[0]);
    assert("vis"@[0] != "sync"@[0]);
    assert("plugin"@[0] != "sync"@[0]);
    assert("register_hooks"@[0] != "sync"@[0]);
    assert("plugin_doc"@[0] != "cleanup"@[0]);
    assert("vis"@[0] != "cleanup"@[0]);
    assert("plugin"@[0] != "cleanup"@[0]);
    assert("register_hooks"@[0] != "cleanup"@[0]);
    assert("sync"@[0] != "cleanup"@[0]);
    law_hole_is_found_by_its_name(holes, 0);
    law_hole_is_found_by_its_name(holes, 1);
    law_hole_is_found_by_its_name(holes, 2);
    law_hole_is_found_by_its_name(holes, 3);
    law_hole_is_found_by_its_name(holes, 4);
    law_hole_is_found_by_its_name(holes, 5);
    let read = Reading::start(PLUGIN@, holes);
    let read = read.gap(5);
    let read = read.mark('#');
    let before_1 = read;
    let read = read.opening(Delimiter::Bracket);
    let read = read.word("doc"@);
    let read = read.gap(1);
    let read = read.mark('=');
    let read = read.gap(1);
    let read = read.hole("plugin_doc"@, plugin_doc);
    let read = read.closing(before_1, seq![word("doc"@), mark('=')] + plugin_doc);
    let read = read.gap(5);
    let read = read.hole("vis"@, vis);
    let read = read.gap(1);
    let read = read.word("struct"@);
    let read = read.gap(1);
    let read = read.hole("plugin"@, plugin);
    let read = read.mark(';');
    let read = read.gap(6);
    let read = read.word("impl"@);
    let read = read.gap(1);
    let read = read.segment("bevy_filter_enum"@);
    let read = read.segment("__private"@);
    let read = read.segment("bevy_app"@);
    let read = read.segment("Plugin"@);
    let read = read.gap(1);
    let read = read.word("for"@);
    let read = read.gap(1);
    let read = read.hole("plugin"@, plugin);
    let read = read.gap(1);
    let before_2 = read;
    let read = read.opening(Delimiter::Brace);
    let read = read.gap(9);
    let read = read.word("fn"@);
    let read = read.gap(1);
    let read = read.word("build"@);
    let before_3 = read;
    let read = read.opening(Delimiter::Parenthesis);
    let read = read.mark('&');
    let read = read.word("self"@);
    let read = read.mark(',');
    let read = read.gap(1);
    let read = read.word("app"@);
    let read = read.mark(':');
    let read = read.gap(1);
    let read = read.mark('&');
    let read = read.word("mut"@);
    let read = read.gap(1);
    let read = read.segment("bevy_filter_enum"@);
    let read = read.segment("__private"@);
    let read = read.segment("bevy_app"@);
    let read = read.segment("App"@);
    let read = read.closing(
        before_3,
        seq![
            mark('&'),
            word("self"@),
            mark(','),
            word("app"@),
            mark(':'),
            mark('&'),
            word("mut"@),
        ] + segment("bevy_filter_enum"@) + segment("__private"@) + segment("bevy_app"@)
            + segment("App"@),
    );
    let read = read.gap(1);
    let before_4 = read;
    let read = read.opening(Delimiter::Brace);
    let read = read.gap(13);
    let read = read.hole("register_hooks"@, register_hooks);
    let before_5 = read;
    let read = read.opening(Delimiter::Parenthesis);
    let read = read.word("app"@);
    let read = read.mark('.');
    let read = read.word("world_mut"@);
    let before_6 = read;
    let read = read.opening(Delimiter::Parenthesis);
    let read = read.closing(before_6, Seq::empty());
    let read = read.closing(
        before_5,
        seq![
            word("app"@),
            mark('.'),
            word("world_mut"@),
            Token::Group(Delimiter::Parenthesis, Seq::empty()),
        ],
    );
    let read = read.mark(';');
    let read = read.gap(13);
    let read = read.word("app"@);
    let read = read.mark('.');
    let read = read.word("add_systems"@);
    let before_7 = read;
    let read = read.opening(Delimiter::Parenthesis);
    let read = read.gap(17);
    let read = read.segment("bevy_filter_enum"@);
    let read = read.segment("__private"@);
    let read = read.segment("bevy_app"@);
    let read = read.segment("PreUpdate"@);
    let read = read.mark(',');
    let read = read.gap(17);
    let before_8 = read;
    let read = read.opening(Delimiter::Parenthesis);
    let read = read.gap(21);
    let read = read.hole("sync"@, sync);
    let read = read.mark(',');
    let read = read.gap(21);
    let read = read.hole("cleanup"@, cleanup);
    let read = read.mark(',');
    let read = read.gap(17);
    let read = read.closing(before_8, sync + seq![mark(',')] + cleanup + seq![mark(',')]);
    let read = read.mark(',');
    let read = read.gap(13);
    let read = read.closing(
        before_7,
        segment("bevy_filter_enum"@) + segment("__private"@) + segment("bevy_app"@)
            + segment("PreUpdate"@) + seq![
            mark(','),
            Token::Group(
                Delimiter::Parenthesis,
                sync + seq![mark(',')] + cleanup + seq![mark(',')],
            ),
            mark(','),
        ],
    );
    let read = read.mark(';');
    let read = read.gap(9);
    let read = read.closing(
        before_4,
        register_hooks + seq![
            Token::Group(
                Delimiter::Parenthesis,
                seq![
                    word("app"@),
                    mark('.'),
                    word("world_mut"@),
                    Token::Group(Delimiter::Parenthesis, Seq::empty()),
                ],
            ),
            mark(';'),
            word("app"@),
            mark('.'),
            word("add_systems"@),
            Token::Group(
                Delimiter::Parenthesis,
                segment("bevy_filter_enum"@) + segment("__private"@) + segment("bevy_app"@)
                    + segment("PreUpdate"@) + seq![
                    mark(','),
                    Token::Group(
                        Delimiter::Parenthesis,
                        sync + seq![mark(',')] + cleanup + seq![mark(',')],
                    ),
                    mark(','),
                ],
            ),
            mark(';'),
        ],
    );
    let read = read.gap(5);
    let read = read.closing(
        before_2,
        seq![
            word("fn"@),
            word("build"@),
            Token::Group(
                Delimiter::Parenthesis,
                seq![
                    mark('&'),
                    word("self"@),
                    mark(','),
                    word("app"@),
                    mark(':'),
                    mark('&'),
                    word("mut"@),
                ] + segment("bevy_filter_enum"@) + segment("__private"@) + segment("bevy_app"@)
                    + segment("App"@),
            ),
            Token::Group(
                Delimiter::Brace,
                register_hooks + seq![
                    Token::Group(
                        Delimiter::Parenthesis,
                        seq![
                            word("app"@),
                            mark('.'),
                            word("world_mut"@),
                            Token::Group(Delimiter::Parenthesis, Seq::empty()),
                        ],
                    ),
                    mark(';'),
                    word("app"@),
                    mark('.'),
                    word("add_systems"@),
                    Token::Group(
                        Delimiter::Parenthesis,
                        segment("bevy_filter_enum"@) + segment("__private"@)
                            + segment("bevy_app"@) + segment("PreUpdate"@) + seq![
                            mark(','),
                            Token::Group(
                                Delimiter::Parenthesis,
                                sync + seq![mark(',')] + cleanup + seq![mark(',')],
                            ),
                            mark(','),
                        ],
                    ),
                    mark(';'),
                ],
            ),
        ],
    );
    let read = read.gap(1);
}

/// The insert hook and the remove hook of a component are registered, unless the component is
/// in use.
#[verifier::rlimit(100)]
#[verifier::spinoff_prover]
pub proof fn law_registration_is_spelled(component_ident: Seq<char>, names: NamesView)
    ensures
        register_tokens(component_ident, names) == seq![word("fn"@)]
            + seq![word(names.register_hooks)] + seq![
            Token::Group(
                Delimiter::Parenthesis,
                seq![word("world"@), mark(':'), mark('&'), word("mut"@)]
                    + segment("bevy_filter_enum"@) + segment("__private"@)
                    + segment("bevy_ecs"@) + segment("world"@) + segment("World"@)
                    + seq![mark(',')],
            ),
            Token::Group(
                Delimiter::Brace,
                seq![
                    word("let"@),
                    word("component_id"@),
                    mark('='),
                    word("world"@),
                    mark('.'),
                    word("register_component"@),
                    glued_mark(':'),
                    mark(':'),
                    mark('<'),
                ] + seq![word(component_ident)] + seq![
                    mark('>'),
                    Token::Group(Delimiter::Parenthesis, Seq::empty()),
                    mark(';'),
                    word("if"@),
                    word("world"@),
                    mark('.'),
                    word("archetypes"@),
                    Token::Group(Delimiter::Parenthesis, Seq::empty()),
                    mark('.'),
                    word("iter"@),
                    Token::Group(Delimiter::Parenthesis, Seq::empty()),
                    mark('.'),
                    word("any"@),
                    Token::Group(
                        Delimiter::Parenthesis,
                        seq![
                            mark('|'),
                            word("archetype"@),
                            mark('|'),
                            word("archetype"@),
                            mark('.'),
                            word("contains"@),
                            Token::Group(
                                Delimiter::Parenthesis,
                                seq![word("component_id"@)],
                            ),
                        ],
                    ),
                    Token::Group(Delimiter::Brace, seq![word("return"@), mark(';')]),
                    word("let"@),
                    word("Some"@),
                    Token::Group(Delimiter::Parenthesis, seq![word("hooks"@)]),
                    mark('='),
                    word("world"@),
                    mark('.'),
                    word("register_component_hooks_by_id"@),
                    Token::Group(Delimiter::Parenthesis, seq![word("component_id"@)]),
                    word("else"@),
                    Token::Group(Delimiter::Brace, seq![word("return"@), mark(';')]),
                    mark(';'),
                    word("let"@),
                    word("_"@),
                    mark('='),
                    word("hooks"@),
                    mark('.'),
                    word("try_on_insert"@),
                    Token::Group(Delimiter::Parenthesis, seq![word(names.hook_sync)]),
                    mark(';'),
                    word("let"@),
                    word("_"@),
                    mark('='),
                    word("hooks"@),
                    mark('.'),
                    word("try_on_remove"@),
                    Token::Group(Delimiter::Parenthesis, seq![word(names.hook_cleanup)]),
                    mark(';'),
                ],
            ),
        ],
{
    reveal_strlit("
    fn #register_hooks(
        world: &mut ::bevy_filter_enum::__private::bevy_ecs::world::World,
    ) {
        let component_id = world.register_component::<#component>();
        if world.archetypes().iter().any(|archetype| archetype.contains(component_id)) {
            return;
        }

        let Some(hooks) = world.register_component_hooks_by_id(component_id) else {
            return;
        };

        let _ = hooks.try_on_insert(#hook_sync);
        let _ = hooks.try_on_remove(#hook_cleanup);
    }
");
    reveal_strlit("fn");
    reveal_strlit("register_hooks");
    reveal_strlit("world");
    reveal_strlit("mut");
    reveal_strlit("bevy_filter_enum");
    reveal_strlit("__private");
    reveal_strlit("bevy_ecs");
    reveal_strlit("World");
    reveal_strlit("let");
    reveal_strlit("component_id");
    reveal_strlit("register_component");
    reveal_strlit("component");
    reveal_strlit("if");
    reveal_strlit("archetypes");
    reveal_strlit("iter");
    reveal_strlit("any");
    reveal_strlit("archetype");
    reveal_strlit("contains");
    reveal_strlit("return");
    reveal_strlit("Some");
    reveal_strlit("hooks");
    reveal_strlit("register_component_hooks_by_id");
    reveal_strlit("else");
    reveal_strlit("_");
    reveal_strlit("try_on_insert");
    reveal_strlit("hook_sync");
    reveal_strlit("try_on_remove");
    reveal_strlit("hook_cleanup");
    let register_hooks = seq![word(names.register_hooks)];
    let component = seq![word(component_ident)];
    let hook_sync = seq![word(names.hook_sync)];
    let hook_cleanup = seq![word(names.hook_cleanup)];
    let holes = Seq::empty()
        .push(("register_hooks"@, register_hooks))
        .push(("component"@, component))
        .push(("hook_sync"@, hook_sync))
        .push(("hook_cleanup"@, hook_cleanup));
    assert("register_hooks"@[0] != "component"@[0]);
    assert("register_hooks"@[0] != "hook_sync"@[0]);
    assert("component"@[0] != "hook_sync"@[0]);
    assert("register_hooks"@[0] != "hook_cleanup"@[0]);
    assert("component"@[0] != "hook_cleanup"@[0]);
    assert("hook_sync"@[5] != "hook_cleanup"@[5]);
    law_hole_is_found_by_its_name(holes, 0);
    law_hole_is_found_by_its_name(holes, 1);
    law_hole_is_found_by_its_name(holes, 2);
    law_hole_is_found_by_its_name(holes, 3);
    let read = Reading::start(REGISTER_HOOKS@, holes);
    let read = read.gap(5);
    let read = read.word("fn"@);
    let read = read.gap(1);
    let read = read.hole("register_hooks"@, register_hooks);
    let before_1 = read;
    let read = read.opening(Delimiter::Parenthesis);
    let read = read.gap(9);
    let read = read.word("world"@);
    let read = read.mark(':');
    let read = read.gap(1);
    let read = read.mark('&');
    let read = read.word("mut"@);
    let read = read.gap(1);
    let read = read.segment("bevy_filter_enum"@);
    let read = read.segment("__private"@);
    let read = read.segment("bevy_ecs"@);
    let read = read.segment("world"@);
    let read = read.segment("World"@);
    let read = read.mark(',');
    let read = read.gap(5);
    let read = read.closing(
        before_1,
        seq![word("world"@), mark(':'), mark('&'), word("mut"@)] + segment("bevy_filter_enum"@)
            + segment("__private"@) + segment("bevy_ecs"@) + segment("world"@)
            + segment("World"@) + seq![mark(',')],
    );
    let read = read.gap(1);
    let before_2 = read;
    let read = read.opening(Delimiter::Brace);
    let read = read.gap(9);
    let read = read.word("let"@);
    let read = read.gap(1);
    let read = read.word("component_id"@);
    let read = read.gap(1);
    let read = read.mark('=');
    let read = read.gap(1);
    let read = read.word("world"@);
    let read = read.mark('.');
    let read = read.word("register_component"@);
    let read = read.operator(':', ':');
    let read = read.mark('<');
    let read = read.hole("component"@, component);
    let read = read.mark('>');
    let before_3 = read;
    let read = read.opening(Delimiter::Parenthesis);
    let read = read.closing(before_3, Seq::empty());
    let read = read.mark(';');
    let read = read.gap(9);
    let read = read.word("if"@);
    let read = read.gap(1);
    let read = read.word("world"@);
    let read = read.mark('.');
    let read = read.word("archetypes"@);
    let before_4 = read;
    let read = read.opening(Delimiter::Parenthesis);
    let read = read.closing(before_4, Seq::empty());
    let read = read.mark('.');
    let read = read.word("iter"@);
    let before_5 = read;
    let read = read.opening(Delimiter::Parenthesis);
    let read = read.closing(before_5, Seq::empty());
    let read = read.mark('.');
    let read = read.word("any"@);
    let before_6 = read;
    let read = read.opening(Delimiter::Parenthesis);
    let read = read.mark('|');
    let read = read.word("archetype"@);
    let read = read.mark('|');
    let read = read.gap(1);
    let read = read.word("archetype"@);
    let read = read.mark('.');
    let read = read.word("contains"@);
    let before_7 = read;
    let read = read.opening(Delimiter::Parenthesis);
    let read = read.word("component_id"@);
    let read = read.closing(before_7, seq![word("component_id"@)]);
    let read = read.closing(
        before_6,
        seq![
            mark('|'),
            word("archetype"@),
            mark('|'),
            word("archetype"@),
            mark('.'),
            word("contains"@),
            Token::Group(Delimiter::Parenthesis, seq![word("component_id"@)]),
        ],
    );
    let read = read.gap(1);
    let before_8 = read;
    let read = read.opening(Delimiter::Brace);
    let read = read.gap(13);
    let read = read.word("return"@);
    let read = read.mark(';');
    let read = read.gap(9);
    let read = read.closing(before_8, seq![word("return"@), mark(';')]);
    let read = read.gap(10);
    let read = read.word("let"@);
    let read = read.gap(1);
    let read = read.word("Some"@);
    let before_9 = read;
    let read = read.opening(Delimiter::Parenthesis);
    let read = read.word("hooks"@);
    let read = read.closing(before_9, seq![word("hooks"@)]);
    let read = read.gap(1);
    let read = read.mark('=');
    let read = read.gap(1);
    let read = read.word("world"@);
    let read = read.mark('.');
    let read = read.word("register_component_hooks_by_id"@);
    let before_10 = read;
    let read = read.opening(Delimiter::Parenthesis);
    let read = read.word("component_id"@);
    let read = read.closing(before_10, seq![word("component_id"@)]);
    let read = read.gap(1);
    let read = read.word("else"@);
    let read = read.gap(1);
    let before_11 = read;
    let read = read.opening(Delimiter::Brace);
    let read = read.gap(13);
    let read = read.word("return"@);
    let read = read.mark(';');
    let read = read.gap(9);
    let read = read.closing(before_11, seq![word("return"@), mark(';')]);
    let read = read.mark(';');
    let read = read.gap(10);
    let read = read.word("let"@);
    let read = read.gap(1);
    let read = read.word("_"@);
    let read = read.gap(1);
    let read = read.mark('=');
    let read = read.gap(1);
    let read = read.word("hooks"@);
    let read = read.mark('.');
    let read = read.word("try_on_insert"@);
    let before_12 = read;
    let read = read.opening(Delimiter::Parenthesis);
    let read = read.hole("hook_sync"@, hook_sync);
    let read = read.closing(before_12, hook_sync);
    let read = read.mark(';');
    let read = read.gap(9);
    let read = read.word("let"@);
    let read = read.gap(1);
    let read = read.word("_"@);
    let read = read.gap(1);
    let read = read.mark('=');
    let read = read.gap(1);
    let read = read.word("hooks"@);
    let read = read.mark('.');
    let read = read.word("try_on_remove"@);
    let before_13 = read;
    let read = read.opening(Delimiter::Parenthesis);
    let read = read.hole("hook_cleanup"@, hook_cleanup);
    let read = read.closing(before_13, hook_cleanup);
    let read = read.mark(';');
    let read = read.gap(5);
    let read = read.closing(
        before_2,
        seq![
            word("let"@),
            word("component_id"@),
            mark('='),
            word("world"@),
            mark('.'),
            word("register_component"@),
            glued_mark(':'),
            mark(':'),
            mark('<'),
        ] + component + seq![
            mark('>'),
            Token::Group(Delimiter::Parenthesis, Seq::empty()),
            mark(';'),
            word("if"@),
            word("world"@),
            mark('.'),
            word("archetypes"@),
            Token::Group(Delimiter::Parenthesis, Seq::empty()),
            mark('.'),
            word("iter"@),
            Token::Group(Delimiter::Parenthesis, Seq::empty()),
            mark('.'),
            word("any"@),
            Token::Group(
                Delimiter::Parenthesis,
                seq![
                    mark('|'),
                    word("archetype"@),
                    mark('|'),
                    word("archetype"@),
                    mark('.'),
                    word("contains"@),
                    Token::Group(Delimiter::Parenthesis, seq![word("component_id"@)]),
                ],
            ),
            Token::Group(Delimiter::Brace, seq![word("return"@), mark(';')]),
            word("let"@),
            word("Some"@),
            Token::Group(Delimiter::Parenthesis, seq![word("hooks"@)]),
            mark('='),
            word("world"@),
            mark('.'),
            word("register_component_hooks_by_id"@),
            Token::Group(Delimiter::Parenthesis, seq![word("component_id"@)]),
            word("else"@),
            Token::Group(Delimiter::Brace, seq![word("return"@), mark(';')]),
            mark(';'),
            word("let"@),
            word("_"@),
            mark('='),
            word("hooks"@),
            mark('.'),
            word("try_on_insert"@),
            Token::Group(Delimiter::Parenthesis, hook_sync),
            mark(';'),
            word("let"@),
            word("_"@),
            mark('='),
            word("hooks"@),
            mark('.'),
            word("try_on_remove"@),
            Token::Group(Delimiter::Parenthesis, hook_cleanup),
            mark(';'),
        ],
    );
    let read = read.gap(1);
}

/// A hook takes its steps for the entity that it runs for.
#[verifier::rlimit(100)]
#[verifier::spinoff_prover]
pub proof fn law_hook_is_spelled(hook_ident: Seq<char>, steps: Seq<Token>)
    ensures
        hook_tokens(hook_ident, steps) == seq![word("fn"@)] + seq![word(hook_ident)] + seq![
            Token::Group(
                Delimiter::Parenthesis,
                seq![word("mut"@), word("world"@), mark(':')] + segment("bevy_filter_enum"@)
                    + segment("__private"@) + segment("bevy_ecs"@) + segment("world"@)
                    + segment("DeferredWorld"@) + seq![
                    mark('<'),
                    glued_mark('\''),
                    word("_"@),
                    mark('>'),
                    mark(','),
                    word("context"@),
                    mark(':'),
                ] + segment("bevy_filter_enum"@) + segment("__private"@) + segment("bevy_ecs"@)
                    + segment("lifecycle"@) + segment("HookContext"@) + seq![mark(',')],
            ),
            Token::Group(Delimiter::Brace, steps),
        ],
{
    reveal_strlit("
    fn #hook(
        mut world: ::bevy_filter_enum::__private::bevy_ecs::world::DeferredWorld<'_>,
        context: ::bevy_filter_enum::__private::bevy_ecs::lifecycle::HookContext,
    ) {
        #steps
    }
");
    reveal_strlit("fn");
    reveal_strlit("hook");
    reveal_strlit("mut");
    reveal_strlit("world");
    reveal_strlit("bevy_filter_enum");
    reveal_strlit("__private");
    reveal_strlit("bevy_ecs");
    reveal_strlit("DeferredWorld");
    reveal_strlit("_");
    reveal_strlit("context");
    reveal_strlit("lifecycle");
    reveal_strlit("HookContext");
    reveal_strlit("steps");
    let hook = seq![word(hook_ident)];
    let holes = Seq::empty()
        .push(("hook"@, hook))
        .push(("steps"@, steps));
    assert("hook"@[0] != "steps"@[0]);
    law_hole_is_found_by_its_name(holes, 0);
    law_hole_is_found_by_its_name(holes, 1);
    let read = Reading::start(HOOK@, holes);
    let read = read.gap(5);
    let read = read.word("fn"@);
    let read = read.gap(1);
    let read = read.hole("hook"@, hook);
    let before_1 = read;
    let read = read.opening(Delimiter::Parenthesis);
    let read = read.gap(9);
    let read = read.word("mut"@);
    let read = read.gap(1);
    let read = read.word("world"@);
    let read = read.mark(':');
    let read = read.gap(1);
    let read = read.segment("bevy_filter_enum"@);
    let read = read.segment("__private"@);
    let read = read.segment("bevy_ecs"@);
    let read = read.segment("world"@);
    let read = read.segment("DeferredWorld"@);
    let read = read.mark('<');
    let read = read.quote();
    let read = read.word("_"@);
    let read = read.mark('>');
    let read = read.mark(',');
    let read = read.gap(9);
    let read = read.word("context"@);
    let read = read.mark(':');
    let read = read.gap(1);
    let read = read.segment("bevy_filter_enum"@);
    let read = read.segment("__private"@);
    let read = read.segment("bevy_ecs"@);
    let read = read.segment("lifecycle"@);
    let read = read.segment("HookContext"@);
    let read = read.mark(',');
    let read = read.gap(5);
    let read = read.closing(
        before_1,
        seq![word("mut"@), word("world"@), mark(':')] + segment("bevy_filter_enum"@)
            + segment("__private"@) + segment("bevy_ecs"@) + segment("world"@)
            + segment("DeferredWorld"@) + seq![
            mark('<'),
            glued_mark('\''),
            word("_"@),
            mark('>'),
            mark(','),
            word("context"@),
            mark(':'),
        ] + segment("bevy_filter_enum"@) + segment("__private"@) + segment("bevy_ecs"@)
            + segment("lifecycle"@) + segment("HookContext"@) + seq![mark(',')],
    );
    let read = read.gap(1);
    let before_2 = read;
    let read = read.opening(Delimiter::Brace);
    let read = read.gap(9);
    let read = read.hole("steps"@, steps);
    let read = read.gap(5);
    let read = read.closing(before_2, steps);
    let read = read.gap(1);
}

/// A system takes its steps for each entity whose component was added or changed, and reads the
/// component only.
#[verifier::rlimit(100)]
#[verifier::spinoff_prover]
pub proof fn law_sync_system_is_spelled(
    system_ident: Seq<char>,
    component_ident: Seq<char>,
    value: Seq<Token>,
    steps: Seq<Token>,
)
    ensures
        sync_system_tokens(system_ident, component_ident, value, steps) == seq![word("fn"@)]
            + seq![word(system_ident)] + seq![
            Token::Group(
                Delimiter::Parenthesis,
                seq![word("mut"@), word("commands"@), mark(':')] + segment("bevy_filter_enum"@)
                    + segment("__private"@) + segment("bevy_ecs"@) + segment("prelude"@)
                    + segment("Commands"@) + seq![mark(','), word("q"@), mark(':')]
                    + segment("bevy_filter_enum"@) + segment("__private"@)
                    + segment("bevy_ecs"@) + segment("prelude"@) + segment("Query"@) + seq![
                    mark('<'),
                    Token::Group(
                        Delimiter::Parenthesis,
                        segment("bevy_filter_enum"@) + segment("__private"@)
                            + segment("bevy_ecs"@) + segment("prelude"@) + segment("Entity"@)
                            + seq![mark(','), mark('&')] + seq![word(component_ident)],
                    ),
                    mark(','),
                ] + segment("bevy_filter_enum"@) + segment("__private"@) + segment("bevy_ecs"@)
                    + segment("prelude"@) + segment("Or"@) + seq![
                    mark('<'),
                    Token::Group(
                        Delimiter::Parenthesis,
                        segment("bevy_filter_enum"@) + segment("__private"@)
                            + segment("bevy_ecs"@) + segment("prelude"@) + segment("Added"@)
                            + seq![mark('<')] + seq![word(component_ident)]
                            + seq![mark('>'), mark(',')] + segment("bevy_filter_enum"@)
                            + segment("__private"@) + segment("bevy_ecs"@) + segment("prelude"@)
                            + segment("Changed"@) + seq![mark('<')]
                            + seq![word(component_ident)] + seq![mark('>'), mark(',')],
                    ),
                    mark('>'),
                    mark('>'),
                    mark(','),
                ],
            ),
            Token::Group(
                Delimiter::Brace,
                seq![
                    word("for"@),
                    Token::Group(
                        Delimiter::Parenthesis,
                        seq![word("entity"@), mark(',')] + value,
                    ),
                    word("in"@),
                    mark('&'),
                    word("q"@),
                    Token::Group(Delimiter::Brace, steps),
                ],
            ),
        ],
{
    reveal_strlit("
    fn #system(
        mut commands: ::bevy_filter_enum::__private::bevy_ecs::prelude::Commands,
        q: ::bevy_filter_enum::__private::bevy_ecs::prelude::Query<
            (
                ::bevy_filter_enum::__private::bevy_ecs::prelude::Entity,
                &#component
            ),
            ::bevy_filter_enum::__private::bevy_ecs::prelude::Or<(
                ::bevy_filter_enum::__private::bevy_ecs::prelude::Added<#component>,
                ::bevy_filter_enum::__private::bevy_ecs::prelude::Changed<#component>,
            )>
        >,
    ) {
        for (entity, #value) in &q {
            #steps
        }
    }
");
    reveal_strlit("fn");
    reveal_strlit("system");
    reveal_strlit("mut");
    reveal_strlit("commands");
    reveal_strlit("bevy_filter_enum");
    reveal_strlit("__private");
    reveal_strlit("bevy_ecs");
    reveal_strlit("prelude");
    reveal_strlit("Commands");
    reveal_strlit("q");
    reveal_strlit("Query");
    reveal_strlit("Entity");
    reveal_strlit("component");
    reveal_strlit("Or");
    reveal_strlit("Added");
    reveal_strlit("Changed");
    reveal_strlit("for");
    reveal_strlit("entity");
    reveal_strlit("value");
    reveal_strlit("in");
    reveal_strlit("steps");
    let system = seq![word(system_ident)];
    let component = seq![word(component_ident)];
    let holes = Seq::empty()
        .push(("system"@, system))
        .push(("component"@, component))
        .push(("value"@, value))
        .push(("steps"@, steps));
    assert("system"@[0] != "component"@[0]);
    assert("system"@[0] != "value"@[0]);
    assert("component"@[0] != "value"@[0]);
    assert("system"@[1] != "steps"@[1]);
    assert("component"@[0] != "steps"@[0]);
    assert("value"@[0] != "steps"@[0]);
    law_hole_is_found_by_its_name(holes, 0);
    law_hole_is_found_by_its_name(holes, 1);
    law_hole_is_found_by_its_name(holes, 2);
    law_hole_is_found_by_its_name(holes, 3);
    let read = Reading::start(SYNC_SYSTEM@, holes);
    let read = read.gap(5);
    let read = read.word("fn"@);
    let read = read.gap(1);
    let read = read.hole("system"@, system);
    let before_1 = read;
    let read = read.opening(Delimiter::Parenthesis);
    let read = read.gap(9);
    let read = read.word("mut"@);
    let read = read.gap(1);
    let read = read.word("commands"@);
    let read = read.mark(':');
    let read = read.gap(1);
    let read = read.segment("bevy_filter_enum"@);
    let read = read.segment("__private"@);
    let read = read.segment("bevy_ecs"@);
    let read = read.segment("prelude"@);
    let read = read.segment("Commands"@);
    let read = read.mark(',');
    let read = read.gap(9);
    let read = read.word("q"@);
    let read = read.mark(':');
    let read = read.gap(1);
    let read = read.segment("bevy_filter_enum"@);
    let read = read.segment("__private"@);
    let read = read.segment("bevy_ecs"@);
    let read = read.segment("prelude"@);
    let read = read.segment("Query"@);
    let read = read.mark('<');
    let read = read.gap(13);
    let before_2 = read;
    let read = read.opening(Delimiter::Parenthesis);
    let read = read.gap(17);
    let read = read.segment("bevy_filter_enum"@);
    let read = read.segment("__private"@);
    let read = read.segment("bevy_ecs"@);
    let read = read.segment("prelude"@);
    let read = read.segment("Entity"@);
    let read = read.mark(',');
    let read = read.gap(17);
    let read = read.mark('&');
    let read = read.hole("component"@, component);
    let read = read.gap(13);
    let read = read.closing(
        before_2,
        segment("bevy_filter_enum"@) + segment("__private"@) + segment("bevy_ecs"@)
            + segment("prelude"@) + segment("Entity"@) + seq![mark(','), mark('&')] + component,
    );
    let read = read.mark(',');
    let read = read.gap(13);
    let read = read.segment("bevy_filter_enum"@);
    let read = read.segment("__private"@);
    let read = read.segment("bevy_ecs"@);
    let read = read.segment("prelude"@);
    let read = read.segment("Or"@);
    let read = read.mark('<');
    let before_3 = read;
    let read = read.opening(Delimiter::Parenthesis);
    let read = read.gap(17);
    let read = read.segment("bevy_filter_enum"@);
    let read = read.segment("__private"@);
    let read = read.segment("bevy_ecs"@);
    let read = read.segment("prelude"@);
    let read = read.segment("Added"@);
    let read = read.mark('<');
    let read = read.hole("component"@, component);
    let read = read.mark('>');
    let read = read.mark(',');
    let read = read.gap(17);
    let read = read.segment("bevy_filter_enum"@);
    let read = read.segment("__private"@);
    let read = read.segment("bevy_ecs"@);
    let read = read.segment("prelude"@);
    let read = read.segment("Changed"@);
    let read = read.mark('<');
    let read = read.hole("component"@, component);
    let read = read.mark('>');
    let read = read.mark(',');
    let read = read.gap(13);
    let read = read.closing(
        before_3,
        segment("bevy_filter_enum"@) + segment("__private"@) + segment("bevy_ecs"@)
            + segment("prelude"@) + segment("Added"@) + seq![mark('<')] + component
            + seq![mark('>'), mark(',')] + segment("bevy_filter_enum"@) + segment("__private"@)
            + segment("bevy_ecs"@) + segment("prelude"@) + segment("Changed"@) + seq![mark('<')]
            + component + seq![mark('>'), mark(',')],
    );
    let read = read.mark('>');
    let read = read.gap(9);
    let read = read.mark('>');
    let read = read.mark(',');
    let read = read.gap(5);
    let read = read.closing(
        before_1,
        seq![word("mut"@), word("commands"@), mark(':')] + segment("bevy_filter_enum"@)
            + segment("__private"@) + segment("bevy_ecs"@) + segment("prelude"@)
            + segment("Commands"@) + seq![mark(','), word("q"@), mark(':')]
            + segment("bevy_filter_enum"@) + segment("__private"@) + segment("bevy_ecs"@)
            + segment("prelude"@) + segment("Query"@) + seq![
            mark('<'),
            Token::Group(
                Delimiter::Parenthesis,
                segment("bevy_filter_enum"@) + segment("__private"@) + segment("bevy_ecs"@)
                    + segment("prelude"@) + segment("Entity"@) + seq![mark(','), mark('&')]
                    + component,
            ),
            mark(','),
        ] + segment("bevy_filter_enum"@) + segment("__private"@) + segment("bevy_ecs"@)
            + segment("prelude"@) + segment("Or"@) + seq![
            mark('<'),
            Token::Group(
                Delimiter::Parenthesis,
                segment("bevy_filter_enum"@) + segment("__private"@) + segment("bevy_ecs"@)
                    + segment("prelude"@) + segment("Added"@) + seq![mark('<')] + component
                    + seq![mark('>'), mark(',')] + segment("bevy_filter_enum"@)
                    + segment("__private"@) + segment("bevy_ecs"@) + segment("prelude"@)
                    + segment("Changed"@) + seq![mark('<')] + component
                    + seq![mark('>'), mark(',')],
            ),
            mark('>'),
            mark('>'),
            mark(','),
        ],
    );
    let read = read.gap(1);
    let before_4 = read;
    let read = read.opening(Delimiter::Brace);
    let read = read.gap(9);
    let read = read.word("for"@);
    let read = read.gap(1);
    let before_5 = read;
    let read = read.opening(Delimiter::Parenthesis);
    let read = read.word("entity"@);
    let read = read.mark(',');
    let read = read.gap(1);
    let read = read.hole("value"@, value);
    let read = read.closing(before_5, seq![word("entity"@), mark(',')] + value);
    let read = read.gap(1);
    let read = read.word("in"@);
    let read = read.gap(1);
    let read = read.mark('&');
    let read = read.word("q"@);
    let read = read.gap(1);
    let before_6 = read;
    let read = read.opening(Delimiter::Brace);
    let read = read.gap(13);
    let read = read.hole("steps"@, steps);
    let read = read.gap(9);
    let read = read.closing(before_6, steps);
    let read = read.gap(5);
    let read = read.closing(
        before_4,
        seq![
            word("for"@),
            Token::Group(Delimiter::Parenthesis, seq![word("entity"@), mark(',')] + value),
            word("in"@),
            mark('&'),
            word("q"@),
            Token::Group(Delimiter::Brace, steps),
        ],
    );
    let read = read.gap(1);
}

/// A system takes its steps for each entity that lost the component.
#[verifier::rlimit(100)]
#[verifier::spinoff_prover]
pub proof fn law_cleanup_system_is_spelled(
    system_ident: Seq<char>,
    component_ident: Seq<char>,
    steps: Seq<Token>,
)
    ensures
        cleanup_system_tokens(system_ident, component_ident, steps) == seq![word("fn"@)]
            + seq![word(system_ident)] + seq![
            Token::Group(
                Delimiter::Parenthesis,
                seq![word("mut"@), word("commands"@), mark(':')] + segment("bevy_filter_enum"@)
                    + segment("__private"@) + segment("bevy_ecs"@) + segment("prelude"@)
                    + segment("Commands"@)
                    + seq![mark(','), word("mut"@), word("removed"@), mark(':')]
                    + segment("bevy_filter_enum"@) + segment("__private"@)
                    + segment("bevy_ecs"@) + segment("lifecycle"@)
                    + segment("RemovedComponents"@) + seq![mark('<')]
                    + seq![word(component_ident)] + seq![mark('>'), mark(',')],
            ),
            Token::Group(
                Delimiter::Brace,
                seq![
                    word("for"@),
                    word("entity"@),
                    word("in"@),
                    word("removed"@),
                    mark('.'),
                    word("read"@),
                    Token::Group(Delimiter::Parenthesis, Seq::empty()),
                    Token::Group(Delimiter::Brace, steps),
                ],
            ),
        ],
{
    reveal_strlit("
    fn #system(
        mut commands: ::bevy_filter_enum::__private::bevy_ecs::prelude::Commands,
        mut removed: ::bevy_filter_enum::__private::bevy_ecs::lifecycle::RemovedComponents<#component>,
    ) {
        for entity in removed.read() {
            #steps
        }
    }
");
    reveal_strlit("fn");
    reveal_strlit("system");
    reveal_strlit("mut");
    reveal_strlit("commands");
    reveal_strlit("bevy_filter_enum");
    reveal_strlit("__private");
    reveal_strlit("bevy_ecs");
    reveal_strlit("prelude");
    reveal_strlit("Commands");
    reveal_strlit("removed");
    reveal_strlit("lifecycle");
    reveal_strlit("RemovedComponents");
    reveal_strlit("component");
    reveal_strlit("for");
    reveal_strlit("entity");
    reveal_strlit("in");
    reveal_strlit("read");
    reveal_strlit("steps");
    let system = seq![word(system_ident)];
    let component = seq![word(component_ident)];
    let holes = Seq::empty()
        .push(("system"@, system))
        .push(("component"@, component))
        .push(("steps"@, steps));
    assert("system"@[0] != "component"@[0]);
    assert("system"@[1] != "steps"@[1]);
    assert("component"@[0] != "steps"@[0]);
    law_hole_is_found_by_its_name(holes, 0);
    law_hole_is_found_by_its_name(holes, 1);
    law_hole_is_found_by_its_name(holes, 2);
    let read = Reading::start(CLEANUP_SYSTEM@, holes);
    let read = read.gap(5);
    let read = read.word("fn"@);
    let read = read.gap(1);
    let read = read.hole("system"@, system);
    let before_1 = read;
    let read = read.opening(Delimiter::Parenthesis);
    let read = read.gap(9);
    let read = read.word("mut"@);
    let read = read.gap(1);
    let read = read.word("commands"@);
    let read = read.mark(':');
    let read = read.gap(1);
    let read = read.segment("bevy_filter_enum"@);
    let read = read.segment("__private"@);
    let read = read.segment("bevy_ecs"@);
    let read = read.segment("prelude"@);
    let read = read.segment("Commands"@);
    let read = read.mark(',');
    let read = read.gap(9);
    let read = read.word("mut"@);
    let read = read.gap(1);
    let read = read.word("removed"@);
    let read = read.mark(':');
    let read = read.gap(1);
    let read = read.segment("bevy_filter_enum"@);
    let read = read.segment("__private"@);
    let read = read.segment("bevy_ecs"@);
    let read = read.segment("lifecycle"@);
    let read = read.segment("RemovedComponents"@);
    let read = read.mark('<');
    let read = read.hole("component"@, component);
    let read = read.mark('>');
    let read = read.mark(',');
    let read = read.gap(5);
    let read = read.closing(
        before_1,
        seq![word("mut"@), word("commands"@), mark(':')] + segment("bevy_filter_enum"@)
            + segment("__private"@) + segment("bevy_ecs"@) + segment("prelude"@)
            + segment("Commands"@) + seq![mark(','), word("mut"@), word("removed"@), mark(':')]
            + segment("bevy_filter_enum"@) + segment("__private"@) + segment("bevy_ecs"@)
            + segment("lifecycle"@) + segment("RemovedComponents"@) + seq![mark('<')]
            + component + seq![mark('>'), mark(',')],
    );
    let read = read.gap(1);
    let before_2 = read;
    let read = read.opening(Delimiter::Brace);
    let read = read.gap(9);
    let read = read.word("for"@);
    let read = read.gap(1);
    let read = read.word("entity"@);
    let read = read.gap(1);
    let read = read.word("in"@);
    let read = read.gap(1);
    let read = read.word("removed"@);
    let read = read.mark('.');
    let read = read.word("read"@);
    let before_3 = read;
    let read = read.opening(Delimiter::Parenthesis);
    let read = read.closing(before_3, Seq::empty());
    let read = read.gap(1);
    let before_4 = read;
    let read = read.opening(Delimiter::Brace);
    let read = read.gap(13);
    let read = read.hole("steps"@, steps);
    let read = read.gap(9);
    let read = read.closing(before_4, steps);
    let read = read.gap(5);
    let read = read.closing(
        before_2,
        seq![
            word("for"@),
            word("entity"@),
            word("in"@),
            word("removed"@),
            mark('.'),
            word("read"@),
            Token::Group(Delimiter::Parenthesis, Seq::empty()),
            Token::Group(Delimiter::Brace, steps),
        ],
    );
    let read = read.gap(1);
}

/// The system for an enum calls what it reads `value`.
pub proof fn law_value_is_spelled()
    ensures
        quoted("value"@, Seq::empty()) == seq![word("value"@)],
{
    reveal_strlit("value");
    let holes = Seq::<(Seq<char>, Seq<Token>)>::empty();
    let read = Reading::start("value"@, holes);
    let read = read.word("value"@);
}

/// The system for a collection calls what it reads `collection`.
pub proof fn law_collection_is_spelled()
    ensures
        quoted("collection"@, Seq::empty()) == seq![word("collection"@)],
{
    reveal_strlit("collection");
    let holes = Seq::<(Seq<char>, Seq<Token>)>::empty();
    let read = Reading::start("collection"@, holes);
    let read = read.word("collection"@);
}

} // verus!
