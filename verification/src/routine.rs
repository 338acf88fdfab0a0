//! The functions that are generated for a component, as lists of steps that share their wording.

use proc_macro2::{Ident, TokenStream};
use vstd::prelude::*;

use crate::names::{Names, NamesView};
use crate::template::{quote, quoted, Holes};
use crate::token::{ident_stream, ident_text, stream_tokens, Token};

verus! {

/// A generated function that issues commands.
#[derive(Clone, Copy, PartialEq, Eq, Structural)]
pub enum Routine {
    /// The hook that runs where the component is inserted.
    HookSync,
    /// The hook that runs where the component is removed.
    HookCleanup,
    /// The system that runs for each entity whose component was added or changed.
    Sync,
    /// The system that runs for each entity whose component was removed.
    Cleanup,
}

/// The variable through which a function issues its commands.
#[derive(Clone, Copy, PartialEq, Eq, Structural)]
pub enum Handle {
    EntityCommands,
    Ec,
}

/// Addresses the entity that a hook runs for.
pub const ADDRESS_CONTEXT: &'static str = "
    let mut commands = world.commands();
    let mut #on = commands.entity(context.entity);
";

/// Addresses the entity that a system has come to.
pub const ADDRESS_QUERIED: &'static str = "
    let mut ec = commands.entity(entity);
";

/// Inserts the markers of the active variants and removes the others.
pub const SYNC_MARKERS: &'static str = "
    <#enum_type as ::bevy_filter_enum::EnumFilterValue>::sync_markers(
        |index| #active,
        &mut #on,
    );
";

/// Removes every marker.
pub const REMOVE_MARKERS: &'static str = "
    <#enum_type as ::bevy_filter_enum::EnumFilterValue>::remove_markers(&mut #on);
";

/// The plugin, which registers the hooks and adds the two systems.
pub const PLUGIN: &'static str = "
    #[doc = #plugin_doc]
    #vis struct #plugin;

    impl ::bevy_filter_enum::__private::bevy_app::Plugin for #plugin {
        fn build(&self, app: &mut ::bevy_filter_enum::__private::bevy_app::App) {
            #register_hooks(app.world_mut());
            app.add_systems(
                ::bevy_filter_enum::__private::bevy_app::PreUpdate,
                (
                    #sync,
                    #cleanup,
                ),
            );
        }
    }
";

/// Registers the two hooks, unless the component is in use.
pub const REGISTER_HOOKS: &'static str = "
    fn #register_hooks(
        world: &mut ::bevy_filter_enum::__private::bevy_ecs::world::World,
    ) {
        let component_id = world.register_component::<#component>();
        if world.archetypes().iter().any(|archetype| archetype.contains(component_id)) {
            return;
        }

        let Some(hooks) = world.register_component_hooks_by_id(component_id) else {
            return;
        };

        let _ = hooks.try_on_insert(#hook_sync);
        let _ = hooks.try_on_remove(#hook_cleanup);
    }
";

/// A hook.
pub const HOOK: &'static str = "
    fn #hook(
        mut world: ::bevy_filter_enum::__private::bevy_ecs::world::DeferredWorld<'_>,
        context: ::bevy_filter_enum::__private::bevy_ecs::lifecycle::HookContext,
    ) {
        #steps
    }
";

/// The system for the components that were added or changed.
pub const SYNC_SYSTEM: &'static str = "
    fn #system(
        mut commands: ::bevy_filter_enum::__private::bevy_ecs::prelude::Commands,
        q: ::bevy_filter_enum::__private::bevy_ecs::prelude::Query<
            (
                ::bevy_filter_enum::__private::bevy_ecs::prelude::Entity,
                &#component
            ),
            ::bevy_filter_enum::__private::bevy_ecs::prelude::Or<(
                ::bevy_filter_enum::__private::bevy_ecs::prelude::Added<#component>,
                ::bevy_filter_enum::__private::bevy_ecs::prelude::Changed<#component>,
            )>
        >,
    ) {
        for (entity, #value) in &q {
            #steps
        }
    }
";

/// The system for the components that were removed.
pub const CLEANUP_SYSTEM: &'static str = "
    fn #system(
        mut commands: ::bevy_filter_enum::__private::bevy_ecs::prelude::Commands,
        mut removed: ::bevy_filter_enum::__private::bevy_ecs::lifecycle::RemovedComponents<#component>,
    ) {
        for entity in removed.read() {
            #steps
        }
    }
";

/// The name of the variable.
pub open spec fn handle_tokens(on: Handle) -> Seq<Token> {
    match on {
        Handle::EntityCommands => quoted("entity_commands"@, Seq::empty()),
        Handle::Ec => quoted("ec"@, Seq::empty()),
    }
}

/// Addresses the entity that a hook runs for.
pub open spec fn address_context(on: Handle) -> Seq<Token> {
    quoted(ADDRESS_CONTEXT@, seq![("on"@, handle_tokens(on))])
}

/// The call that inserts the markers of an enum for which `active` holds of the index, and removes
/// the others.
pub open spec fn sync_markers_call(
    enum_type: Seq<Token>,
    active: Seq<Token>,
    on: Handle,
) -> Seq<Token> {
    quoted(
        SYNC_MARKERS@,
        Seq::empty()
            .push(("enum_type"@, enum_type))
            .push(("active"@, active))
            .push(("on"@, handle_tokens(on))),
    )
}

/// The call that removes every marker of an enum.
pub open spec fn remove_markers_call(enum_type: Seq<Token>, on: Handle) -> Seq<Token> {
    quoted(
        REMOVE_MARKERS@,
        Seq::empty().push(("enum_type"@, enum_type)).push(("on"@, handle_tokens(on))),
    )
}

/// The plugin for a component.
pub open spec fn plugin_tokens(doc: Seq<Token>, vis: Seq<Token>, names: NamesView) -> Seq<Token> {
    quoted(
        PLUGIN@,
        Seq::empty()
            .push(("plugin_doc"@, doc))
            .push(("vis"@, vis))
            .push(("plugin"@, seq![Token::Ident(names.plugin)]))
            .push(("register_hooks"@, seq![Token::Ident(names.register_hooks)]))
            .push(("sync"@, seq![Token::Ident(names.sync)]))
            .push(("cleanup"@, seq![Token::Ident(names.cleanup)])),
    )
}

/// The function that registers the two hooks of a component.
pub open spec fn register_tokens(component: Seq<char>, names: NamesView) -> Seq<Token> {
    quoted(
        REGISTER_HOOKS@,
        Seq::empty()
            .push(("register_hooks"@, seq![Token::Ident(names.register_hooks)]))
            .push(("component"@, seq![Token::Ident(component)]))
            .push(("hook_sync"@, seq![Token::Ident(names.hook_sync)]))
            .push(("hook_cleanup"@, seq![Token::Ident(names.hook_cleanup)])),
    )
}

/// A hook with the given steps.
pub open spec fn hook_tokens(hook: Seq<char>, steps: Seq<Token>) -> Seq<Token> {
    quoted(
        HOOK@,
        Seq::empty().push(("hook"@, seq![Token::Ident(hook)])).push(("steps"@, steps)),
    )
}

/// The system that takes the given steps for each component that was added or changed.
pub open spec fn sync_system_tokens(
    system: Seq<char>,
    component: Seq<char>,
    value: Seq<Token>,
    steps: Seq<Token>,
) -> Seq<Token> {
    quoted(
        SYNC_SYSTEM@,
        Seq::empty()
            .push(("system"@, seq![Token::Ident(system)]))
            .push(("component"@, seq![Token::Ident(component)]))
            .push(("value"@, value))
            .push(("steps"@, steps)),
    )
}

/// The system that takes the given steps for each entity that lost the component.
pub open spec fn cleanup_system_tokens(
    system: Seq<char>,
    component: Seq<char>,
    steps: Seq<Token>,
) -> Seq<Token> {
    quoted(
        CLEANUP_SYSTEM@,
        Seq::empty()
            .push(("system"@, seq![Token::Ident(system)]))
            .push(("component"@, seq![Token::Ident(component)]))
            .push(("steps"@, steps)),
    )
}

impl Names {
    /// The plugin for a component.
    pub(crate) fn plugin_stream(&self, doc: &TokenStream, vis: &TokenStream) -> (stream:
        TokenStream)
        ensures
            stream_tokens(stream) == plugin_tokens(stream_tokens(*doc), stream_tokens(*vis), self@),
    {
        quote(
            PLUGIN,
            &Holes::new().with("plugin_doc", doc).with("vis", vis).with(
                "plugin",
                &ident_stream(&self.plugin),
            ).with("register_hooks", &ident_stream(&self.register_hooks)).with(
                "sync",
                &ident_stream(&self.sync),
            ).with("cleanup", &ident_stream(&self.cleanup)),
        )
    }

    /// The function that registers the two hooks of a component.
    pub(crate) fn register_stream(&self, component: &Ident) -> (stream: TokenStream)
        ensures
            stream_tokens(stream) == register_tokens(ident_text(*component), self@),
    {
        quote(
            REGISTER_HOOKS,
            &Holes::new().with("register_hooks", &ident_stream(&self.register_hooks)).with(
                "component",
                &ident_stream(component),
            ).with("hook_sync", &ident_stream(&self.hook_sync)).with(
                "hook_cleanup",
                &ident_stream(&self.hook_cleanup),
            ),
        )
    }
}

/// A hook with the given steps.
pub(crate) fn hook_stream(hook: &Ident, steps: &TokenStream) -> (stream: TokenStream)
    ensures
        stream_tokens(stream) == hook_tokens(ident_text(*hook), stream_tokens(*steps)),
{
    quote(HOOK, &Holes::new().with("hook", &ident_stream(hook)).with("steps", steps))
}

/// The system that takes the given steps for each component that was added or changed.
pub(crate) fn sync_system_stream(
    system: &Ident,
    component: &Ident,
    value: &TokenStream,
    steps: &TokenStream,
) -> (stream: TokenStream)
    ensures
        stream_tokens(stream) == sync_system_tokens(
            ident_text(*system),
            ident_text(*component),
            stream_tokens(*value),
            stream_tokens(*steps),
        ),
{
    quote(
        SYNC_SYSTEM,
        &Holes::new().with("system", &ident_stream(system)).with(
            "component",
            &ident_stream(component),
        ).with("value", value).with("steps", steps),
    )
}

/// The system that takes the given steps for each entity that lost the component.
pub(crate) fn cleanup_system_stream(
    system: &Ident,
    component: &Ident,
    steps: &TokenStream,
) -> (stream: TokenStream)
    ensures
        stream_tokens(stream) == cleanup_system_tokens(
            ident_text(*system),
            ident_text(*component),
            stream_tokens(*steps),
        ),
{
    quote(
        CLEANUP_SYSTEM,
        &Holes::new().with("system", &ident_stream(system)).with(
            "component",
            &ident_stream(component),
        ).with("steps", steps),
    )
}

impl Handle {
    /// The name of the variable.
    pub(crate) fn stream(self) -> (stream: TokenStream)
        ensures
            stream_tokens(stream) == handle_tokens(self),
    {
        match self {
            Handle::EntityCommands => quote("entity_commands", &Holes::new()),
            Handle::Ec => quote("ec", &Holes::new()),
        }
    }

    /// Addresses the entity that a hook runs for.
    pub(crate) fn addressed(self) -> (stream: TokenStream)
        ensures
            stream_tokens(stream) == address_context(self),
    {
        quote(ADDRESS_CONTEXT, &Holes::new().with("on", &self.stream()))
    }

    /// The call that inserts the markers of the active variants and removes the others.
    pub(crate) fn syncing(self, enum_type: &TokenStream, active: &TokenStream) -> (stream:
        TokenStream)
        ensures
            stream_tokens(stream) == sync_markers_call(
                stream_tokens(*enum_type),
                stream_tokens(*active),
                self,
            ),
    {
        quote(
            SYNC_MARKERS,
            &Holes::new().with("enum_type", enum_type).with("active", active).with(
                "on",
                &self.stream(),
            ),
        )
    }

    /// The call that removes every marker of an enum.
    pub(crate) fn removing(self, enum_type: &TokenStream) -> (stream: TokenStream)
        ensures
            stream_tokens(stream) == remove_markers_call(stream_tokens(*enum_type), self),
    {
        quote(REMOVE_MARKERS, &Holes::new().with("enum_type", enum_type).with("on", &self.stream()))
    }
}

} // verus!
