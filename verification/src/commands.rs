//! What the generated functions ask of the world: a model of the commands that their steps issue
//! and of what these do to an entity.

use vstd::prelude::*;

use crate::collection::{collection_steps, CollectionStep};
use crate::enum_filter::{hold_steps, insert_steps, routine_steps, Step};
use crate::enum_plan::{EnumPlanView, VariantPlanView};
use crate::payload::{carriers, distinct_types, lists};
use crate::routine::Routine;
use crate::syntax::TypeView;

verus! {

/// A component type.
pub enum Component {
    /// The enum or the struct that the code is generated for. A marker is declared beside it and a
    /// payload is held in it, so it is neither.
    Owner,
    /// Any other type, by how it is written.
    Written(Seq<char>),
}

/// A command on an entity.
pub enum Command {
    /// Inserts a component of the type, and keeps one that is there.
    InsertIfNew(Component),
    /// Inserts a component of the type, in place of one that is there.
    Insert(Component),
    /// Removes the components of the types.
    Remove(Seq<Component>),
    /// Removes the markers of an enum, by a call whose body is not generated.
    RemoveMarkers,
}

/// Whether a command inserts or removes a component of the type.
pub open spec fn touches(command: Command, component: Component) -> bool {
    match command {
        Command::InsertIfNew(inserted) => inserted == component,
        Command::Insert(inserted) => inserted == component,
        Command::Remove(removed) => removed.contains(component),
        Command::RemoveMarkers => false,
    }
}

impl EnumPlanView {
    /// The markers of the variants, in order.
    pub open spec fn markers(self) -> Seq<Seq<char>> {
        self.variants.map_values(|variant: VariantPlanView| variant.marker)
    }
}

/// What `sync_markers` issues: for each marker in turn an insertion where its index is active, else
/// a removal.
pub open spec fn marker_commands(markers: Seq<Seq<char>>, active: spec_fn(int) -> bool) -> Seq<
    Command,
> {
    Seq::new(
        markers.len(),
        |i: int|
            if active(i) {
                Command::InsertIfNew(Component::Written(markers[i]))
            } else {
                Command::Remove(seq![Component::Written(markers[i])])
            },
    )
}

/// The removal of each of the types that the variant at `active` does not carry, in order.
pub open spec fn stale_commands(
    payloads: Seq<Option<TypeView>>,
    types: Seq<TypeView>,
    active: int,
) -> Seq<Command>
    decreases types.len(),
{
    if types.len() == 0 {
        Seq::empty()
    } else {
        let before = stale_commands(payloads, types.drop_last(), active);
        if carriers(payloads, types.last().text).contains(active as usize) {
            before
        } else {
            before.push(Command::Remove(seq![Component::Written(types.last().text)]))
        }
    }
}

/// The insertion of a payload, where there is one.
pub open spec fn payload_commands(payload: Option<TypeView>) -> Seq<Command> {
    match payload {
        Some(ty) => seq![Command::Insert(Component::Written(ty.text))],
        None => Seq::empty(),
    }
}

/// The types, each by how it is written.
pub open spec fn written(types: Seq<TypeView>) -> Seq<Component> {
    types.map_values(|ty: TypeView| Component::Written(ty.text))
}

/// The one index of the active variant, where there is one.
pub open spec fn is_held(held: Option<int>) -> spec_fn(int) -> bool {
    |i: int| held == Some(i)
}

/// What a step issues where the entity holds the variant at an index, if it holds any.
pub open spec fn step_commands(plan: EnumPlanView, step: Step, held: Option<int>) -> Seq<Command> {
    match step {
        Step::SyncMarkers(_) => marker_commands(plan.markers(), is_held(held)),
        Step::RemoveStale(_) => stale_commands(
            plan.payloads(),
            distinct_types(plan.payloads()),
            held->0,
        ),
        Step::InsertHeld(i) => if held == Some(i as int) {
            payload_commands(plan.payloads()[i as int])
        } else {
            Seq::empty()
        },
        Step::InsertMatched => payload_commands(plan.payloads()[held->0]),
        Step::RemoveMarkers(_) => seq![Command::RemoveMarkers],
        Step::RemoveAll => if distinct_types(plan.payloads()).len() == 0 {
            Seq::empty()
        } else {
            seq![Command::Remove(written(distinct_types(plan.payloads())))]
        },
        _ => Seq::empty(),
    }
}

/// What steps issue, in order. A step that reads the value of an entity that holds none is the last.
pub open spec fn steps_commands(plan: EnumPlanView, steps: Seq<Step>, held: Option<int>) -> Seq<
    Command,
>
    decreases steps.len(),
{
    if steps.len() == 0 || (steps[0] is ReadHeld && held is None) {
        Seq::empty()
    } else {
        step_commands(plan, steps[0], held) + steps_commands(plan, steps.skip(1), held)
    }
}

/// What a function that is generated for an enum issues.
pub open spec fn routine_commands(plan: EnumPlanView, routine: Routine, held: Option<int>) -> Seq<
    Command,
> {
    steps_commands(plan, routine_steps(routine, plan.variants.len()), held)
}

/// The indexes that occur in a list.
pub open spec fn occurs_in(indexes: Seq<usize>) -> spec_fn(int) -> bool {
    |i: int| indexes.contains(i as usize)
}

/// What a step issues where the entity holds values at the given indexes, if it holds the struct.
/// The markers are those of the enum that the values are of.
pub open spec fn collection_step_commands(
    markers: Seq<Seq<char>>,
    step: CollectionStep,
    held: Option<Seq<usize>>,
) -> Seq<Command> {
    match step {
        CollectionStep::SyncMarkers(_) => marker_commands(markers, occurs_in(held->0)),
        CollectionStep::RemoveMarkers(_) => seq![Command::RemoveMarkers],
        _ => Seq::empty(),
    }
}

/// What steps issue, in order. A step that reads a struct that the entity does not hold is the last.
pub open spec fn collection_steps_commands(
    markers: Seq<Seq<char>>,
    steps: Seq<CollectionStep>,
    held: Option<Seq<usize>>,
) -> Seq<Command>
    decreases steps.len(),
{
    if steps.len() == 0 || (steps[0] is ReadHeld && held is None) {
        Seq::empty()
    } else {
        collection_step_commands(markers, steps[0], held) + collection_steps_commands(
            markers,
            steps.skip(1),
            held,
        )
    }
}

/// What a function that is generated for a struct issues.
pub open spec fn collection_commands(
    markers: Seq<Seq<char>>,
    routine: Routine,
    held: Option<Seq<usize>>,
) -> Seq<Command> {
    collection_steps_commands(markers, collection_steps(routine), held)
}

/// The component types of an entity once the commands have run, from those that it had before.
/// `remove_markers` is what the call that removes the markers does to them.
pub open spec fn applied(
    commands: Seq<Command>,
    present: Set<Component>,
    remove_markers: spec_fn(Set<Component>) -> Set<Component>,
) -> Set<Component>
    decreases commands.len(),
{
    if commands.len() == 0 {
        present
    } else {
        let before = applied(commands.drop_last(), present, remove_markers);
        match commands.last() {
            Command::InsertIfNew(inserted) => before.insert(inserted),
            Command::Insert(inserted) => before.insert(inserted),
            Command::Remove(removed) => before.difference(removed.to_set()),
            Command::RemoveMarkers => remove_markers(before),
        }
    }
}

/// Steps in a row issue what the first ones issue and then what the others do.
pub proof fn lemma_steps_add(
    plan: EnumPlanView,
    first: Seq<Step>,
    second: Seq<Step>,
    held: Option<int>,
)
    requires
        held is Some,
    ensures
        steps_commands(plan, first + second, held) == steps_commands(plan, first, held)
            + steps_commands(plan, second, held),
    decreases first.len(),
{
    if first.len() == 0 {
        assert(first + second =~= second);
        assert(steps_commands(plan, first, held) + steps_commands(plan, second, held)
            =~= steps_commands(plan, second, held));
    } else {
        assert((first + second).skip(1) =~= first.skip(1) + second);
        lemma_steps_add(plan, first.skip(1), second, held);
        assert(steps_commands(plan, first + second, held) =~= steps_commands(plan, first, held)
            + steps_commands(plan, second, held));
    }
}

/// A step more issues its commands after the others.
pub proof fn lemma_one_more_step(plan: EnumPlanView, steps: Seq<Step>, step: Step, held: Option<int>)
    requires
        held is Some,
    ensures
        steps_commands(plan, steps.push(step), held) == steps_commands(plan, steps, held)
            + step_commands(plan, step, held),
{
    let last = seq![step];
    assert(steps.push(step) =~= steps + last);
    lemma_steps_add(plan, steps, last, held);
    assert(last.skip(1) =~= Seq::empty());
    assert(steps_commands(plan, last.skip(1), held) =~= Seq::empty());
    assert(steps_commands(plan, last, held) =~= step_commands(plan, step, held));
}

/// To hold payloads is to issue nothing.
pub proof fn lemma_hold_steps(plan: EnumPlanView, count: nat, held: Option<int>)
    requires
        held is Some,
    ensures
        steps_commands(plan, hold_steps(count), held) == Seq::<Command>::empty(),
    decreases count,
{
    if count > 0 {
        let before = (count - 1) as nat;
        lemma_hold_steps(plan, before, held);
        let step = Step::HoldPayload((count - 1) as usize);
        assert(hold_steps(count) =~= hold_steps(before).push(step));
        lemma_one_more_step(plan, hold_steps(before), step, held);
    }
}

/// Of the held payloads only that of the active variant is inserted.
pub proof fn lemma_insert_steps(plan: EnumPlanView, count: nat, active: int)
    requires
        count <= usize::MAX,
        0 <= active,
    ensures
        steps_commands(plan, insert_steps(count), Some(active)) == if active < count {
            payload_commands(plan.payloads()[active])
        } else {
            Seq::empty()
        },
    decreases count,
{
    if count > 0 {
        let before = (count - 1) as nat;
        lemma_insert_steps(plan, before, active);
        let step = Step::InsertHeld((count - 1) as usize);
        assert(insert_steps(count) =~= insert_steps(before).push(step));
        lemma_one_more_step(plan, insert_steps(before), step, Some(active));
        let issued = steps_commands(plan, insert_steps(before), Some(active));
        assert(issued + Seq::<Command>::empty() =~= issued);
        assert(Seq::<Command>::empty() + payload_commands(plan.payloads()[active])
            =~= payload_commands(plan.payloads()[active]));
    }
}

/// What the last of the commands that touch a type leaves: the type present or not. `None` where no
/// command touches it.
pub open spec fn last_word(commands: Seq<Command>, component: Component) -> Option<bool>
    decreases commands.len(),
{
    if commands.len() == 0 {
        None
    } else if touches(commands.last(), component) {
        Some(!(commands.last() is Remove))
    } else {
        last_word(commands.drop_last(), component)
    }
}

/// The last command that touches a type decides whether it is present.
pub proof fn lemma_applied(
    commands: Seq<Command>,
    present: Set<Component>,
    remove_markers: spec_fn(Set<Component>) -> Set<Component>,
    component: Component,
)
    requires
        forall|k: int| 0 <= k < commands.len() ==> !((#[trigger] commands[k]) is RemoveMarkers),
    ensures
        applied(commands, present, remove_markers).contains(component) == match last_word(
            commands,
            component,
        ) {
            Some(left) => left,
            None => present.contains(component),
        },
    decreases commands.len(),
{
    if commands.len() > 0 {
        let shorter = commands.drop_last();
        assert forall|k: int| 0 <= k < shorter.len() implies !((
        #[trigger] shorter[k]) is RemoveMarkers) by {
            assert(shorter[k] == commands[k]);
        }
        lemma_applied(shorter, present, remove_markers, component);
        assert(!(commands[commands.len() - 1] is RemoveMarkers));
        if let Command::Remove(removed) = commands.last() {
            assert(removed.to_set().contains(component) == removed.contains(component));
        }
    }
}

/// No command has a word on a type that none touches.
pub proof fn lemma_untouched(commands: Seq<Command>, component: Component)
    requires
        forall|k: int| 0 <= k < commands.len() ==> !#[trigger] touches(commands[k], component),
    ensures
        last_word(commands, component) is None,
    decreases commands.len(),
{
    if commands.len() > 0 {
        let shorter = commands.drop_last();
        assert forall|k: int| 0 <= k < shorter.len() implies !#[trigger] touches(
            shorter[k],
            component,
        ) by {
            assert(shorter[k] == commands[k]);
        }
        lemma_untouched(shorter, component);
        assert(!touches(commands[commands.len() - 1], component));
    }
}

/// The later commands have the last word where they touch a type.
pub proof fn lemma_last_word_add(first: Seq<Command>, second: Seq<Command>, component: Component)
    ensures
        last_word(first + second, component) == match last_word(second, component) {
            Some(left) => Some(left),
            None => last_word(first, component),
        },
    decreases second.len(),
{
    if second.len() == 0 {
        assert(first + second =~= first);
    } else {
        assert((first + second).drop_last() =~= first + second.drop_last());
        assert((first + second).last() == second.last());
        lemma_last_word_add(first, second.drop_last(), component);
    }
}

/// Of a marker, its own command has the last word.
pub proof fn lemma_marker_word(markers: Seq<Seq<char>>, active: spec_fn(int) -> bool, i: int)
    requires
        markers.no_duplicates(),
        0 <= i < markers.len(),
    ensures
        last_word(marker_commands(markers, active), Component::Written(markers[i])) == Some(active(i)),
    decreases markers.len(),
{
    let shorter = markers.drop_last();
    let commands = marker_commands(markers, active);
    assert(commands.drop_last() =~= marker_commands(shorter, active));
    let last = markers[markers.len() - 1];
    if i < markers.len() - 1 {
        assert(shorter[i] == markers[i]);
        lemma_marker_word(shorter, active, i);
        assert(markers[i] != last);
        if let Command::Remove(removed) = commands.last() {
            assert(removed =~= seq![Component::Written(last)]);
        }
    } else if let Command::Remove(removed) = commands.last() {
        assert(removed[0] == Component::Written(markers[i]));
    }
}

/// The removals of stale types have the last word on the listed types that are not carried.
pub proof fn lemma_stale_word(
    payloads: Seq<Option<TypeView>>,
    types: Seq<TypeView>,
    active: int,
    text: Seq<char>,
)
    ensures
        last_word(stale_commands(payloads, types, active), Component::Written(text)) == if lists(types, text)
            && !carriers(payloads, text).contains(active as usize) {
            Some(false)
        } else {
            None
        },
    decreases types.len(),
{
    if types.len() > 0 {
        let shorter = types.drop_last();
        let last = types[types.len() - 1];
        let before = stale_commands(payloads, shorter, active);
        lemma_stale_word(payloads, shorter, active, text);
        if lists(shorter, text) {
            let i = choose|i: int| 0 <= i < shorter.len() && (#[trigger] shorter[i]).text == text;
            assert(types[i].text == text);
        }
        if lists(types, text) && last.text != text {
            let i = choose|i: int| 0 <= i < types.len() && (#[trigger] types[i]).text == text;
            assert(shorter[i].text == text);
        }
        let removed = seq![Component::Written(last.text)];
        assert(before.push(Command::Remove(removed)).drop_last() =~= before);
        assert(removed.contains(Component::Written(text)) == (last.text == text)) by {
            assert(removed[0] == Component::Written(last.text));
        }
    }
}

/// A removal of a stale type removes one listed type that the active variant does not carry.
pub proof fn lemma_stale_are_not_carried(
    payloads: Seq<Option<TypeView>>,
    types: Seq<TypeView>,
    active: int,
    k: int,
)
    requires
        0 <= k < stale_commands(payloads, types, active).len(),
    ensures
        exists|text: Seq<char>|
            stale_commands(payloads, types, active)[k] == Command::Remove(
                seq![Component::Written(text)],
            ) && lists(
                types,
                text,
            ) && !#[trigger] carriers(payloads, text).contains(active as usize),
    decreases types.len(),
{
    let shorter = types.drop_last();
    let before = stale_commands(payloads, shorter, active);
    if k < before.len() {
        lemma_stale_are_not_carried(payloads, shorter, active, k);
        let text = choose|text: Seq<char>|
            before[k] == Command::Remove(
                seq![Component::Written(text)],
            ) && lists(shorter, text) && !#[trigger] carriers(
                payloads,
                text,
            ).contains(active as usize);
        let i = choose|i: int| 0 <= i < shorter.len() && (#[trigger] shorter[i]).text == text;
        assert(types[i].text == text);
    } else {
        let text = types[types.len() - 1].text;
        assert(lists(types, text));
        assert(!carriers(payloads, text).contains(active as usize));
    }
}

/// Where no index is active, each marker is removed last.
pub proof fn lemma_inactive_marker_word(
    markers: Seq<Seq<char>>,
    active: spec_fn(int) -> bool,
    marker: Seq<char>,
)
    requires
        markers.contains(marker),
        forall|i: int| 0 <= i < markers.len() ==> !#[trigger] active(i),
    ensures
        last_word(marker_commands(markers, active), Component::Written(marker)) == Some(false),
    decreases markers.len(),
{
    let shorter = markers.drop_last();
    let commands = marker_commands(markers, active);
    assert(commands.drop_last() =~= marker_commands(shorter, active));
    let last = markers[markers.len() - 1];
    assert(!active(markers.len() - 1));
    assert(commands.last() == Command::Remove(seq![Component::Written(last)]));
    assert(seq![Component::Written(last)][0] == Component::Written(last));
    if last != marker {
        let i = choose|i: int| 0 <= i < markers.len() && markers[i] == marker;
        assert(shorter[i] == marker);
        lemma_inactive_marker_word(shorter, active, marker);
    }
}

/// A reading and an addressing step issue nothing, so that the third step decides.
pub proof fn lemma_third_step(
    markers: Seq<Seq<char>>,
    steps: Seq<CollectionStep>,
    held: Option<Seq<usize>>,
)
    requires
        steps.len() == 3,
        held is Some,
        steps[0] is ReadHeld || steps[0] is ReadQueried,
        steps[1] is AddressContext || steps[1] is AddressQueried,
        !(steps[2] is ReadHeld),
    ensures
        collection_steps_commands(markers, steps, held) == collection_step_commands(
            markers,
            steps[2],
            held,
        ),
{
    lemma_second_step(markers, steps.skip(1), held);
    assert(collection_steps_commands(markers, steps, held) =~= collection_steps_commands(
        markers,
        steps.skip(1),
        held,
    ));
}

/// An addressing step issues nothing, so that the second step decides.
pub proof fn lemma_second_step(
    markers: Seq<Seq<char>>,
    steps: Seq<CollectionStep>,
    held: Option<Seq<usize>>,
)
    requires
        steps.len() == 2,
        steps[0] is AddressContext || steps[0] is AddressQueried,
        !(steps[1] is ReadHeld),
    ensures
        collection_steps_commands(markers, steps, held) == collection_step_commands(
            markers,
            steps[1],
            held,
        ),
{
    let last = steps.skip(1);
    let none = collection_steps_commands(markers, last.skip(1), held);
    assert(none =~= Seq::empty());
    assert(last[0] == steps[1]);
    assert(collection_steps_commands(markers, last, held) =~= collection_step_commands(
        markers,
        steps[1],
        held,
    ));
    assert(collection_steps_commands(markers, steps, held) =~= collection_steps_commands(
        markers,
        last,
        held,
    ));
}

} // verus!
