use vstd::prelude::*;

use crate::commands::{
    apply_marker_command, apply_marker_commands, copy_entities, lemma_apply_concat, lemma_removals,
    lemma_removals_except, remove_all, remove_all_except, removals, removals_except,
    MarkerCommand,
};
use crate::input::{KeyCode, KeyboardState};

verus! {

/// What a pointer event on an entity asks of the selection: the selection-marker
/// commands to queue, and whether the event was told to keep propagating.
pub struct PointerClickOutcome {
    pub commands: Vec<MarkerCommand>,
    pub propagate: bool,
}

/// The selection-marker commands of a pointer event on `target`, where `selected` lists the
/// entities that carry the selection marker when the event is handled.
/// Control without shift selects only the target; shift toggles the target; cameras are ignored.
pub open spec fn pointer_click_commands(
    selected: Seq<u64>,
    target: u64,
    target_is_camera: bool,
    shift: bool,
    ctrl: bool,
) -> Seq<MarkerCommand> {
    if target_is_camera {
        Seq::empty()
    } else if !shift && ctrl {
        removals_except(selected, target).push(MarkerCommand::Insert(target))
    } else if shift {
        if selected.contains(target) {
            seq![MarkerCommand::Remove(target)]
        } else {
            seq![MarkerCommand::Insert(target)]
        }
    } else {
        Seq::empty()
    }
}

/// Decides what a pointer event on `target` does to the selection.
/// `selected` lists the selected entities; `target_is_camera` says whether the target is a
/// camera (editor or play-mode), which the selection ignores.
pub fn on_pointer_click(
    selected: &Vec<u64>,
    target: u64,
    target_is_camera: bool,
    keyboard: &KeyboardState,
) -> (out: PointerClickOutcome)
    ensures
        out.commands@ == pointer_click_commands(
            selected@,
            target,
            target_is_camera,
            keyboard.pressed@.contains(KeyCode::ShiftLeft),
            keyboard.pressed@.contains(KeyCode::ControlLeft),
        ),
        out.propagate == !target_is_camera,
{
    if target_is_camera {
        return PointerClickOutcome { commands: Vec::new(), propagate: false };
    }
    let is_shifting = keyboard.pressed(KeyCode::ShiftLeft);
    let is_ctrling = keyboard.pressed(KeyCode::ControlLeft);
    let mut commands: Vec<MarkerCommand> = Vec::new();
    if !is_shifting && is_ctrling {
        commands = remove_all_except(selected, target);
        commands.push(MarkerCommand::Insert(target));
    } else if is_shifting {
        if crate::selection::entity_listed(selected, target) {
            commands.push(MarkerCommand::Remove(target));
        } else {
            commands.push(MarkerCommand::Insert(target));
        }
    }
    proof {
        if is_shifting {
            assert(commands@ =~= pointer_click_commands(selected@, target, false, true, is_ctrling));
        }
    }
    PointerClickOutcome { commands, propagate: true }
}

/// Whether `entity` is listed.
pub fn entity_listed(entities: &Vec<u64>, entity: u64) -> (found: bool)
    ensures
        found == entities@.contains(entity),
{
    let mut i: usize = 0;
    while i < entities.len()
        invariant
            i <= entities.len(),
            forall|j: int| 0 <= j < i ==> entities@[j] != entity,
        decreases entities.len() - i,
    {
        if entities[i] == entity {
            assert(entities@[i as int] == entity);
            return true;
        }
        i = i + 1;
    }
    false
}

/// What a select event on an entity asks for: whether its propagation is stopped, the
/// selection-marker commands to queue, and the entity, if any, to send the event to next.
pub struct SelectOutcome {
    pub propagation_stopped: bool,
    pub commands: Vec<MarkerCommand>,
    pub retrigger: Option<u64>,
}

/// The selection-marker commands of a select event on `target`.
/// A prefab is selected; without left shift every entity that was selected loses its
/// marker, in list order, after the target got it.
pub open spec fn select_commands(
    camera_enabled: bool,
    target: u64,
    target_is_prefab: bool,
    selected: Seq<u64>,
    shift: bool,
) -> Seq<MarkerCommand> {
    if camera_enabled && target_is_prefab {
        if shift {
            seq![MarkerCommand::Insert(target)]
        } else {
            seq![MarkerCommand::Insert(target)] + removals(selected)
        }
    } else {
        Seq::empty()
    }
}

/// Decides what a select event on `target` does.
/// While the editor camera is disabled the event is stopped. A prefab target is selected;
/// any other target hands the event on to its parent, if it has one.
pub fn select_listener(
    camera_enabled: bool,
    target: u64,
    target_is_prefab: bool,
    target_parent: Option<u64>,
    selected: &Vec<u64>,
    keyboard: &KeyboardState,
) -> (out: SelectOutcome)
    ensures
        out.propagation_stopped == !camera_enabled,
        out.commands@ == select_commands(
            camera_enabled,
            target,
            target_is_prefab,
            selected@,
            keyboard.pressed@.contains(KeyCode::ShiftLeft),
        ),
        out.retrigger == (if camera_enabled && !target_is_prefab {
            target_parent
        } else {
            None
        }),
{
    if !camera_enabled {
        return SelectOutcome { propagation_stopped: true, commands: Vec::new(), retrigger: None };
    }
    if target_is_prefab {
        let mut commands: Vec<MarkerCommand> = Vec::new();
        commands.push(MarkerCommand::Insert(target));
        if !keyboard.pressed(KeyCode::ShiftLeft) {
            let mut removed = remove_all(selected);
            commands.append(&mut removed);
        }
        SelectOutcome { propagation_stopped: false, commands, retrigger: None }
    } else {
        SelectOutcome { propagation_stopped: false, commands: Vec::new(), retrigger: target_parent }
    }
}

/// Whether the keyboard holds the deletion chord: control and shift (either side) held,
/// and backspace or delete pressed in this frame.
pub open spec fn delete_chord(pressed: Seq<KeyCode>, just_pressed: Seq<KeyCode>) -> bool {
    &&& (pressed.contains(KeyCode::ControlLeft) || pressed.contains(KeyCode::ControlRight))
    &&& (pressed.contains(KeyCode::ShiftLeft) || pressed.contains(KeyCode::ShiftRight))
    &&& (just_pressed.contains(KeyCode::Backspace) || just_pressed.contains(KeyCode::Delete))
}

/// The deletion chord needs a control key held, a shift key held, and backspace or delete
/// pressed in this frame; with all three it is on, whatever else is pressed.
pub proof fn law_delete_chord_needs_each_key(pressed: Seq<KeyCode>, just_pressed: Seq<KeyCode>)
    ensures
        !pressed.contains(KeyCode::ControlLeft) && !pressed.contains(KeyCode::ControlRight)
            ==> !delete_chord(pressed, just_pressed),
        !pressed.contains(KeyCode::ShiftLeft) && !pressed.contains(KeyCode::ShiftRight)
            ==> !delete_chord(pressed, just_pressed),
        !just_pressed.contains(KeyCode::Backspace) && !just_pressed.contains(KeyCode::Delete)
            ==> !delete_chord(pressed, just_pressed),
        (pressed.contains(KeyCode::ControlLeft) || pressed.contains(KeyCode::ControlRight)) && (
        pressed.contains(KeyCode::ShiftLeft) || pressed.contains(KeyCode::ShiftRight)) && (
        just_pressed.contains(KeyCode::Backspace) || just_pressed.contains(KeyCode::Delete))
            ==> delete_chord(pressed, just_pressed),
{
}

/// The entities to despawn: every selected entity, in list order, when the deletion chord
/// is pressed, and none otherwise.
pub fn delete_selected(selected: &Vec<u64>, keyboard: &KeyboardState) -> (despawn: Vec<u64>)
    ensures
        despawn@ == (if delete_chord(keyboard.pressed@, keyboard.just_pressed@) {
            selected@
        } else {
            Seq::empty()
        }),
        !keyboard.pressed@.contains(KeyCode::ControlLeft) && !keyboard.pressed@.contains(
            KeyCode::ControlRight,
        ) ==> despawn@.len() == 0,
        !keyboard.pressed@.contains(KeyCode::ShiftLeft) && !keyboard.pressed@.contains(
            KeyCode::ShiftRight,
        ) ==> despawn@.len() == 0,
        !keyboard.just_pressed@.contains(KeyCode::Backspace) && !keyboard.just_pressed@.contains(
            KeyCode::Delete,
        ) ==> despawn@.len() == 0,
{
    proof {
        law_delete_chord_needs_each_key(keyboard.pressed@, keyboard.just_pressed@);
    }
    let shift = keyboard.any_pressed(KeyCode::ShiftLeft, KeyCode::ShiftRight);
    let ctrl = keyboard.any_pressed(KeyCode::ControlLeft, KeyCode::ControlRight);
    let delete = keyboard.any_just_pressed(KeyCode::Backspace, KeyCode::Delete);
    if ctrl && shift && delete {
        copy_entities(selected)
    } else {
        Vec::new()
    }
}


/// Applying a single command is applying that command.
proof fn lemma_apply_single(marked: Set<u64>, cmd: MarkerCommand)
    ensures
        apply_marker_commands(marked, seq![cmd]) == apply_marker_command(marked, cmd),
{
    let one = seq![cmd];
    assert(one.drop_last() =~= Seq::<MarkerCommand>::empty());
    assert(one.last() == cmd);
    assert(apply_marker_commands(marked, one.drop_last()) == marked);
}

/// A control-click (without shift) on an entity that is not a camera leaves exactly that
/// entity selected.
pub proof fn law_ctrl_click_selects_only_target(selected: Seq<u64>, target: u64)
    ensures
        apply_marker_commands(
            selected.to_set(),
            pointer_click_commands(selected, target, false, false, true),
        ) == set![target],
{
    let rm = removals_except(selected, target);
    lemma_removals_except(selected.to_set(), selected, target);
    assert(rm.push(MarkerCommand::Insert(target)).drop_last() =~= rm);
    assert(apply_marker_commands(selected.to_set(), rm.push(MarkerCommand::Insert(target)))
        =~= set![target]);
}

/// A shift-click on an entity that is not a camera toggles whether it is selected and
/// leaves every other entity as it was.
pub proof fn law_shift_click_toggles(selected: Seq<u64>, target: u64, ctrl: bool)
    ensures
        apply_marker_commands(
            selected.to_set(),
            pointer_click_commands(selected, target, false, true, ctrl),
        ) == (if selected.contains(target) {
            selected.to_set().remove(target)
        } else {
            selected.to_set().insert(target)
        }),
{
    if selected.contains(target) {
        lemma_apply_single(selected.to_set(), MarkerCommand::Remove(target));
    } else {
        lemma_apply_single(selected.to_set(), MarkerCommand::Insert(target));
    }
}

/// Two shift-clicks on the same entity restore the selection, whatever order the
/// selected entities are listed in.
pub proof fn law_shift_click_twice_restores(
    first: Seq<u64>,
    second: Seq<u64>,
    target: u64,
    ctrl_first: bool,
    ctrl_second: bool,
)
    requires
        second.to_set() == apply_marker_commands(
            first.to_set(),
            pointer_click_commands(first, target, false, true, ctrl_first),
        ),
    ensures
        apply_marker_commands(
            second.to_set(),
            pointer_click_commands(second, target, false, true, ctrl_second),
        ) == first.to_set(),
{
    law_shift_click_toggles(first, target, ctrl_first);
    law_shift_click_toggles(second, target, ctrl_second);
    assert(second.to_set().contains(target) == second.contains(target));
    if first.contains(target) {
        assert(!second.contains(target));
        assert(second.to_set().insert(target) =~= first.to_set());
    } else {
        assert(second.contains(target));
        assert(second.to_set().remove(target) =~= first.to_set());
    }
}

/// A pointer event on a camera, or one with neither shift nor control held, leaves the
/// selection unchanged.
pub proof fn law_plain_or_camera_click_keeps_selection(
    selected: Seq<u64>,
    target: u64,
    target_is_camera: bool,
    shift: bool,
    ctrl: bool,
)
    requires
        target_is_camera || (!shift && !ctrl),
    ensures
        apply_marker_commands(
            selected.to_set(),
            pointer_click_commands(selected, target, target_is_camera, shift, ctrl),
        ) == selected.to_set(),
{
}

/// Selecting a prefab with left shift held adds it to the selection.
pub proof fn law_shift_select_adds_prefab(selected: Seq<u64>, target: u64)
    ensures
        apply_marker_commands(selected.to_set(), select_commands(true, target, true, selected, true))
            == selected.to_set().insert(target),
{
    lemma_apply_single(selected.to_set(), MarkerCommand::Insert(target));
}

/// Selecting a prefab without shift clears the previous selection; the prefab ends up as
/// the only selected entity when it was not selected before, and unselected when it was
/// (its own marker is removed again with the others).
pub proof fn law_select_replaces_selection(selected: Seq<u64>, target: u64)
    ensures
        apply_marker_commands(selected.to_set(), select_commands(true, target, true, selected, false))
            == (if selected.contains(target) {
            Set::<u64>::empty()
        } else {
            set![target]
        }),
{
    let m = selected.to_set();
    lemma_apply_concat(m, seq![MarkerCommand::Insert(target)], removals(selected));
    lemma_apply_single(m, MarkerCommand::Insert(target));
    lemma_removals(m.insert(target), selected);
    if selected.contains(target) {
        assert(m.insert(target).filter(|x: u64| !selected.contains(x)) =~= Set::<u64>::empty());
    } else {
        assert(m.insert(target).filter(|x: u64| !selected.contains(x)) =~= set![target]);
    }
}

/// While the editor camera is disabled, or for a target that is not a prefab, a select
/// event leaves the selection unchanged.
pub proof fn law_select_elsewhere_keeps_selection(
    camera_enabled: bool,
    target: u64,
    target_is_prefab: bool,
    selected: Seq<u64>,
    shift: bool,
)
    requires
        !camera_enabled || !target_is_prefab,
    ensures
        apply_marker_commands(
            selected.to_set(),
            select_commands(camera_enabled, target, target_is_prefab, selected, shift),
        ) == selected.to_set(),
{
}

} // verus!
