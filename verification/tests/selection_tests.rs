use space_editor_views::commands::MarkerCommand;
use space_editor_views::input::{KeyCode, KeyboardState};
use space_editor_views::selection::{delete_selected, on_pointer_click, select_listener};
use std::collections::BTreeSet;

fn keys(pressed: &[KeyCode], just: &[KeyCode]) -> KeyboardState {
    KeyboardState { pressed: pressed.to_vec(), just_pressed: just.to_vec() }
}

fn apply(selected: &[u64], cmds: &[MarkerCommand]) -> BTreeSet<u64> {
    let mut set: BTreeSet<u64> = selected.iter().copied().collect();
    for c in cmds {
        match c {
            MarkerCommand::Insert(e) => {
                set.insert(*e);
            }
            MarkerCommand::Remove(e) => {
                set.remove(e);
            }
        }
    }
    set
}

#[test]
fn ctrl_click_selects_only_target() {
    let selected = vec![3, 7, 9];
    let out = on_pointer_click(&selected, 7, false, &keys(&[KeyCode::ControlLeft], &[]));
    assert!(out.propagate);
    assert_eq!(
        out.commands,
        vec![MarkerCommand::Remove(3), MarkerCommand::Remove(9), MarkerCommand::Insert(7)]
    );
    assert_eq!(apply(&selected, &out.commands), [7].into_iter().collect());
}

#[test]
fn shift_click_toggles_and_twice_restores() {
    let selected = vec![1, 2];
    let kb = keys(&[KeyCode::ShiftLeft], &[]);
    let first = on_pointer_click(&selected, 5, false, &kb);
    assert_eq!(first.commands, vec![MarkerCommand::Insert(5)]);
    let after: Vec<u64> = apply(&selected, &first.commands).into_iter().collect();
    assert_eq!(after, vec![1, 2, 5]);
    let second = on_pointer_click(&after, 5, false, &kb);
    assert_eq!(second.commands, vec![MarkerCommand::Remove(5)]);
    assert_eq!(apply(&after, &second.commands), [1, 2].into_iter().collect());
}

#[test]
fn shift_with_ctrl_still_toggles() {
    let kb = keys(&[KeyCode::ShiftLeft, KeyCode::ControlLeft], &[]);
    let out = on_pointer_click(&vec![4], 4, false, &kb);
    assert_eq!(out.commands, vec![MarkerCommand::Remove(4)]);
}

#[test]
fn right_modifiers_do_not_count_for_clicks() {
    let kb = keys(&[KeyCode::ShiftRight, KeyCode::ControlRight], &[]);
    let out = on_pointer_click(&vec![4], 8, false, &kb);
    assert!(out.commands.is_empty());
    assert!(out.propagate);
}

#[test]
fn camera_click_is_ignored() {
    let out = on_pointer_click(&vec![4], 8, true, &keys(&[KeyCode::ControlLeft], &[]));
    assert!(out.commands.is_empty());
    assert!(!out.propagate);
}

#[test]
fn select_event_stopped_while_camera_disabled() {
    let out = select_listener(false, 3, true, Some(1), &vec![2], &keys(&[], &[]));
    assert!(out.propagation_stopped);
    assert!(out.commands.is_empty());
    assert_eq!(out.retrigger, None);
}

#[test]
fn select_prefab_replaces_selection() {
    let out = select_listener(true, 3, true, None, &vec![2, 5], &keys(&[], &[]));
    assert!(!out.propagation_stopped);
    assert_eq!(
        out.commands,
        vec![MarkerCommand::Insert(3), MarkerCommand::Remove(2), MarkerCommand::Remove(5)]
    );
    assert_eq!(apply(&[2, 5], &out.commands), [3].into_iter().collect());
}

#[test]
fn select_already_selected_prefab_clears_it_too() {
    let out = select_listener(true, 2, true, None, &vec![2, 5], &keys(&[], &[]));
    assert_eq!(apply(&[2, 5], &out.commands), BTreeSet::new());
}

#[test]
fn shift_select_adds_prefab() {
    let out = select_listener(true, 3, true, None, &vec![2], &keys(&[KeyCode::ShiftLeft], &[]));
    assert_eq!(out.commands, vec![MarkerCommand::Insert(3)]);
    assert_eq!(apply(&[2], &out.commands), [2, 3].into_iter().collect());
}

#[test]
fn select_child_goes_to_parent() {
    let out = select_listener(true, 10, false, Some(4), &vec![2], &keys(&[], &[]));
    assert!(out.commands.is_empty());
    assert_eq!(out.retrigger, Some(4));
    let root = select_listener(true, 10, false, None, &vec![2], &keys(&[], &[]));
    assert_eq!(root.retrigger, None);
}

#[test]
fn delete_needs_full_chord() {
    let selected = vec![6, 2];
    let chord = keys(&[KeyCode::ControlRight, KeyCode::ShiftLeft], &[KeyCode::Delete]);
    assert_eq!(delete_selected(&selected, &chord), vec![6, 2]);
    let chord2 = keys(&[KeyCode::ControlLeft, KeyCode::ShiftRight], &[KeyCode::Backspace]);
    assert_eq!(delete_selected(&selected, &chord2), vec![6, 2]);
    let no_shift = keys(&[KeyCode::ControlLeft], &[KeyCode::Delete]);
    assert!(delete_selected(&selected, &no_shift).is_empty());
    let held_not_pressed = keys(&[KeyCode::ControlLeft, KeyCode::ShiftLeft, KeyCode::Delete], &[]);
    assert!(delete_selected(&selected, &held_not_pressed).is_empty());
}
