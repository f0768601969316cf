use space_editor_views::commands::MarkerCommand;
use space_editor_views::gizmo::{
    disable_pan_orbit_on_gizmo, selected_trigger, selected_trigger_remove, GizmoHotkey,
    GizmoModeSet, GizmoTool, ModeChoice,
};
use transform_gizmo_bevy::{EnumSet, GizmoMode};

#[test]
fn mode_sets_match_the_gizmo_crate() {
    assert_eq!(ModeChoice::Translate.modes().bits, 0x7F0);
    assert_eq!(ModeChoice::Rotate.modes().bits, 0xF);
    assert_eq!(ModeChoice::Scale.modes().bits, 0x3F800);
    assert_eq!(ModeChoice::Universal.modes().bits, 0x7FFFF);
    assert_eq!(
        EnumSet::<GizmoMode>::from_u32(ModeChoice::Translate.modes().bits),
        GizmoMode::all_translate()
    );
    assert_eq!(
        EnumSet::<GizmoMode>::from_u32(ModeChoice::Universal.modes().bits),
        EnumSet::<GizmoMode>::all()
    );
}

#[test]
fn default_tool_translates() {
    let tool = GizmoTool::default();
    assert_eq!(tool.gizmo_mode.bits, 0x7F0);
    assert_eq!(tool.name(), "Gizmo");
}

#[test]
fn hints_in_order() {
    let hints: Vec<&str> = (0..4).map(|i| ModeChoice::at(i).hint()).collect();
    assert_eq!(hints, vec!["Translate", "Rotate", "Scale", "Universal"]);
}

#[test]
fn clicking_a_mode_selects_it() {
    let mut tool = GizmoTool::default();
    let mut options = GizmoModeSet { bits: 0x7F0 };
    let lit = tool.ui(&mut options, [false, false, true, false]);
    assert_eq!(lit, vec![true, false, false, false]);
    assert_eq!(options.bits, 0x3F800);
    assert_eq!(tool.gizmo_mode.bits, 0x3F800);
    let lit = tool.ui(&mut options, [false, false, false, false]);
    assert_eq!(lit, vec![false, false, true, false]);
}

#[test]
fn clicking_the_current_mode_changes_nothing() {
    let mut tool = GizmoTool { gizmo_mode: GizmoModeSet { bits: 0xF } };
    let mut options = GizmoModeSet { bits: 0x7F0 };
    tool.ui(&mut options, [true, false, false, false]);
    assert_eq!(options.bits, 0x7F0);
    assert_eq!(tool.gizmo_mode.bits, 0xF);
}

#[test]
fn later_button_sees_earlier_change() {
    let mut tool = GizmoTool::default();
    let mut options = GizmoModeSet { bits: 0x7F0 };
    let lit = tool.ui(&mut options, [false, true, false, true]);
    assert_eq!(lit, vec![true, false, false, false]);
    assert_eq!(options.bits, 0x7FFFF);
    assert_eq!(tool.gizmo_mode.bits, 0x7FFFF);
}

#[test]
fn hotkey_names() {
    assert_eq!(GizmoHotkey::Translate.name(), "Translate entity");
    assert_eq!(GizmoHotkey::Rotate.name(), "Rotate entity");
    assert_eq!(GizmoHotkey::Scale.name(), "Scale entity");
    assert_eq!(GizmoHotkey::Delete.name(), "Delete entity");
    assert_eq!(GizmoHotkey::Multiple.name(), "Change multiple entities");
    assert_eq!(GizmoHotkey::Clone.name(), "Clone entity");
}

#[test]
fn selecting_moves_the_gizmo() {
    assert_eq!(
        selected_trigger(&vec![4, 9], 9),
        vec![MarkerCommand::Remove(4), MarkerCommand::Remove(9), MarkerCommand::Insert(9)]
    );
    assert_eq!(selected_trigger(&vec![], 2), vec![MarkerCommand::Insert(2)]);
}

#[test]
fn gizmo_kept_while_something_is_selected() {
    assert_eq!(selected_trigger_remove(0, 5), vec![MarkerCommand::Remove(5)]);
    assert!(selected_trigger_remove(2, 5).is_empty());
}

#[test]
fn pan_orbit_disabled_only_while_dragging() {
    assert_eq!(disable_pan_orbit_on_gizmo(3, &vec![false, true]), Some(0));
    assert_eq!(disable_pan_orbit_on_gizmo(3, &vec![false, false]), None);
    assert_eq!(disable_pan_orbit_on_gizmo(0, &vec![true]), None);
    assert_eq!(disable_pan_orbit_on_gizmo(2, &vec![]), None);
}
