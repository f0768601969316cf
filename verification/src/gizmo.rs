use vstd::prelude::*;

use transform_gizmo_bevy::{EnumSet, GizmoMode};

use crate::commands::{
    apply_marker_commands, lemma_removals, remove_all, removals, MarkerCommand,
};

verus! {

/// A set of transform-gizmo operation modes, as its bits: the mode with discriminant `n`
/// in `GizmoMode` (`RotateView` = 0, ..., `Arcball` = 18) is bit `n`.
#[derive(Clone, Copy, Debug, PartialEq, Eq, Structural)]
pub struct GizmoModeSet {
    pub bits: u32,
}

/// The four rotation modes: bits 0 to 3.
pub open spec fn rotate_bits() -> u32 {
    0xF
}

/// The seven translation modes: bits 4 to 10.
pub open spec fn translate_bits() -> u32 {
    0x7F0
}

/// The seven scaling modes: bits 11 to 17.
pub open spec fn scale_bits() -> u32 {
    0x3F800
}

/// Every mode: bits 0 to 18.
pub open spec fn universal_bits() -> u32 {
    0x7FFFF
}

/// Calls `GizmoMode::all_translate` and reads the set with `EnumSet::as_u32`.
/// The crate's source builds the set of `TranslateX`, `TranslateY`, `TranslateZ`,
/// `TranslateXY`, `TranslateXZ`, `TranslateYZ` and `TranslateView` (discriminants 4 to 10),
/// and enumset documents that the variant with discriminant `n` is bit `n`.
#[verifier::external_body]
fn all_translate_modes() -> (modes: GizmoModeSet)
    ensures
        modes.bits == translate_bits(),
{
    GizmoModeSet { bits: GizmoMode::all_translate().as_u32() }
}

/// Calls `GizmoMode::all_rotate` and reads the set with `EnumSet::as_u32`.
/// The crate's source builds the set of `RotateX`, `RotateY`, `RotateZ` and `RotateView`
/// (discriminants 0 to 3).
#[verifier::external_body]
fn all_rotate_modes() -> (modes: GizmoModeSet)
    ensures
        modes.bits == rotate_bits(),
{
    GizmoModeSet { bits: GizmoMode::all_rotate().as_u32() }
}

/// Calls `GizmoMode::all_scale` and reads the set with `EnumSet::as_u32`.
/// The crate's source builds the set of `ScaleX`, `ScaleY`, `ScaleZ`, `ScaleXY`,
/// `ScaleXZ`, `ScaleYZ` and `ScaleUniform` (discriminants 11 to 17).
#[verifier::external_body]
fn all_scale_modes() -> (modes: GizmoModeSet)
    ensures
        modes.bits == scale_bits(),
{
    GizmoModeSet { bits: GizmoMode::all_scale().as_u32() }
}

/// Calls `EnumSet::<GizmoMode>::all` and reads the set with `EnumSet::as_u32`.
/// enumset documents `all` as the set of every variant; `GizmoMode` has the nineteen
/// variants with discriminants 0 to 18.
#[verifier::external_body]
fn all_modes() -> (modes: GizmoModeSet)
    ensures
        modes.bits == universal_bits(),
{
    GizmoModeSet { bits: EnumSet::<GizmoMode>::all().as_u32() }
}

/// The mode buttons of the gizmo tool, in the order they are drawn.
#[derive(Clone, Copy, Debug, PartialEq, Eq, Structural)]
pub enum ModeChoice {
    Translate,
    Rotate,
    Scale,
    Universal,
}

/// The button drawn at position `i` (0 to 3).
pub open spec fn choice_at(i: int) -> ModeChoice {
    if i == 0 {
        ModeChoice::Translate
    } else if i == 1 {
        ModeChoice::Rotate
    } else if i == 2 {
        ModeChoice::Scale
    } else {
        ModeChoice::Universal
    }
}

/// The modes that a button selects.
pub open spec fn choice_modes(choice: ModeChoice) -> GizmoModeSet {
    match choice {
        ModeChoice::Translate => GizmoModeSet { bits: translate_bits() },
        ModeChoice::Rotate => GizmoModeSet { bits: rotate_bits() },
        ModeChoice::Scale => GizmoModeSet { bits: scale_bits() },
        ModeChoice::Universal => GizmoModeSet { bits: universal_bits() },
    }
}

/// The hover text of a button.
pub open spec fn choice_hint(choice: ModeChoice) -> Seq<char> {
    match choice {
        ModeChoice::Translate => "Translate"@,
        ModeChoice::Rotate => "Rotate"@,
        ModeChoice::Scale => "Scale"@,
        ModeChoice::Universal => "Universal"@,
    }
}

impl ModeChoice {
    /// The button drawn at position `i`.
    pub fn at(i: usize) -> (choice: ModeChoice)
        requires
            i < 4,
        ensures
            choice == choice_at(i as int),
    {
        if i == 0 {
            ModeChoice::Translate
        } else if i == 1 {
            ModeChoice::Rotate
        } else if i == 2 {
            ModeChoice::Scale
        } else {
            ModeChoice::Universal
        }
    }

    /// The modes that this button selects.
    pub fn modes(&self) -> (modes: GizmoModeSet)
        ensures
            modes == choice_modes(*self),
    {
        match self {
            ModeChoice::Translate => all_translate_modes(),
            ModeChoice::Rotate => all_rotate_modes(),
            ModeChoice::Scale => all_scale_modes(),
            ModeChoice::Universal => all_modes(),
        }
    }

    /// Whether these are the options' current modes, which draws the button highlighted.
    pub fn is_current(&self, options: &GizmoModeSet) -> (current: bool)
        ensures
            current == (*options == choice_modes(*self)),
    {
        *options == self.modes()
    }

    /// The hover text of this button.
    pub fn hint(&self) -> (hint: &'static str)
        ensures
            hint@ == choice_hint(*self),
    {
        match self {
            ModeChoice::Translate => "Translate",
            ModeChoice::Rotate => "Rotate",
            ModeChoice::Scale => "Scale",
            ModeChoice::Universal => "Universal",
        }
    }
}

/// The gizmo tool of the game view: the modes it last selected.
pub struct GizmoTool {
    pub gizmo_mode: GizmoModeSet,
}

/// The gizmo options' modes after the first `k` buttons were handled in a frame: a clicked
/// button whose modes differ from the current ones selects its modes.
pub open spec fn options_after_clicks(start: GizmoModeSet, clicked: Seq<bool>, k: nat) -> GizmoModeSet
    decreases k,
{
    if k == 0 {
        start
    } else {
        let prev = options_after_clicks(start, clicked, (k - 1) as nat);
        let m = choice_modes(choice_at(k - 1));
        if clicked[k - 1] && prev != m {
            m
        } else {
            prev
        }
    }
}

/// The tool's own modes after the first `k` buttons were handled in a frame: they follow
/// each change of the options' modes.
pub open spec fn tool_after_clicks(
    tool: GizmoModeSet,
    start: GizmoModeSet,
    clicked: Seq<bool>,
    k: nat,
) -> GizmoModeSet
    decreases k,
{
    if k == 0 {
        tool
    } else {
        let prev = options_after_clicks(start, clicked, (k - 1) as nat);
        let m = choice_modes(choice_at(k - 1));
        if clicked[k - 1] && prev != m {
            m
        } else {
            tool_after_clicks(tool, start, clicked, (k - 1) as nat)
        }
    }
}

impl GizmoTool {
    /// A gizmo tool that translates.
    pub fn default() -> (tool: GizmoTool)
        ensures
            tool.gizmo_mode.bits == translate_bits(),
    {
        GizmoTool { gizmo_mode: all_translate_modes() }
    }

    /// The tool's name in the game view's tool list.
    pub fn name(&self) -> (name: &'static str)
        ensures
            name@ == "Gizmo"@,
    {
        "Gizmo"
    }

    /// Handles one mode button: when it was clicked and its modes are not the options'
    /// current ones, both the options and the tool take its modes.
    pub fn press(&mut self, options: &mut GizmoModeSet, choice: ModeChoice, clicked: bool)
        ensures
            (clicked && *old(options) != choice_modes(choice)) ==> *final(options) == choice_modes(
                choice,
            ) && final(self).gizmo_mode == choice_modes(choice),
            !(clicked && *old(options) != choice_modes(choice)) ==> *final(options) == *old(
                options,
            ) && final(self).gizmo_mode == old(self).gizmo_mode,
    {
        let mode = choice.modes();
        if clicked && *options != mode {
            *options = mode;
            self.gizmo_mode = mode;
        }
    }

    /// Handles one frame of the mode buttons. `options` holds the modes of the gizmo
    /// options and `clicked` which of the four buttons were clicked; the buttons are handled
    /// in order. Returns, for each button, whether it was drawn highlighted as the current one.
    pub fn ui(&mut self, options: &mut GizmoModeSet, clicked: [bool; 4]) -> (highlighted: Vec<bool>)
        ensures
            *final(options) == options_after_clicks(*old(options), clicked@, 4),
            final(self).gizmo_mode == tool_after_clicks(
                old(self).gizmo_mode,
                *old(options),
                clicked@,
                4,
            ),
            highlighted@.len() == 4,
            forall|i: int|
                0 <= i < 4 ==> #[trigger] highlighted@[i] == (options_after_clicks(
                    *old(options),
                    clicked@,
                    i as nat,
                ) == choice_modes(choice_at(i))),
    {
        let ghost start = *options;
        let ghost tool_start = self.gizmo_mode;
        let mut highlighted: Vec<bool> = Vec::new();
        let mut i: usize = 0;
        while i < 4
            invariant
                i <= 4,
                clicked@.len() == 4,
                *options == options_after_clicks(start, clicked@, i as nat),
                self.gizmo_mode == tool_after_clicks(tool_start, start, clicked@, i as nat),
                highlighted@.len() == i,
                forall|j: int|
                    0 <= j < i ==> #[trigger] highlighted@[j] == (options_after_clicks(
                        start,
                        clicked@,
                        j as nat,
                    ) == choice_modes(choice_at(j))),
            decreases 4 - i,
        {
            let choice = ModeChoice::at(i);
            let is_current = choice.is_current(options);
            highlighted.push(is_current);
            self.press(options, choice, clicked[i]);
            i = i + 1;
        }
        highlighted
    }
}

/// With a single button clicked in a frame, the gizmo options end up with that button's
/// modes, and the tool's modes change to them unless they already were the options' modes.
pub proof fn law_single_click_selects_choice(
    tool: GizmoModeSet,
    start: GizmoModeSet,
    clicked: Seq<bool>,
    i: int,
)
    requires
        0 <= i < 4,
        clicked.len() == 4,
        forall|j: int| 0 <= j < 4 ==> clicked[j] == (j == i),
    ensures
        options_after_clicks(start, clicked, 4) == choice_modes(choice_at(i)),
        tool_after_clicks(tool, start, clicked, 4) == (if start == choice_modes(choice_at(i)) {
            tool
        } else {
            choice_modes(choice_at(i))
        }),
{
    reveal_with_fuel(options_after_clicks, 5);
    reveal_with_fuel(tool_after_clicks, 5);
}

/// A frame without clicks changes neither the options' modes nor the tool's.
pub proof fn law_no_click_keeps_modes(tool: GizmoModeSet, start: GizmoModeSet, clicked: Seq<bool>)
    requires
        clicked.len() == 4,
        forall|j: int| 0 <= j < 4 ==> !clicked[j],
    ensures
        options_after_clicks(start, clicked, 4) == start,
        tool_after_clicks(tool, start, clicked, 4) == tool,
{
    reveal_with_fuel(options_after_clicks, 5);
    reveal_with_fuel(tool_after_clicks, 5);
}


/// Editor hotkeys of the gizmo tool.
#[derive(Clone, Copy, Debug, PartialEq, Eq, Structural, Hash)]
pub enum GizmoHotkey {
    Translate,
    Rotate,
    Scale,
    Delete,
    Multiple,
    Clone,
}

/// The name a hotkey is shown under.
pub open spec fn hotkey_name(hotkey: GizmoHotkey) -> Seq<char> {
    match hotkey {
        GizmoHotkey::Translate => "Translate entity"@,
        GizmoHotkey::Rotate => "Rotate entity"@,
        GizmoHotkey::Scale => "Scale entity"@,
        GizmoHotkey::Delete => "Delete entity"@,
        GizmoHotkey::Multiple => "Change multiple entities"@,
        GizmoHotkey::Clone => "Clone entity"@,
    }
}

impl GizmoHotkey {
    /// The name this hotkey is shown under.
    pub fn name(&self) -> (name: String)
        ensures
            name@ == hotkey_name(*self),
    {
        match self {
            GizmoHotkey::Translate => "Translate entity".to_string(),
            GizmoHotkey::Rotate => "Rotate entity".to_string(),
            GizmoHotkey::Scale => "Scale entity".to_string(),
            GizmoHotkey::Delete => "Delete entity".to_string(),
            GizmoHotkey::Multiple => "Change multiple entities".to_string(),
            GizmoHotkey::Clone => "Clone entity".to_string(),
        }
    }
}

/// Different hotkeys are shown under different names.
pub proof fn law_hotkey_names_distinct(a: GizmoHotkey, b: GizmoHotkey)
    requires
        a != b,
    ensures
        hotkey_name(a) != hotkey_name(b),
{
    reveal_strlit("Translate entity");
    reveal_strlit("Rotate entity");
    reveal_strlit("Scale entity");
    reveal_strlit("Delete entity");
    reveal_strlit("Change multiple entities");
    reveal_strlit("Clone entity");
    assert(hotkey_name(a).len() != hotkey_name(b).len() || hotkey_name(a)[0] != hotkey_name(b)[0]);
}

/// The gizmo-target commands when an entity becomes selected: every current gizmo target
/// loses the marker, in list order, and then the selected entity gets it.
pub fn selected_trigger(gizmo_targets: &Vec<u64>, selected: u64) -> (cmds: Vec<MarkerCommand>)
    ensures
        cmds@ == removals(gizmo_targets@).push(MarkerCommand::Insert(selected)),
{
    let mut cmds = remove_all(gizmo_targets);
    cmds.push(MarkerCommand::Insert(selected));
    cmds
}

/// After an entity becomes selected, it is the only gizmo target.
pub proof fn law_selected_entity_is_only_gizmo_target(gizmo_targets: Seq<u64>, selected: u64)
    ensures
        apply_marker_commands(
            gizmo_targets.to_set(),
            removals(gizmo_targets).push(MarkerCommand::Insert(selected)),
        ) == set![selected],
{
    let rm = removals(gizmo_targets);
    lemma_removals(gizmo_targets.to_set(), gizmo_targets);
    assert(rm.push(MarkerCommand::Insert(selected)).drop_last() =~= rm);
    assert(apply_marker_commands(gizmo_targets.to_set(), rm.push(MarkerCommand::Insert(selected)))
        =~= set![selected]);
}

/// The gizmo-target commands when an entity loses its selection: it loses the gizmo target
/// only when no entity is left selected (`selected_remaining` counts the selection markers
/// still seen).
pub fn selected_trigger_remove(selected_remaining: usize, deselected: u64) -> (cmds: Vec<
    MarkerCommand,
>)
    ensures
        cmds@ == (if selected_remaining == 0 {
            seq![MarkerCommand::Remove(deselected)]
        } else {
            Seq::empty()
        }),
{
    let mut cmds: Vec<MarkerCommand> = Vec::new();
    if selected_remaining == 0 {
        cmds.push(MarkerCommand::Remove(deselected));
    }
    proof {
        if selected_remaining == 0 {
            assert(cmds@ =~= seq![MarkerCommand::Remove(deselected)]);
        }
    }
    cmds
}

/// Which pan-orbit camera to disable while a gizmo is being dragged: the first one, when
/// there is a camera and some gizmo target is active; none otherwise.
/// `pan_orbit_cameras` counts the cameras; `gizmo_active` holds, per gizmo target, whether it
/// is active.
pub fn disable_pan_orbit_on_gizmo(pan_orbit_cameras: usize, gizmo_active: &Vec<bool>) -> (disable:
    Option<usize>)
    ensures
        disable == (if pan_orbit_cameras > 0 && gizmo_active@.contains(true) {
            Some(0usize)
        } else {
            None
        }),
{
    let mut cam: usize = 0;
    while cam < pan_orbit_cameras
        invariant
            cam <= pan_orbit_cameras,
            cam > 0 ==> !gizmo_active@.contains(true),
        decreases pan_orbit_cameras - cam,
    {
        let mut t: usize = 0;
        while t < gizmo_active.len()
            invariant
                t <= gizmo_active.len(),
                cam < pan_orbit_cameras,
                cam > 0 ==> !gizmo_active@.contains(true),
                forall|j: int| 0 <= j < t ==> !gizmo_active@[j],
            decreases gizmo_active.len() - t,
        {
            if gizmo_active[t] {
                assert(gizmo_active@[t as int]);
                assert(gizmo_active@.contains(true));
                return Some(cam);
            }
            t = t + 1;
        }
        assert(!gizmo_active@.contains(true)) by {
            if gizmo_active@.contains(true) {
                let j = choose|j: int| 0 <= j < gizmo_active@.len() && gizmo_active@[j] == true;
                assert(!gizmo_active@[j]);
            }
        }
        cam = cam + 1;
    }
    None
}

} // verus!
