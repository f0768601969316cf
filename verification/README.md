# space_editor_views

The decisions behind an editor's game view, camera view and selection, verified with Verus.

- `src/commands.rs`: marker commands (insert or remove a marker component on an entity) and
  what a sequence of them does to the set of marked entities.
- `src/input.rs`: the keyboard keys the shortcuts read.
- `src/selection.rs`: pointer clicks, select events and the deletion shortcut.
- `src/gizmo.rs`: gizmo targeting, the gizmo tool's mode buttons and its hotkey names.
- `src/game_view.rs`: the game view's tool registry.
- `src/camera_view.rs`: the camera preview tab and the render order of the viewport cameras.
- `app/`: the bevy plugins and systems that feed these decisions from the ECS and the UI.

Entities are passed as their 64-bit ids.
