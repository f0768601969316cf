//! Editor view logic: entity selection, transform-gizmo targeting, the game view's
//! tool registry and the camera preview tab, as decisions over plain values.

pub mod commands;
pub mod input;
pub mod selection;
pub mod gizmo;
pub mod game_view;
pub mod camera_view;
