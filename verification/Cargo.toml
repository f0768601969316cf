[package]
name = "space_editor_views"
version = "0.1.0"
edition = "2021"
publish = false

[dependencies]
transform-gizmo-bevy = "=0.8.0"
