[package]
name = "intro_sequencer"
version = "0.1.0"
edition = "2021"
publish = false

[dependencies]
bevy = { version = "=0.17.3", default-features = false, features = ["std", "async_executor", "multi_threaded", "bevy_asset", "bevy_camera", "bevy_color", "bevy_core_pipeline", "bevy_gizmos", "bevy_log", "bevy_render", "bevy_state", "bevy_text", "bevy_ui", "bevy_ui_render", "bevy_window", "default_font"] }
