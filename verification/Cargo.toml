[package]
name = "plygui_qt"
version = "0.1.0"
edition = "2021"
publish = false

[dependencies]
qt_core = "0.5.0"
qt_gui = "0.5.0"
qt_widgets = "0.5.0"
qt_core_custom_events = "0.2.0"
lazy_static = "1.5.1"
