pub mod debug_ui;
