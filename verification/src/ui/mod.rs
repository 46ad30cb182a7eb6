//! What the windows show and what their controls do, without the widgets.

pub mod app;
pub mod curve_editor;
pub mod fans_window;
pub mod main_window;
