//! Verified core of the desktop shell: the zoom level of the main window and
//! the native menu that drives it.

pub mod menu;
pub mod shell;
pub mod text;
pub mod zoom;
