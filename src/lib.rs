//! The native menu of a desktop shell, as plain data: the menu tree that is
//! installed at startup and the rule that turns a menu activation into an
//! event for the main window's web content.

pub mod menu;
pub mod router;
