//! The display's state and the decisions behind what it draws and how it
//! answers input. Drawing itself is done by the terminal front end.

pub mod events;
pub mod header;
pub mod main_display;
pub mod state;
