//! Monster Siren Records player: the verified core of the player engine,
//! its front-end state machines, and the helpers around the Siren API.

pub mod about;
pub mod api;
pub mod ascii;
pub mod chance;
pub mod config;
pub mod decimal;
pub mod control;
pub mod gui;
pub mod gui_input;
pub mod gui_view;
pub mod kernel;
pub mod modes;
pub mod lyrics;
pub mod settings;
pub mod siren;
pub mod text;
pub mod theme;
pub mod tui;
pub mod types;
pub mod view;
