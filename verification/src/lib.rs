//! Core of a hierarchical menu for pixel-addressed displays.
//!
//! The library models the ordered menu tree, the navigation state machine and
//! the viewport layout pipeline. A call to [`menu::Menu::draw`] turns the
//! current state into a flat plan of drawing commands; a host crate executes
//! that plan against its display driver and reports any surface fault.

pub mod command;
pub mod geometry;
pub mod menu;
pub mod menu_item;
pub mod state;
pub mod style;
pub mod submenu;
pub mod tree;
