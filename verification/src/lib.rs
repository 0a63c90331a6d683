//! Verified core of a terminal workspace window.
//!
//! The crate holds the decisions of the window: which workspace, tab and pane
//! are shown, how keys and mouse events become terminal input, how a terminal
//! grid is turned into text runs, how the selection, the smooth scroll and the
//! dialogs evolve. Everything that draws, measures pixels or talks to a server
//! stays outside and hands plain values in.

pub mod ids;
pub mod text;
pub mod terminal;
pub mod color;
pub mod arith;
pub mod selection;
pub mod rows;
pub mod keys;
pub mod mouse;
pub mod lookup;
pub mod model;
pub mod offset;
pub mod scroll;
pub mod cache;
pub mod resize;
pub mod sidebar;
pub mod tables;
pub mod field;
pub mod ime;
pub mod command;
pub mod view;
pub mod queries;
pub mod connections;
pub mod tabs;
pub mod drags;
pub mod dialogs;
pub mod viewport;
pub mod pointer;
pub mod keyboard;
pub mod input_method;
pub mod install;
pub mod shortcuts;
pub mod menus;
pub mod presses;
pub mod sidebar_panel;
pub mod panels;
pub mod drawing;
