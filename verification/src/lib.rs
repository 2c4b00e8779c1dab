//! The logic of a terminal emulator with tabs.
//!
//! The library decides what input, events and the output of child processes do. It holds the
//! state that this depends on, and sees the terminal and the window as snapshots of plain values
//! ([`term`]). What is to be done to them it returns as lists of instructions ([`effect`]) that
//! its host carries out in order.
//!
//! - [`event`] and [`handler`]: the event loop, and what each event sets off.
//! - [`input`], [`keys`], [`mouse`] and [`wheel`]: the keyboard and the mouse.
//! - [`bindings`] and [`action`]: which keys run which actions, and what these do.
//! - [`context`], [`search`], [`config`]: the state of the input, the search and the settings.
//! - [`report`], [`text`], [`padding`]: the bytes that are sent and the text that is shown.
//! - [`tab_manager`], [`terminal_tabs`], [`child_pty`], [`clipboard`]: the tabs and what is
//!   behind them.
//! - [`word`]: the words and addresses on the screen.
pub mod action;
pub mod bindings;
pub mod child_pty;
pub mod clipboard;
pub mod config;
pub mod context;
pub mod effect;
pub mod event;
pub mod handler;
pub mod index;
pub mod input;
pub mod keys;
pub mod laws;
pub mod mouse;
pub mod padding;
pub mod report;
pub mod search;
pub mod tab_manager;
pub mod term;
pub mod terminal_tabs;
pub mod text;
pub mod wheel;
pub mod word;
