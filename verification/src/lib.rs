//! Locating and navigating the panes of a terminal-multiplexer session.
//!
//! The crate holds the decisions of a session controller: which pane a set
//! of patterns selects, which pane is the current one, and what to ask the
//! session service next while moving focus. Talking to the service is left to
//! the caller, who hands over what the service answered.

pub mod cache;
pub mod clients;
pub mod direction;
pub mod finder;
pub mod matcher;
pub mod navigate;
pub mod ops;
pub mod pane;
pub mod service;
pub mod text;
