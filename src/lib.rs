//! Core of a terminal installer front-end: the catalog of optional components,
//! the set of installed component ids, the application state, and the
//! decisions taken on each key press and each event of a running install.

pub mod config;
pub mod state;
pub mod catalog;
pub mod installer;
pub mod text;
pub mod dispatch;
