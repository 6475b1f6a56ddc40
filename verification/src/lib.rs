//! The decision logic of a keyboard-driven inbox client: the create form,
//! the screen state machine, date rendering, endpoint construction and the
//! validation of JSON form input.

pub mod form;
pub mod text;
pub mod dates;
pub mod json;
pub mod models;
pub mod app;
pub mod config;
pub mod endpoints;
pub mod display;
