//! A viewer for line-delimited JSON: the table layout engine and the view
//! multiplexer, with their contracts.

pub mod input;
pub mod json;
pub mod model;
pub mod text;
pub mod ui;
