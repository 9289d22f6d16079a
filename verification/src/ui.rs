//! The views: the table, the detail tabs, and the multiplexer that switches
//! between them.

pub mod detail;
pub mod key;
pub mod mux;
pub mod schema;
pub mod table;
pub mod view;
