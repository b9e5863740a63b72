//! A catalog of menu items: durable identity, create / read / update / delete,
//! linear-scan search, and a two-state availability machine.

pub mod counter;
pub mod item;
pub mod laws;
pub mod menu;
pub mod model;
pub mod price;
pub mod query;
pub mod text;
