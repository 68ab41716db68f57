//! A small soundboard: a catalog of audio clips kept as paired binary and
//! metadata files, and the client-side pipeline that turns user commands into
//! network requests and their replies into UI events.

pub mod assets;
pub mod bridge;
pub mod catalog;
pub mod client;
pub mod error;
pub mod path;
pub mod resource;
pub mod sniff;
pub mod store;
pub mod text;
pub mod ui;
