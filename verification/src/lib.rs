//! Verified core of a file-system relayer for a stream network: the rules that
//! decide how files are loaded, linked and saved, how requests are routed, and
//! what errors mean, stated over plain values.

pub mod config;
pub mod errors;
pub mod events;
pub mod files;
pub mod ids;
pub mod list;
pub mod load;
pub mod routing;
pub mod save;
pub mod text;
