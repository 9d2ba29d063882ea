//! An interactive terminal client for picking an anime, an episode and a
//! stream quality from a remote catalog source, and handing the stream URL
//! to an external player.
//!
//! This crate holds the verified core: the selection state machine, the
//! uniform selection input protocol, the catalog source over the decoded
//! JSON of the remote API, and the dialog driver that sequences the stages.
//! Terminal and network I/O live outside the library and talk to it in
//! plain values.

pub mod anilibria;
pub mod data;
pub mod driver;
pub mod errors;
pub mod json;
pub mod language;
pub mod parser;
pub mod player;
pub mod schemas;
pub mod prompt;
pub mod source;
pub mod state;
pub mod state_machine;
pub mod text;
