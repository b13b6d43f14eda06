//! Power control of bare-metal machines through the PoE ports of a switch
//! controller: resolution of a machine identifier to a switch and a port, the
//! controller's REST protocol, and the decisions of each request, as a state
//! machine that a runtime drives with the controller's replies.

pub mod search;
pub mod models;
pub mod text;
pub mod error;
pub mod config;
pub mod protocol;
pub mod directory;
pub mod exchange;
pub mod laws;
