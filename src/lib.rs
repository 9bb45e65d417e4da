//! Reading a game client's lockfile, building authenticated requests against
//! its local API, and the session state that drives the rune page browser.

pub mod text;
pub mod error;
pub mod league;
pub mod lockfile;
pub mod client;
pub mod runes;
pub mod session;
