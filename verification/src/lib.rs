//! What a streaming overlay shows of the Steam game that is running.
//!
//! The library holds the rules: how a report changes what is shown, which name a game gets, how
//! the card is filled in. Clocks, sockets, files and the Windows registry are handled by the programs
//! around it, which hand plain values in and take plain values out.

pub mod card;
pub mod client;
pub mod config;
pub mod lookup;
pub mod monitor;
pub mod names;
pub mod pages;
pub mod playtime;
pub mod protocol;
pub mod registry;
pub mod session;
pub mod store;
pub mod svg;
pub mod template;
pub mod text;
pub mod upload;

pub use protocol::{CurrentGameResponse, GameInfo, ReportData, ServerInfo};
