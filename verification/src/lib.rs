//! The core of an Ethereum peer-to-peer crawler: what it keeps of its peers, how it answers what
//! they say, and what its user interface and its web interface show.

pub mod analysis;
pub mod api;
pub mod frame;
pub mod identity;
pub mod mempool;
pub mod network;
pub mod primitives;
pub mod text;
pub mod transaction;
pub mod types;
pub mod ui;
pub mod ui_laws;
