//! Fetching an adventure and the assets it depends on from the game's content
//! server: reading the identifier, scanning the metadata document, naming the
//! addresses and files, and deciding, step by step, what is to be fetched and
//! written. The decisions are made here; reaching the server and the disk is
//! left to the caller.

pub mod download;
pub mod identifier;
pub mod metadata;
pub mod orchestrator;
pub mod paths;
pub mod retry;
pub mod text;
