//! Extraction of reading highlights from an e-reader's library catalog and
//! annotation store, and their export as a text file and a JSON file.

pub mod digits;
pub mod export;
pub mod menu;
pub mod models;
pub mod ordering;
pub mod paths;
pub mod queries;
pub mod session;
pub mod timestamp;
