//! Record linkage for tables of postal addresses: tables are geocoded to
//! coordinates, then folded one by one into a single merged table by
//! proximity, with a fuzzy comparison of text to separate rows that share one
//! location.
//!
//! Coordinates and distances are carried as the 64-bit patterns of IEEE 754
//! double-precision numbers. The library compares and moves them; whoever
//! calls it measures them, and does the reading and writing of files and the
//! talking to the geocoding service.
pub mod coords;
pub mod data_frame;
pub mod error;
pub mod fuzzy;
pub mod geocode;
pub mod matching;
pub mod merge;
pub mod roles;
pub mod state;
pub mod text;
