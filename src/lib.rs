//! Geometry and data for a full-screen terminal character sheet.
//!
//! The heart of the crate is [`layout::split`], which partitions a
//! rectangle of terminal cells into children along one axis according to a
//! list of sizing constraints. [`screen`] composes that solver into the tree
//! of regions a character sheet is drawn into; [`character`] holds the record
//! it shows, [`sheet`] the text it derives from that record, and [`config`]
//! the command line.
pub mod character;
pub mod config;
pub mod layout;
pub mod screen;
pub mod sheet;
pub mod text;
