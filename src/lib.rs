//! Decoders for the binary data files of a 3D game client: tagged chunk
//! containers, fixed-record tables with a string heap, and the typed views
//! and file representations built on them.

pub mod error;
pub mod byte_utils;
pub mod chunk;
pub mod chunk_types;
pub mod facades;
pub mod wmo;
pub mod m2;
pub mod dbc;
pub mod dbc_tables;
pub mod spell_table;
pub mod spell_flags;
pub mod join;
pub mod spell_join;
pub mod talent_join;
pub mod mpq_path;
