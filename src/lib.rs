//! A single-table codec for movies, their cast and their actors.
//!
//! Domain aggregates are decomposed into flat rows addressed by a
//! partition key and a sort key; the kind of a row is recovered from the
//! shape of its keys alone.

pub mod text;
pub mod time;
pub mod data;
pub mod option;
pub mod keys;
pub mod dynamo;
pub mod row;
pub mod repository;
