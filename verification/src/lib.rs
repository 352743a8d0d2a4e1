//! A small command-line todo manager backed by an embedded SQLite store.
//!
//! The `todos` table of the store is modelled as a map from row id to the
//! row's title and optional description; every operation of the persistence
//! layer states in its contract how it reads or rewrites that map. The
//! command-line grammar is parsed by a verified parser whose behaviour is
//! given by a specification function over the argument views.

pub mod models;
pub mod db;
pub mod cli;
pub mod laws;
