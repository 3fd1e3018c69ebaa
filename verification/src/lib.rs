//! A verified core for a local game library: the metadata synchronization and
//! persistence engine. Entities form a recursively linked metadata graph; the
//! persistence protocol saves, loads and translates them against a relational
//! store model; a filename parser and an identification pipeline drive the
//! catalog of local files.
pub mod objet;
pub mod interface;
pub mod analyse;
pub mod sql;
pub mod erreurs;
pub mod chemins;
pub mod json;
pub mod config;
pub mod igdb;
pub mod openai;
pub mod scan;
pub mod trad;
pub mod dl;
