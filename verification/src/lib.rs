//! A short-link and paste store: identifiers map to text or to a redirect
//! target, with per-identifier statistics and an optional owner token.

pub mod config;
pub mod content;
pub mod error;
pub mod handlers;
pub mod ident;
pub mod laws;
pub mod model;
pub mod pasty;
pub mod report;
pub mod request;
pub mod service;
pub mod stats;
pub mod tables;
mod text;
