//! Incremental discovery of classified-ad postings: extraction of listing
//! records from a result page, novelty detection against a bounded history of
//! identifiers, and the delivery protocol with its retry rules.

pub mod config;
pub mod history;
pub mod listing;
pub mod notify;
pub mod page;
pub mod run;
pub mod text;
pub mod trace;
