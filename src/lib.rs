//! Modality worklist query engine: the data model of a DICOM data set,
//! the C-FIND request it sends, the records it extracts from the answers,
//! and the protocol state machine that drives one query, with the laws it obeys.
//! The network transport stays with the caller: it performs each action the engine
//! returns and reports back what happened.
//!
//! Alongside live the plain records of the user, role and permission service.

pub mod dataset;
pub mod codec;
pub mod query;
pub mod record;
pub mod engine;
pub mod theorems;
pub mod controllers;
pub mod models;
pub mod responses;
pub mod tools;
