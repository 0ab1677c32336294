use vstd::prelude::*;

pub mod text;
pub mod llm;
pub mod xlsx;
pub mod agent;
pub mod exporter;
pub mod column_keys;
pub mod sql;
pub mod search;
pub mod extraction;
pub mod constants;
pub mod config;
pub mod app_core;
pub mod importer;
pub mod mail;
pub mod dedupe;
pub mod event;
pub mod document;
pub mod diag;
pub mod recognition;
pub mod embedding;
pub mod tools;

verus! {

} // verus!
