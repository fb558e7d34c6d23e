//! Docker inventory as table rows: the rows' data model, the per-column
//! transform rules, the record mapper and the fetch-transform-emit state
//! machine, each with a verified contract.
pub mod cell;
pub mod commands;
pub mod error;
pub mod laws;
pub mod mapper;
pub mod mode;
pub mod pipeline;
pub mod row;
pub mod rules;
