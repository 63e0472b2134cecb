//! Decisions of the keeper's metric reports: which reports run and in what
//! order, which rows each report emits, and the figures it derives.

pub mod rows;
pub mod plan;
pub mod status;
pub mod ballots;
pub mod text;
