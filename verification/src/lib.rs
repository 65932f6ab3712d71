//! Audits a repository's CI/CD maturity from a point-in-time snapshot of its
//! hosted data: a fixed catalog of checks is evaluated against workflow text,
//! file probes, run history, releases and commits, and the verdicts are
//! aggregated into a score report grouped by category.

pub mod catalog;
pub mod client;
pub mod engine;
pub mod evaluators;
pub mod gateway;
pub mod models;
pub mod prompt;
pub mod review;
pub mod scan;
pub mod score;
pub mod text;
