//! Sprint planning across an issue tracker and an estimation overlay: the
//! point reconciliation of a finished sprint, the paginated search that
//! collects its issues, and the triage that brings issues into a sprint.
use vstd::prelude::*;

pub mod assign;
pub mod choice;
pub mod create;
pub mod date;
pub mod decimal;
pub mod error;
pub mod finish;
pub mod github;
pub mod paginate;
pub mod points;
pub mod secret;
pub mod settings;
pub mod triage;
pub mod zenhub;
