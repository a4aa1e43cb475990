//! Workflow orchestration data model: state machines, readiness and DAG
//! analysis, diagrams and the in-memory effects of model updates.

pub mod json;
pub mod models;
pub mod text;
pub mod time;
