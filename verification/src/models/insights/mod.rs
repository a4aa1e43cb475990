//! Performance insights: the slowest tasks and steps.

pub mod slowest_steps;
pub mod slowest_tasks;
