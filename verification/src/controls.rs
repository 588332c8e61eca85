//! Ready-made collaborators for exercising a consumer: deterministic
//! back-offs, counting and failing handlers, example messages and
//! categories, and telemetry fixtures.

pub mod back_off;
pub mod category;
pub mod handler;
pub mod messages;
pub mod telemetry;
