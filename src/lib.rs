//! Multi-fidelity evaluation of benchmark problems for black-box optimisation.
//!
//! The library holds the verified logic: the parameter domain model, the
//! fidelity schedule and its selection rule, the mapping of a configuration
//! onto the evaluator process's command line, the decisions of the result
//! scan, and the registry that shares evaluator processes.
pub mod deepobs;
pub mod domain;
pub mod error;
pub mod invocation;
pub mod registry;
pub mod scan;
pub mod schedule;
pub mod sigopt;
pub mod text;
