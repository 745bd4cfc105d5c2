//! A verified core for a polyglot test sweeper: it recognizes the build
//! ecosystem of each subdirectory of a root by its marker file, orders the
//! detected projects by name, and turns each test command's exit status into
//! a per-project report line.

pub mod ecosystem;
pub mod order;
pub mod project;
pub mod report;
pub mod runner;
pub mod scanner;
