//! Decision logic for scaffolding a new project: which generator command to
//! run, where the configuration templates are looked for, which files get
//! placed, and what is reported at each step.
//!
//! The library performs no I/O. A caller drives a [`machine::Materializer`]:
//! it performs the action the machine asks for and hands back what happened.

pub mod paths;
pub mod request;
pub mod error;
pub mod model;
pub mod machine;
pub mod run;
