//! Verified core of a template-project bootstrapper and workspace task
//! runner.
//!
//! The library holds the logic of the tool: validation of project and
//! account names, the literal text substitution engine that rewrites the
//! template files, the fixed bootstrap plan (which file gets which
//! substitution, and the final directory rename), and the construction of
//! the external tool command lines for the build, test and lint tasks.
//! All file reading and writing, prompting and process spawning lives
//! outside the library; every function here is pure and carries a proved
//! contract.

pub mod bootstrap;
pub mod cleanup;
pub mod subst;
pub mod tasks;
pub mod text;
pub mod validate;
