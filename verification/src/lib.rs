//! A project scaffolding generator.
//!
//! Given a project name, the library plans a ready-to-build service
//! skeleton: an ordered manifest of directories and files, a literal
//! placeholder substitution engine that stamps the name into the bundled
//! templates, and an orchestrator state machine that validates the request,
//! hands the filesystem actions out one by one, and rolls everything back
//! on the first failure.  The machine never touches the filesystem itself:
//! a thin runner performs each pending action and reports back.

use vstd::prelude::*;

pub mod engine;
pub mod fs_model;
pub mod manifest;
pub mod paths;
pub mod skeleton;
pub mod subst;
pub mod templates;

verus! {

} // verus!
