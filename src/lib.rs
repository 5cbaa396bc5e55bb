//! Keeps a central multi-module repository and per-module repositories in step:
//! module discovery, tree rewiring, commit reconstruction, and the decision logic
//! of the central-submit and review-upload workflows.
pub mod commit;
pub mod error;
pub mod event;
pub mod ids;
pub mod paths;
pub mod review;
pub mod rewire;
pub mod submit;
pub mod tree;
