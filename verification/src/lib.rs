//! Deployment orchestration for a versioned serverless function runtime.
//!
//! The version-control history doubles as a deployment ledger: every
//! successful publish is recorded as a lightweight tag `name@version`
//! pointing at the commit that was deployed. The modules here hold the
//! decision logic of one orchestration run: the clean-tree guard, the
//! idempotency check against the ledger, validation of the publish
//! response, the garbage-collection policy for stale published versions,
//! and the state machine that sequences all of it.

pub mod config;
pub mod gc;
pub mod guard;
pub mod ledger;
pub mod marker;
pub mod orchestrator;
pub mod publish;
