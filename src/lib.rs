//! Browser session and automation workflow engine for a creator web application.
//!
//! The library decides; the embedding program drives the browser. Paths, lock
//! artifacts, launch settings, the session registry, the sign-in flow and the
//! publish workflow are plain values and functions with verified contracts:
//! a workflow is a list of steps that the embedding program performs one
//! command at a time, reporting each outcome back.

pub mod login;
pub mod model;
pub mod process;
pub mod publish;
pub mod registry;
pub mod storage;
pub mod workflow;
