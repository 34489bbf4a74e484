//! Launch plan of a desktop application shell.
//!
//! The shell itself only composes capabilities supplied by its host framework
//! and then blocks in the host's run loop. This crate holds the decisions of
//! that composition as plain values: which capability is attached in which
//! build mode and at which moment, and how the launch reacts to a failure.
//! The caller performs the registrations and hands back what happened.

pub mod capability;
pub mod lifecycle;
pub mod plan;
