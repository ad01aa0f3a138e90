//! Verified core of a package locator: given a configured set of package
//! databases (one local, several remote), it resolves a package name to a
//! concrete record, decides how archive signatures must be checked under a
//! trust policy, derives download locations from mirror lists, and renders
//! diagnostic lines for the session's asynchronous notifications.
//!
//! All disk and network work (loading archives, refreshing databases,
//! reading configuration) happens outside this crate; the functions here
//! take the outcomes of that work as plain values and make every decision
//! that depends on them, with contracts that pin the decisions down.

pub mod policy;
pub mod verify;
pub mod report;
pub mod db;
pub mod resolve;
pub mod locate;
pub mod init;
