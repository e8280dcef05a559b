//! Core of a captive-network portal: a DNS responder that answers every
//! query with the portal's own address, a table of connectivity-probe
//! paths that are redirected to the portal root, and the handlers of the
//! memo page itself.
//!
//! All socket and thread plumbing lives outside this crate; these modules
//! hold the wire-format and routing logic, each function with a contract.

pub mod addr;
pub mod captive;
pub mod dns;
pub mod memo;
pub mod portal;
