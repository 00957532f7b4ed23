//! Run one operation -- a shell command or a file upload -- against a set of
//! remote hosts in parallel, and deliver one outcome per host, either as
//! completions arrive or reassembled into the caller's original host order.
//!
//! The crate holds the verified core: the shared data model ([`data`]), the
//! per-host session state machine ([`executor`]), the bounded fan-out
//! scheduler ([`scheduler`]), the capped output capture ([`capture`]), the
//! order-preserving result sequencer ([`sequencer`]), and the resolution of
//! host entries from configuration data ([`config`]). Transport, file and
//! terminal I/O live outside the crate and are driven by the state machines
//! defined here.

pub mod capture;
pub mod config;
pub mod count;
pub mod data;
pub mod executor;
pub mod scheduler;
pub mod sequencer;
