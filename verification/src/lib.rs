//! Control-plane and data-plane state machines for a small wireless echo
//! service: command framing and completion detection for a line-oriented
//! modem protocol, association retry policy, a readiness poll gate, and a
//! single-session byte-echo service.
//!
//! Every decision the system makes is a verified function here; the
//! surrounding tasks perform the I/O these functions ask for and hand the
//! outcome back as plain events.

pub mod control;
pub mod echo;
pub mod framer;
pub mod readiness;
