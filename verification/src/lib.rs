//! A verified lifecycle supervisor for the long-running service processes of a
//! desktop host application.
//!
//! The supervisor decides, step by step, how the host must launch its managed
//! services (an API server and a web server) and how it must tear them down
//! again: in reverse start order, escalating from a graceful to a forceful
//! group signal, and reaping each process.  The decisions are returned as plain
//! data ([`plan::LaunchCommand`] and [`plan::StopStep`]); an unverified driver
//! performs the actual process spawning and signalling and feeds the outcomes
//! back in.

pub mod config;
pub mod plan;
pub mod supervisor;
