//! Capture-cycle scheduling and screenshot artifact pipeline.
//!
//! The library holds the decisions of the capture cycle: the countdown that
//! paces captures and drives the status indicator ([`countdown`]), the path
//! policies that guard every file the pipeline touches ([`paths`]), the
//! naming of artifacts ([`naming`]), the resize rule for captured images
//! ([`capture`]), and the assembly and interpretation of the remote analysis
//! exchange ([`analysis`]). Captures and analyses run as sessions
//! ([`pipeline`], [`exchange`]) that name each file-system, credential-store
//! or network action for the caller to perform and take back its outcome as
//! plain values; the clock and the sensors are read by the caller too.
use vstd::prelude::*;

pub mod analysis;
pub mod capture;
pub mod context;
pub mod countdown;
pub mod credentials;
pub mod error;
pub mod exchange;
pub mod naming;
pub mod paths;
pub mod pipeline;
pub mod text;
