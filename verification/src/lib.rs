//! A small helper for running shell commands from installer-style programs.
//!
//! A [`runcmd::RunCmd`] owns one command line and a few flags; it can run the
//! command and abort-on-failure ([`runcmd::RunCmd::execute`]) or hand back the
//! captured exit code and output text ([`runcmd::RunCmd::execute_output`]).

pub mod runcmd;
pub mod spawn;
