//! A remote validation step that checks whether Docker Compose is installed
//! and minimally functional on a target host.
//!
//! The step issues a short fixed sequence of remote commands through a
//! command-execution collaborator and returns success for every semantic
//! negative outcome (tool absent, command exited nonzero, cleanup failed);
//! only a fault of the execution mechanism itself is reported as an error.
//!
//! The decision policy is a small state machine: [`validator::Phase`] names
//! the command to issue next, the caller reports each outcome as a
//! [`model::ProbeEvent`], and [`validator::DockerComposeValidator::step`]
//! decides what to log and what to do next. The driver that actually runs
//! commands over SSH lives outside this crate and only follows the machine.

pub mod laws;
pub mod model;
pub mod text;
pub mod validator;
