//! Control plane for a fleet of remote hosts: the rules by which a host is
//! enrolled over ssh, its agent installed, its liveness tracked and its
//! record kept, stated as contracts and proved.
//!
//! Everything here computes on plain values. Whatever waits on the outside
//! world (a child process, a file, a remote call) is asked for as an action
//! and answered with an event, so that each decision between two waits is
//! an ordinary function with a contract.

pub mod agent;
pub mod application;
pub mod command;
pub mod enroll;
pub mod host;
pub mod http;
pub mod id;
pub mod registry;
pub mod repository;
pub mod settings;
pub mod ssh;
pub mod text;
