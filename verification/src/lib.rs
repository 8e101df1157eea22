//! Supervision of two dependent background services and classification of the
//! host's network state, written as pure decision logic: every operation that
//! has to touch the operating system is described as a value that a driver
//! performs, and every observation comes back as an event.

pub mod command;
pub mod connectivity;
pub mod interface;
pub mod orchestrator;
pub mod process;
pub mod report;
pub mod supervisor;
pub mod text;
