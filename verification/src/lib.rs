//! Runs the Tailwind CLI as a build step: the decisions and the values that the
//! step needs, proved against their contracts. The host performs the actions.

pub mod command;
pub mod error;
pub mod guarantees;
pub mod invoker;
pub mod options;
pub mod output;
pub mod permissions;
pub mod platform;
pub mod protocol;
pub mod run;

pub use options::TailwindOptions;
