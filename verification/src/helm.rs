//! Helm: the releases of a namespace, and the command lines that act on them.

pub mod client;
pub mod upgrade;
