//! The decisions of a rolling upgrade of a storage cluster's data plane.
//!
//! The data plane runs one workload instance per node. Upgrading it means
//! replacing the instances one node at a time, and never touching a node
//! while the storage control plane still reports a drain or a volume rebuild
//! in progress. This crate holds every decision of that procedure as verified
//! code, and none of its input and output: the caller performs the requests
//! that the [`orchestrator`] asks for and hands back what they returned.
//!
//! * [`orchestrator`] is the procedure itself, as a state machine over the
//!   requests and answers of [`protocol`]. [`safety`] states what holds of
//!   every run of it.
//! * [`pod`], [`drain`], [`rebuild`], [`replacer`] and [`health`] judge what
//!   the cluster has answered, and [`waiter`] decides when to ask again.
//! * [`helm`], [`validators`], [`job_owner`] and [`endpoint`] decide what
//!   comes before the data plane is touched: the Helm upgrade of the control
//!   plane and the validation of the arguments in [`opts`].
//! * [`pattern`], [`yaml`] and [`outside`] are where the crate relies on
//!   other crates, and say what it takes from them unproved.

pub mod constants;
pub mod drain;
pub mod endpoint;
pub mod error;
pub mod health;
pub mod helm;
pub mod job_owner;
pub mod opts;
pub mod orchestrator;
pub mod outside;
pub mod pattern;
pub mod pod;
pub mod protocol;
pub mod rebuild;
pub mod replacer;
pub mod safety;
pub mod search;
pub mod text;
pub mod validators;
pub mod waiter;
pub mod yaml;
