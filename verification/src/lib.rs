//! Picking the active context of a cluster-access configuration file.

pub mod accessor;
pub mod app;
pub mod context;
pub mod display;
pub mod error;
pub mod input;
pub mod kubeconfig;
pub mod session;
