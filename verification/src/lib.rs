//! Decision logic of the DualOJ judge controller: the manifests it submits to
//! Kubernetes, the way it reads pod state, the judge lifecycle, the registry of
//! pending judges and the upload protocol.

pub mod buildctl;
pub mod error;
pub mod flow;
pub mod id;
pub mod jobs;
pub mod io_bind;
pub mod judge;
pub mod judge_server;
pub mod listener;
pub mod manifest;
pub mod pack;
pub mod pod;
pub mod registry;
pub mod text;
pub mod upload;
pub mod watch;
