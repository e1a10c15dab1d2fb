//! The version-control side: the operations a workflow asks its caller to
//! perform on the repository, and the addresses of remote repositories.

pub mod operations;
pub mod remote;
