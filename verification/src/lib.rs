use vstd::prelude::*;

pub mod central;
pub mod env;
pub mod error;
pub mod namespace;
pub mod oid;
pub mod refs;
pub mod remote;
pub mod repo_update;
pub mod text;
