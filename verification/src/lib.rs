//! Capability-based access control for the objects of a small kernel.
//!
//! A capability is a handle on an object together with the permissions it
//! grants. Capabilities are shared with fewer or equal permissions,
//! transferred, joined and revoked; each thread keeps its capabilities in a
//! capability space. The naming service hands out capabilities on files,
//! directories and pipes, and the system calls of both move capabilities
//! between threads and use them.
use vstd::prelude::*;

pub mod flags;
pub mod lock;
pub mod capability;
pub mod errno;
pub mod options;
pub mod capability_objects;
pub mod naming_object;
pub mod cspace;
pub mod path;
pub mod naming_api;
pub mod sys_caps;
pub mod sys_naming;
pub mod file_protocol;
pub mod user_capability;

verus! {
}
