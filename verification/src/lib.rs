//! Grants on directory-service objects: resolving a permission request into an
//! access mask or a rights GUID, assembling the access-control entry and the
//! security-descriptor control flags, and deciding each step of the session
//! that commits them.

pub mod client;
pub mod descriptor;
pub mod guid;
pub mod native;
pub mod resolver;
pub mod sids;
pub mod text;
