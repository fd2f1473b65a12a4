//! Bulk integrity-sidecar generation: the policy that decides which checksum
//! sidecar files a repository entry is missing, and the streaming digest
//! pipeline that produces their contents.

pub mod config;
pub mod digest;
pub mod hex;
pub mod policy;
