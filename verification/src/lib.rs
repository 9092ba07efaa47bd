//! Verified core of a Rust binding to libfabric: flag sets, enumerations and their raw
//! encodings, completion-queue and domain bookkeeping, and the argument planning and
//! result interpretation of every fabric operation.
pub mod comm;
pub mod conn_ep;
pub mod consts;
pub mod cq;
pub mod datatype;
pub mod domain;
pub mod enums;
pub mod ep;
pub mod error;
pub mod flags;
pub mod mr;
pub mod semantics;
