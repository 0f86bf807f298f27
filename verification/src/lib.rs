//! A Rust RDMA library, with the decision logic of its verbs wrappers verified.
//!
//! The library keeps the RDMA resources that `libibverbs` hands out as plain
//! handles and values, and states in contracts how memory regions are sliced,
//! how work requests are laid out, how queue pairs are brought up, and how the
//! hosts of a cluster pair up.

pub mod cluster;
pub mod context;
pub mod cq;
pub mod dct;
pub mod device;
pub mod gid;
pub mod interop;
pub mod manifest;
pub mod mr;
pub mod nic;
pub mod perm;
pub mod port;
pub mod qp;
pub mod queue_pair;
pub mod registered_mem;
pub mod remote_mem;
pub mod select;
pub mod send;
pub mod toml_doc;
pub mod types;
pub mod verbs;
pub mod wr;
pub mod xml;
