//! The IPMI message inside a packet.
//!
//! A request is `rsAddr, netFn/rsLUN, checksum, rqAddr, rqSeq/rqLUN, cmd`,
//! the request data and a second checksum. A response is `rqAddr,
//! netFn/rqLUN, checksum, rsAddr, rqSeq/rsLUN, cmd, completion code`, the
//! response data and a second checksum.

pub mod bmc;
pub mod lun;
pub mod netfn;
pub mod request;
pub mod response;
