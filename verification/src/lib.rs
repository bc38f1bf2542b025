//! A JSON-RPC 2.0 protocol engine: request validation, method dispatch,
//! order-preserving batch partitioning, response assembly and the
//! error-code to HTTP-status mapping, all with verified contracts.

pub mod assemble;
pub mod batch;
pub mod config;
pub mod dispatch;
pub mod handlers;
pub mod json;
pub mod phone;
pub mod rpc;
pub mod text;

use vstd::prelude::*;

verus! {

} // verus!
