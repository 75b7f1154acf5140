//! Verified core of the hotel-reservation component hosts: the request
//! counters, the shared key/value cache, the warm-pool bookkeeping, the
//! engine sizing, the gRPC request/reply handling of the services, the
//! frontend's database routing and the reproduction harness.
pub mod keyed;
pub mod topology;
pub mod rpc;
pub mod kv;
pub mod wire;
pub mod pool;
pub mod engine;
pub mod routing;
pub mod modes;
pub mod repro;
pub mod documents;
