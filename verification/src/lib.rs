//! Verified core of a database-administration RPC client.
//!
//! The client itself talks to a remote service over gRPC; what this library
//! verifies is the decision logic that such a client runs between network
//! calls: classifying errors under a retry policy, flattening paginated list
//! responses into one ordered collection, building routing keys from request
//! fields, and wrapping long-running-operation descriptors in a typed handle.

pub mod operation;
pub mod page;
pub mod requests;
pub mod retry;
pub mod status;
