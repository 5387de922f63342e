//! A protocol compiler for string-keyed RPC dispatch.
//!
//! Given an abstract interface declaration — a name plus an ordered list of
//! method signatures — this crate derives two artifacts:
//!
//! * a server-side dispatch table that routes an incoming method name and an
//!   ordered list of opaque argument values to the correct handler, and
//! * a client-side stub skeleton that fixes the client-visible method
//!   signatures while the transport wiring is still pending.
//!
//! Transport, retries and the concrete value serialization format are outside
//! collaborators: arguments and results cross the boundary as
//! [`dispatch::OpaqueValue`], an already-encoded transport-agnostic value.

pub mod decl;
pub mod text;
pub mod compile;
pub mod dispatch;
pub mod stub;
