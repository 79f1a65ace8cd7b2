//! A model of a kernel-mode HTTP request-queueing facility: server sessions
//! that own URL bindings and a shared request queue, request channels that
//! issue overlapped receive/send/cancel operations against the queue, and the
//! completion bridge that resolves each operation exactly once.
//!
//! Every kernel call is represented by the plain values it consumes and
//! produces: a function here decides which call to make next and how to
//! interpret the code the kernel handed back, and an unverified driver
//! performs the calls themselves.

pub mod bridge;
pub mod channel;
pub mod chunks;
pub mod codes;
pub mod handle;
pub mod headers;
pub mod outcome;
pub mod session;
pub mod text;
