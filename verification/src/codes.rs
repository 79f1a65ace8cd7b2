//! Numeric constants fixed by the operating system's HTTP server interface.
//! The values are part of the external contract and are passed through to
//! callers unchanged.

use vstd::prelude::*;

verus! {

/// The call completed without error.
pub const ERROR_SUCCESS: u32 = 0;

/// Terminal "end of data" signal while reading an entity body: a normal
/// completion, not a fault.
pub const ERROR_HANDLE_EOF: u32 = 38;

/// The supplied buffer was too small; the completion carries the required
/// size. A protocol signal, not an error.
pub const ERROR_MORE_DATA: u32 = 234;

/// The operation was cancelled before it completed.
pub const ERROR_OPERATION_ABORTED: u32 = 995;

/// The call went asynchronous; its completion arrives later through the
/// completion port.
pub const ERROR_IO_PENDING: u32 = 997;

/// Request-queue creation flag: open an existing named queue.
pub const QUEUE_FLAG_OPEN_EXISTING: u32 = 1;

/// Request-queue creation flag: create the queue as its controller.
pub const QUEUE_FLAG_CONTROLLER: u32 = 2;

/// Response-send flag: drop the connection after this send.
pub const SEND_FLAG_DISCONNECT: u32 = 0x1;

/// Response-send flag: more body data follows this send.
pub const SEND_FLAG_MORE_DATA: u32 = 0x2;

/// Response-send flag: mark the connection opaque for protocol upgrade.
pub const SEND_FLAG_OPAQUE: u32 = 0x40;

/// URL-group flag: remove every registered URL at once.
pub const URL_FLAG_REMOVE_ALL: u32 = 1;

/// Number of known-header slots in a response header block.
pub const RESPONSE_HEADER_SLOTS: usize = 30;

/// Number of known-header slots in a request header block.
pub const REQUEST_HEADER_SLOTS: usize = 41;

/// Known-header slot of `WWW-Authenticate`; multiple values in this slot
/// must keep their order when delivered.
pub const HEADER_WWW_AUTHENTICATE: u16 = 29;

/// Known-header slot of `Content-Length`.
pub const HEADER_CONTENT_LENGTH: u16 = 11;

/// Flag on a multi-value header block asking the kernel to keep the values
/// in the order given.
pub const MULTI_HEADER_PRESERVE_ORDER: u32 = 1;

/// Authentication scheme bit: NTLM.
pub const AUTH_ENABLE_NTLM: u32 = 0x4;

/// Authentication scheme bit: Negotiate.
pub const AUTH_ENABLE_NEGOTIATE: u32 = 0x8;

/// Authentication scheme bit: Kerberos.
pub const AUTH_ENABLE_KERBEROS: u32 = 0x10;

/// Extended-authentication bit: cache Kerberos credentials.
pub const AUTH_EX_CACHE_CREDENTIALS: u8 = 0x1;

/// Extended-authentication bit: capture the caller's credential.
pub const AUTH_EX_CAPTURE_CREDENTIALS: u8 = 0x2;

/// Request flag bit: more entity body follows the header block.
pub const REQUEST_FLAG_MORE_ENTITY_BODY: u32 = 0x1;

/// Request flag bit: the request arrived over HTTP/2.
pub const REQUEST_FLAG_HTTP2: u32 = 0x4;

} // verus!
