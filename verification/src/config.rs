//! The fixed settings of the service.

use vstd::prelude::*;

verus! {

/// How long a request waits for a connection from the pool, in seconds.
pub const CONNECT_TIMEOUT_SECONDS: u64 = 5;

/// The loopback address on which the service listens.
pub const LISTEN_ADDRESS: [u8; 4] = [127, 0, 0, 1];

/// The port on which the service listens.
pub const LISTEN_PORT: u16 = 8000;

} // verus!
