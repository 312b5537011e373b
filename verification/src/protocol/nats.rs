use crate::protocol::traits::Protocol;
use vstd::prelude::*;

verus! {

/// NATS protocol identifier
pub const PROTOCOL: &'static str = "nats";

/// Default NATS port
pub const DEFAULT_PORT: u16 = 4222;

/// The NATS protocol.
pub struct NatsProtocol;

impl Protocol for NatsProtocol {
    fn name() -> (name: &'static str)
        ensures
            name@ == "NATS"@,
    {
        "NATS"
    }

    fn identifier() -> (id: &'static str)
        ensures
            id@ == "nats"@,
    {
        PROTOCOL
    }
}

} // verus!
