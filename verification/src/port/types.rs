use crate::packet::has_header;
use crate::packet::PacketView;
use vstd::prelude::*;

verus! {

/// Whatever serves a request and returns the bytes of the response's payload.
pub trait Handler {
    fn handle(&self, input: PacketView) -> Vec<u8>
        requires
            has_header(input.wire()),
    ;
}

} // verus!
