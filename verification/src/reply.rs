//! Reply framing: the ten-byte frame sent back to the client after
//! the request stage. The bound address reported is the all-zero
//! IPv4 placeholder with port zero; only the reply code varies.

use vstd::prelude::*;

use crate::wire::{reply_byte, reply_code_byte, ReplyCode, ATYP_IPV4, RESERVED, SOCKS_VERSION};

verus! {

/// The reply frame carrying a reply code: version, code, reserved,
/// then the placeholder IPv4 bound address and port.
pub open spec fn reply_frame(c: ReplyCode) -> Seq<u8> {
    seq![SOCKS_VERSION, reply_byte(c), RESERVED, ATYP_IPV4, 0u8, 0u8, 0u8, 0u8, 0u8, 0u8]
}

/// Serializes the reply frame for a reply code.
pub fn encode_reply(c: ReplyCode) -> (w: Vec<u8>)
    ensures
        w@ == reply_frame(c),
{
    let mut w: Vec<u8> = Vec::new();
    w.push(SOCKS_VERSION);
    w.push(reply_code_byte(c));
    w.push(RESERVED);
    w.push(ATYP_IPV4);
    w.push(0);
    w.push(0);
    w.push(0);
    w.push(0);
    w.push(0);
    w.push(0);
    proof {
        assert(w@ =~= reply_frame(c));
    }
    w
}

} // verus!
