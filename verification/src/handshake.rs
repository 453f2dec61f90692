//! Method negotiation: given the methods a client advertises, decide
//! whether the session can proceed and what the two-byte greeting
//! reply is.

use vstd::prelude::*;

use crate::wire::{METHOD_NO_ACCEPTABLE, METHOD_NO_AUTH, SOCKS_VERSION};

verus! {

/// The greeting reply owed to an advertised method list: the version
/// byte, then the selected method — no-authentication when it is
/// advertised, otherwise the none-acceptable marker.
pub open spec fn greeting_reply(methods: Seq<u8>) -> Seq<u8> {
    if methods.contains(METHOD_NO_AUTH) {
        seq![SOCKS_VERSION, METHOD_NO_AUTH]
    } else {
        seq![SOCKS_VERSION, METHOD_NO_ACCEPTABLE]
    }
}

/// Scans the advertised methods for no-authentication and builds the
/// greeting reply. Succeeds exactly when no-authentication is among
/// the advertised methods, whatever else they hold.
pub fn negotiate(methods: &Vec<u8>) -> (r: (bool, Vec<u8>))
    ensures
        r.0 == methods@.contains(METHOD_NO_AUTH),
        r.1@ == greeting_reply(methods@),
{
    let mut found = false;
    let mut i: usize = 0;
    while i < methods.len()
        invariant
            i <= methods@.len(),
            found == exists|j: int| 0 <= j < i && methods@[j] == METHOD_NO_AUTH,
        decreases methods@.len() - i,
    {
        if methods[i] == METHOD_NO_AUTH {
            found = true;
        }
        i += 1;
    }
    let mut reply: Vec<u8> = Vec::new();
    reply.push(SOCKS_VERSION);
    if found {
        reply.push(METHOD_NO_AUTH);
    } else {
        reply.push(METHOD_NO_ACCEPTABLE);
    }
    proof {
        assert(found == methods@.contains(METHOD_NO_AUTH));
        assert(reply@ =~= greeting_reply(methods@));
    }
    (found, reply)
}

} // verus!
