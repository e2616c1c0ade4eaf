//! Greeting validation.
//!
//! On connect the server sends one unsolicited ASCII greeting that must
//! begin with `OK MPD`; a client must reject anything else before issuing
//! a command.

use vstd::prelude::*;
use crate::error::ConnectError;

verus! {

/// `p` is an initial segment of the byte sequence `l`.
pub open spec fn is_byte_prefix(p: Seq<u8>, l: Seq<u8>) -> bool {
    p.len() <= l.len() && l.subrange(0, p.len() as int) == p
}

/// The bytes of the literal greeting prefix `OK MPD`.
pub open spec fn greeting_prefix() -> Seq<u8> {
    seq!['O' as u8, 'K' as u8, ' ' as u8, 'M' as u8, 'P' as u8, 'D' as u8]
}

/// Accepts a greeting exactly when it starts with `OK MPD`. The caller
/// hands in whatever bytes the first read yielded; on `false` the
/// connection must be abandoned with a handshake failure.
pub fn check_greeting(greeting: &Vec<u8>) -> (r: bool)
    ensures
        r == is_byte_prefix(greeting_prefix(), greeting@),
{
    if greeting.len() < 6 {
        return false;
    }
    let ok = greeting[0] == 'O' as u8 && greeting[1] == 'K' as u8 && greeting[2] == ' ' as u8
        && greeting[3] == 'M' as u8 && greeting[4] == 'P' as u8 && greeting[5] == 'D' as u8;
    proof {
        if ok {
            assert(greeting@.subrange(0, 6) =~= greeting_prefix());
        } else {
            assert(greeting@.subrange(0, 6) != greeting_prefix());
        }
    }
    ok
}

/// Validates the handshake: exactly the greetings that start with
/// `OK MPD` pass; every other greeting is a handshake failure, and no
/// command may be sent on that connection.
pub fn validate_greeting(greeting: &Vec<u8>) -> (r: Result<(), ConnectError>)
    ensures
        r is Ok <==> is_byte_prefix(greeting_prefix(), greeting@),
        r is Err ==> r->Err_0 == ConnectError::HandshakeFailed,
{
    if check_greeting(greeting) {
        Ok(())
    } else {
        Err(ConnectError::HandshakeFailed)
    }
}

} // verus!
