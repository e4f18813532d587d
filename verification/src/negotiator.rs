//! Method selection, the first step of the exchange: the client offers
//! authentication methods and the proxy picks one, or none.

use crate::model::{AuthMethod, HandshakeError, HandshakeOutcome, HandshakeResult};
use crate::wire::VERSION;
use vstd::prelude::*;

verus! {

/// The most methods one offer can hold: their count travels in one byte.
pub const MAX_METHODS: usize = 255;

/// The length of a method-selection reply.
pub const METHOD_REPLY_LEN: usize = 2;

/// The method code by which a proxy says that it accepts none of the offer.
pub const NO_ACCEPTABLE_METHOD: u8 = 0xFF;

/// Whether `methods` can be offered: at least one method, and no more than
/// the count byte can tell.
pub open spec fn valid_offer(methods: Seq<AuthMethod>) -> bool {
    1 <= methods.len() <= MAX_METHODS
}

/// The method-selection request that offers `methods`: the version, the
/// number of methods, then the code of each method in the order offered.
pub open spec fn method_request(methods: Seq<AuthMethod>) -> Seq<u8>
    recommends
        valid_offer(methods),
{
    seq![VERSION, methods.len() as u8] + methods.map_values(|m: AuthMethod| m.spec_code())
}

/// What a method-selection reply means.
///
/// A reply that is not two bytes long did not arrive whole. One that does
/// not open with the version does not follow the protocol. The proxy has
/// agreed when it names no authentication; any other choice, the one that
/// says "none acceptable" among them, is a rejection.
pub open spec fn method_reply_outcome(reply: Seq<u8>) -> HandshakeResult<HandshakeOutcome> {
    if reply.len() != METHOD_REPLY_LEN {
        Err(HandshakeError::TransportError)
    } else if reply[0] != VERSION {
        Err(HandshakeError::ProtocolViolation)
    } else if reply[1] == AuthMethod::NoAuthentication.spec_code() {
        Ok(HandshakeOutcome::Negotiated(AuthMethod::NoAuthentication))
    } else {
        Ok(HandshakeOutcome::Rejected)
    }
}

/// Tells whether `methods` can be offered.
pub fn offer_is_valid(methods: &[AuthMethod]) -> (valid: bool)
    ensures
        valid == valid_offer(methods@),
{
    1 <= methods.len() && methods.len() <= MAX_METHODS
}

/// Encodes the method-selection request that offers `methods`.
pub fn encode_method_request(methods: &[AuthMethod]) -> (request: Vec<u8>)
    requires
        valid_offer(methods@),
    ensures
        request@ == method_request(methods@),
{
    let count: usize = methods.len();
    let mut request: Vec<u8> = Vec::new();
    request.push(VERSION);
    request.push(count as u8);
    let mut i: usize = 0;
    while i < count
        invariant
            count == methods@.len(),
            i <= count,
            request@ == method_request(methods@).subrange(0, 2 + i),
        decreases count - i,
    {
        request.push(methods[i].code());
        i += 1;
    }
    request
}

/// Decodes a method-selection reply.
pub fn parse_method_reply(reply: &[u8]) -> (outcome: HandshakeResult<HandshakeOutcome>)
    ensures
        outcome == method_reply_outcome(reply@),
{
    if reply.len() != METHOD_REPLY_LEN {
        return Err(HandshakeError::TransportError);
    }
    if reply[0] != VERSION {
        return Err(HandshakeError::ProtocolViolation);
    }
    if reply[1] == AuthMethod::NoAuthentication.code() {
        Ok(HandshakeOutcome::Negotiated(AuthMethod::NoAuthentication))
    } else {
        Ok(HandshakeOutcome::Rejected)
    }
}

/// A method-selection request is two bytes longer than its offer. It opens
/// with the version and the number of methods; the rest is the offer, code
/// by code, in order.
pub proof fn method_request_layout(methods: Seq<AuthMethod>)
    requires
        valid_offer(methods),
    ensures
        method_request(methods).len() == 2 + methods.len(),
        method_request(methods)[0] == 0x05,
        method_request(methods)[1] == methods.len(),
        forall|i: int|
            0 <= i < methods.len() ==> #[trigger] method_request(methods)[2 + i]
                == methods[i].spec_code(),
{
}

/// Of the replies of two bytes, `[0x05, 0x00]` is agreement and the only
/// one. Any other that opens with the version is a rejection, the one that
/// says "none acceptable" among them. One that does not open with the
/// version is a protocol violation, whatever follows.
pub proof fn method_reply_cases(reply: Seq<u8>)
    requires
        reply.len() == 2,
    ensures
        method_reply_outcome(reply) is Ok <==> reply[0] == 0x05,
        method_reply_outcome(reply) is Err <==> method_reply_outcome(reply) == Err::<
            HandshakeOutcome,
            HandshakeError,
        >(HandshakeError::ProtocolViolation),
        (method_reply_outcome(reply) matches Ok(HandshakeOutcome::Negotiated(_))) <==> reply
            == seq![0x05u8, 0x00u8],
        reply == seq![0x05u8, 0x00u8] ==> method_reply_outcome(reply) == Ok::<
            HandshakeOutcome,
            HandshakeError,
        >(HandshakeOutcome::Negotiated(AuthMethod::NoAuthentication)),
        reply == seq![0x05u8, NO_ACCEPTABLE_METHOD] ==> method_reply_outcome(reply) == Ok::<
            HandshakeOutcome,
            HandshakeError,
        >(HandshakeOutcome::Rejected),
{
    if method_reply_outcome(reply) matches Ok(HandshakeOutcome::Negotiated(_)) {
        assert(reply =~= seq![0x05u8, 0x00u8]);
    }
}

} // verus!
