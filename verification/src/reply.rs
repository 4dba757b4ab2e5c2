//! How a request is answered.
use crate::record::RecordDecodeError;
use vstd::prelude::*;

verus! {

/// Why a request is refused.
#[derive(Clone, Copy, Debug, PartialEq, Eq, Structural)]
pub enum RequestError {
    /// An access key is configured, and the request carries none.
    AccessKeyMissing,
    /// The request carries another access key than the configured one.
    AccessKeyInvalid,
    /// The body has a content encoding other than gzip.
    UnsupportedEncoding,
    /// The body cannot be read as a Firehose request.
    MalformedBody,
    /// A record cannot be decoded.
    Record(RecordDecodeError),
    /// Events of the request were delivered and rejected.
    DeliveryRejected,
}

impl RequestError {
    /// The HTTP status code of the refusal.
    pub open spec fn code(self) -> u16 {
        match self {
            RequestError::AccessKeyMissing => 401,
            RequestError::AccessKeyInvalid => 401,
            RequestError::UnsupportedEncoding => 400,
            RequestError::MalformedBody => 400,
            RequestError::Record(_) => 400,
            RequestError::DeliveryRejected => 406,
        }
    }

    /// The HTTP status code of the refusal.
    pub fn status(&self) -> (code: u16)
        ensures
            code == self.code(),
            self is AccessKeyMissing || self is AccessKeyInvalid <==> code == 401,
            self is UnsupportedEncoding || self is MalformedBody || self is Record <==> code == 400,
            self is DeliveryRejected <==> code == 406,
    {
        match self {
            RequestError::AccessKeyMissing => 401,
            RequestError::AccessKeyInvalid => 401,
            RequestError::UnsupportedEncoding => 400,
            RequestError::MalformedBody => 400,
            RequestError::Record(_) => 400,
            RequestError::DeliveryRejected => 406,
        }
    }
}

/// The answer to a request. Whatever it says, it carries the id of the request that it answers.
#[derive(Debug)]
pub struct Reply {
    pub status: u16,
    pub request_id: String,
    pub error: Option<RequestError>,
}

impl Reply {
    /// Whether this answers the request with the given id by the given verdict.
    pub open spec fn answers(
        &self,
        request_id: Seq<char>,
        verdict: Result<(), RequestError>,
    ) -> bool {
        &&& self.request_id@ == request_id
        &&& match verdict {
            Ok(()) => self.status == 200 && self.error is None,
            Err(error) => self.status == error.code() && self.error == Some(error),
        }
    }

    /// The answer to the request with the given id.
    pub fn new(request_id: &str, verdict: Result<(), RequestError>) -> (reply: Self)
        ensures
            reply.answers(request_id@, verdict),
            reply.request_id@ == request_id@,
            verdict is Ok <==> reply.status == 200,
            verdict is Ok <==> reply.error is None,
            verdict matches Err(error) ==> {
                &&& reply.error == Some(error)
                &&& error is AccessKeyMissing || error is AccessKeyInvalid <==> reply.status == 401
                &&& error is UnsupportedEncoding || error is MalformedBody || error is Record
                    <==> reply.status == 400
                &&& error is DeliveryRejected <==> reply.status == 406
            },
    {
        match verdict {
            Ok(()) => Reply { status: 200, request_id: request_id.to_owned(), error: None },
            Err(error) => Reply {
                status: error.status(),
                request_id: request_id.to_owned(),
                error: Some(error),
            },
        }
    }
}

/// The status tells success from refusal: it is 200 exactly where the request was accepted.
pub proof fn law_only_success_is_answered_with_200(
    reply: Reply,
    request_id: Seq<char>,
    verdict: Result<(), RequestError>,
)
    requires
        reply.answers(request_id, verdict),
    ensures
        reply.status == 200 <==> verdict is Ok,
        reply.error is None <==> verdict is Ok,
{
}

/// The status tells what kind of refusal it is: 401 over the access key, 406 over a rejected
/// delivery, and 400 over what was sent.
pub proof fn law_status_tells_refusals_apart(error: RequestError)
    ensures
        error.code() == 401 <==> error is AccessKeyMissing || error is AccessKeyInvalid,
        error.code() == 406 <==> error is DeliveryRejected,
        error.code() == 400 <==> error is UnsupportedEncoding || error is MalformedBody || error
            is Record,
{
}

/// An answer carries the id of its request and the verdict on it, whatever they are.
pub proof fn law_answer_carries_id_and_verdict(
    reply: Reply,
    request_id: Seq<char>,
    verdict: Result<(), RequestError>,
)
    requires
        reply.answers(request_id, verdict),
    ensures
        reply.request_id@ == request_id,
        verdict matches Err(error) ==> reply.error == Some(error),
        verdict matches Err(error) ==> (error is DeliveryRejected <==> reply.status == 406),
        verdict matches Err(error) ==> (error is AccessKeyMissing || error is AccessKeyInvalid
            <==> reply.status == 401),
        verdict matches Err(error) ==> reply.status == 400 || reply.status == 401 || reply.status
            == 406,
{
}


} // verus!
