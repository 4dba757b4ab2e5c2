//! What the source runs with, and the checks that come before a request is read.
use crate::codec::gunzip;
use crate::compression::Compression;
use crate::config::{
    DeserializerConfig, FramingConfig, LogNamespace, SocketAddress, TlsEnableableConfig,
};
use crate::exchange::{Exchange, FirehoseRequest};
use crate::reply::{Reply, RequestError};
use crate::text::same_text;
use vstd::prelude::*;

verus! {

/// What a running source was given by its configuration.
pub struct Service<'a> {
    pub address: SocketAddress,
    pub tls: Option<&'a TlsEnableableConfig>,
    pub tls_for_server: bool,
    pub framing: &'a FramingConfig,
    pub decoding: &'a DeserializerConfig,
    pub log_namespace: LogNamespace,
    pub access_key: Option<String>,
    pub record_compression: Compression,
    pub acknowledgements: bool,
}

/// The characters of a text that may be absent.
pub open spec fn optional_text(text: Option<&str>) -> Option<Seq<char>> {
    match text {
        Some(text) => Some(text@),
        None => None,
    }
}

/// Whether a request that presents this access key may go on. With no key configured every request
/// may; else only one that presents the same key.
pub open spec fn authentication(
    configured: Option<Seq<char>>,
    presented: Option<Seq<char>>,
) -> Result<(), RequestError> {
    match (configured, presented) {
        (None, _) => Ok(()),
        (Some(_), None) => Err(RequestError::AccessKeyMissing),
        (Some(key), Some(other)) => if key == other {
            Ok(())
        } else {
            Err(RequestError::AccessKeyInvalid)
        },
    }
}

/// The body of a request without its content encoding, given what decompressing it gives (`None`
/// where it does not decompress).
pub open spec fn plain_body(
    content_encoding: Option<Seq<char>>,
    body: Seq<u8>,
    decompressed: Option<Seq<u8>>,
) -> Result<Seq<u8>, RequestError> {
    match content_encoding {
        None => Ok(body),
        Some(encoding) => if encoding != "gzip"@ {
            Err(RequestError::UnsupportedEncoding)
        } else {
            match decompressed {
                Some(plain) => Ok(plain),
                None => Err(RequestError::MalformedBody),
            }
        },
    }
}

/// The model of a body: its bytes, or why there are none.
pub open spec fn body_outcome(result: Result<Vec<u8>, RequestError>) -> Result<
    Seq<u8>,
    RequestError,
> {
    match result {
        Ok(bytes) => Ok(bytes@),
        Err(error) => Err(error),
    }
}

/// The body of a request without its content encoding, once it is known what decompressing it
/// gave.
pub fn select_body(
    content_encoding: Option<&str>,
    body: Vec<u8>,
    decompressed: Option<Vec<u8>>,
) -> (result: Result<Vec<u8>, RequestError>)
    ensures
        body_outcome(result) == plain_body(
            optional_text(content_encoding),
            body@,
            match decompressed {
                Some(plain) => Some(plain@),
                None => None,
            },
        ),
        content_encoding is None ==> (result matches Ok(kept) && kept@ == body@),
        content_encoding matches Some(encoding) ==> encoding@ != "gzip"@ ==> (result matches Err(
            error,
        ) && error == RequestError::UnsupportedEncoding),
        content_encoding matches Some(encoding) ==> encoding@ == "gzip"@ ==> match decompressed {
            Some(plain) => result matches Ok(given) && given@ == plain@,
            None => result matches Err(error) && error == RequestError::MalformedBody,
        },
{
    match content_encoding {
        None => Ok(body),
        Some(encoding) => if !same_text(encoding, "gzip") {
            Err(RequestError::UnsupportedEncoding)
        } else {
            match decompressed {
                Some(plain) => Ok(plain),
                None => Err(RequestError::MalformedBody),
            }
        },
    }
}

/// Takes the content encoding off the body of a request: `gzip`, or none.
pub fn decode_body(content_encoding: Option<&str>, body: Vec<u8>) -> (result: Result<
    Vec<u8>,
    RequestError,
>)
    ensures
        body_outcome(result) == plain_body(
            optional_text(content_encoding),
            body@,
            crate::codec::gunzipped(body@),
        ),
        content_encoding is None ==> (result matches Ok(kept) && kept@ == body@),
        content_encoding matches Some(encoding) ==> encoding@ != "gzip"@ ==> (result matches Err(
            error,
        ) && error == RequestError::UnsupportedEncoding),
        content_encoding matches Some(encoding) ==> encoding@ == "gzip"@ ==> match
            crate::codec::gunzipped(body@) {
            Some(plain) => result matches Ok(given) && given@ == plain,
            None => result matches Err(error) && error == RequestError::MalformedBody,
        },
{
    let compressed = match content_encoding {
        Some(encoding) => same_text(encoding, "gzip"),
        None => false,
    };
    let decompressed = if compressed {
        match gunzip(body.as_slice()) {
            Ok(plain) => Some(plain),
            Err(_) => None,
        }
    } else {
        None
    };
    select_body(content_encoding, body, decompressed)
}

impl<'a> Service<'a> {
    /// The access key that requests are held to.
    pub open spec fn key(&self) -> Option<Seq<char>> {
        match self.access_key {
            Some(key) => Some(key@),
            None => None,
        }
    }

    /// Holds the access key that a request presents against the configured one.
    pub fn authenticate(&self, access_key: Option<&str>) -> (result: Result<(), RequestError>)
        ensures
            result == authentication(self.key(), optional_text(access_key)),
            result is Ok <==> (self.access_key matches Some(key) ==> (access_key matches Some(own)
                && own@ == key@)),
            result matches Err(error) ==> (access_key is None <==> error
                == RequestError::AccessKeyMissing),
            result matches Err(error) ==> (access_key is Some <==> error
                == RequestError::AccessKeyInvalid),
    {
        match &self.access_key {
            None => Ok(()),
            Some(key) => match access_key {
                None => Err(RequestError::AccessKeyMissing),
                Some(other) => if same_text(key.as_str(), other) {
                    Ok(())
                } else {
                    Err(RequestError::AccessKeyInvalid)
                },
            },
        }
    }

    /// Lets a request in, or answers it: first its access key is checked, then its body is taken
    /// out of the content encoding. The body is not looked at where the key is refused.
    pub fn receive(
        &self,
        request_id: &str,
        access_key: Option<&str>,
        content_encoding: Option<&str>,
        body: Vec<u8>,
    ) -> (result: Result<Vec<u8>, Reply>)
        ensures
            match authentication(self.key(), optional_text(access_key)) {
                Err(error) => result matches Err(reply) && reply.answers(request_id@, Err(error)),
                Ok(()) => match plain_body(
                    optional_text(content_encoding),
                    body@,
                    crate::codec::gunzipped(body@),
                ) {
                    Err(error) => result matches Err(reply) && reply.answers(
                        request_id@,
                        Err(error),
                    ),
                    Ok(plain) => result matches Ok(bytes) && bytes@ == plain,
                },
            },
            result matches Err(reply) ==> reply.request_id@ == request_id@,
            !(self.access_key matches Some(key) ==> (access_key matches Some(own) && own@ == key@))
                ==> (result matches Err(reply) && reply.status == 401 && (access_key is None
                <==> reply.error == Some(RequestError::AccessKeyMissing)) && (access_key is Some
                <==> reply.error == Some(RequestError::AccessKeyInvalid))),
            (self.access_key matches Some(key) ==> (access_key matches Some(own) && own@ == key@))
                ==> {
                &&& content_encoding is None ==> (result matches Ok(kept) && kept@ == body@)
                &&& content_encoding matches Some(encoding) ==> encoding@ == "gzip"@ ==> (
                match crate::codec::gunzipped(body@) {
                    Some(plain) => result matches Ok(given) && given@ == plain,
                    None => result matches Err(reply) && reply.status == 400 && reply.error == Some(
                        RequestError::MalformedBody,
                    ),
                })
                &&& content_encoding matches Some(encoding) ==> encoding@ != "gzip"@ ==> (
                result matches Err(reply) && reply.status == 400 && reply.error == Some(
                    RequestError::UnsupportedEncoding,
                ))
            },
    {
        match self.authenticate(access_key) {
            Err(error) => Err(Reply::new(request_id, Err(error))),
            Ok(()) => match decode_body(content_encoding, body) {
                Err(error) => Err(Reply::new(request_id, Err(error))),
                Ok(plain) => Ok(plain),
            },
        }
    }
}

impl<'a> Service<'a> {
    /// Takes up a request that was let in, to be worked on as the source is configured. The id and
    /// the stream's name are those of the request's headers.
    pub fn open(
        &self,
        request_id: String,
        source_arn: String,
        request: FirehoseRequest,
    ) -> (exchange: Exchange)
        ensures
            exchange@.fresh(),
            exchange@.request_id == request_id@,
            exchange@.source_arn == source_arn@,
            exchange@.timestamp == request.timestamp,
            exchange@.records == crate::exchange::texts(request.records@),
            exchange@.compression == self.record_compression,
            exchange@.acknowledgements == self.acknowledgements,
            exchange@.position == 0,
            exchange@.verdict is None,
            exchange@.records.len() == request.records@.len(),
            forall|i: int|
                0 <= i < request.records@.len() ==> #[trigger] exchange@.records[i]
                    == request.records@[i].data@,
    {
        Exchange::new(
            request_id,
            source_arn,
            request,
            self.record_compression,
            self.acknowledgements,
        )
    }
}

/// With no access key configured every request is let in. With one configured, a request is let in
/// if and only if it presents that very key; the others are answered 401.
pub proof fn law_access_key_guards_requests(
    configured: Option<Seq<char>>,
    presented: Option<Seq<char>>,
)
    ensures
        authentication(configured, presented) is Ok <==> configured is None || presented
            == configured,
        authentication(configured, presented) matches Err(error) ==> error.code() == 401,
{
}

/// A body comes out of its content encoding whole: without one it is kept, whatever it holds, and
/// under gzip it is all that it decompresses to, however long that is.
pub proof fn law_body_is_read_whole(body: Seq<u8>, decompressed: Option<Seq<u8>>)
    ensures
        plain_body(None, body, decompressed) == Ok::<Seq<u8>, RequestError>(body),
        decompressed matches Some(plain) ==> plain_body(Some("gzip"@), body, decompressed) == Ok::<
            Seq<u8>,
            RequestError,
        >(plain),
        decompressed is None ==> plain_body(Some("gzip"@), body, decompressed) == Err::<
            Seq<u8>,
            RequestError,
        >(RequestError::MalformedBody),
{
}

/// A content encoding other than gzip is refused, whatever the body.
pub proof fn law_other_encodings_are_refused(
    encoding: Seq<char>,
    body: Seq<u8>,
    decompressed: Option<Seq<u8>>,
)
    ensures
        encoding != "gzip"@ <==> plain_body(Some(encoding), body, decompressed) == Err::<
            Seq<u8>,
            RequestError,
        >(RequestError::UnsupportedEncoding),
{
}

/// A source lets in the key that it was configured with, whatever that key is, and no other; with
/// none configured it lets in every request.
pub proof fn law_source_lets_its_own_key_in(
    config: crate::config::AwsKinesisFirehoseConfig,
    service: Service<'_>,
    presented: Option<Seq<char>>,
)
    requires
        service.key() == crate::config::key_text(config.access_key),
    ensures
        config.access_key matches Some(key) ==> (service.access_key matches Some(text) && text@
            == key@),
        config.access_key matches Some(key) ==> (authentication(service.key(), presented) is Ok
            <==> presented == Some(key@)),
        config.access_key is None ==> authentication(service.key(), presented) is Ok,
        authentication(service.key(), presented) matches Err(error) ==> (error
            is AccessKeyMissing <==> presented is None) && (error is AccessKeyInvalid
            <==> presented is Some),
{
}

/// Texts and bodies are modelled by what they hold.
pub proof fn law_models_hold_what_is_there(
    service: Service<'_>,
    text: Option<&str>,
    result: Result<Vec<u8>, RequestError>,
)
    ensures
        text matches Some(held) ==> optional_text(text) == Some(held@),
        text is None <==> optional_text(text) is None,
        service.access_key matches Some(key) ==> service.key() == Some(key@),
        service.access_key is None <==> service.key() is None,
        result matches Ok(bytes) ==> body_outcome(result) == Ok::<Seq<u8>, RequestError>(bytes@),
        result matches Err(error) ==> body_outcome(result) == Err::<Seq<u8>, RequestError>(error),
{
}


} // verus!
