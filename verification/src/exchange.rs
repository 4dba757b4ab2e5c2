//! One request from its records to its answer.
use crate::compression::Compression;
use crate::record::{decode_record, RecordDecodeError};
use crate::reply::{Reply, RequestError};
use vstd::prelude::*;

verus! {

/// A record of a request: base64 text.
#[derive(Debug)]
pub struct EncodedFirehoseRecord {
    pub data: String,
}

/// A request of Firehose. Its timestamp is in milliseconds since the Unix epoch.
#[derive(Debug)]
pub struct FirehoseRequest {
    pub request_id: String,
    pub timestamp: i64,
    pub records: Vec<EncodedFirehoseRecord>,
}

/// What became of events that were handed on.
#[derive(Clone, Copy, Debug, PartialEq, Eq, Structural)]
pub enum DeliveryStatus {
    Delivered,
    Rejected,
}

/// A log event of the source.
#[derive(Debug)]
pub struct LogEvent {
    pub source_type: String,
    pub timestamp: i64,
    pub message: Vec<u8>,
    pub request_id: String,
    pub source_arn: String,
}

/// What to do next about a request.
#[derive(Debug)]
pub enum Step {
    /// The bytes of the next record: make events of them and hand those on.
    Forward(Vec<u8>),
    /// Nothing is left to do but to answer.
    Answer(Reply),
}

/// The messages of a record under the default framing and decoding: the whole of it is one message,
/// even where it is empty.
pub fn message_based(record: Vec<u8>) -> (messages: Vec<Vec<u8>>)
    ensures
        messages@ == seq![record],
{
    let mut messages = Vec::new();
    messages.push(record);
    messages
}

/// A request that is being worked on.
pub struct Exchange {
    request_id: String,
    source_arn: String,
    timestamp: i64,
    records: Vec<EncodedFirehoseRecord>,
    compression: Compression,
    acknowledgements: bool,
    position: usize,
    verdict: Option<Result<(), RequestError>>,
}

/// The model of an exchange: what was asked for, how many of its records were given out, and the
/// verdict once there is one.
#[verifier::ext_equal]
pub struct Progress {
    pub request_id: Seq<char>,
    pub source_arn: Seq<char>,
    pub timestamp: i64,
    pub records: Seq<Seq<char>>,
    pub compression: Compression,
    pub acknowledgements: bool,
    pub position: nat,
    pub verdict: Option<Result<(), RequestError>>,
}

/// The model of a step: the bytes of a record, or the verdict.
pub enum Turn {
    Forward(Seq<u8>),
    Answer(Result<(), RequestError>),
}

/// The texts of a request's records.
pub open spec fn texts(records: Seq<EncodedFirehoseRecord>) -> Seq<Seq<char>> {
    Seq::new(records.len(), |i: int| records[i].data@)
}

impl Progress {
    /// No more records are given out than there are.
    pub open spec fn valid(self) -> bool {
        self.position <= self.records.len()
    }

    /// Whether there is a record to be given out: the request has no verdict, and records are left.
    pub open spec fn has_next_record(self) -> bool {
        self.verdict is None && self.position < self.records.len()
    }

    /// The step that follows from what decoding the next record gave, and the progress after it.
    pub open spec fn took(self, record: Result<Seq<u8>, RecordDecodeError>) -> (Turn, Progress) {
        match record {
            Ok(bytes) => (
                Turn::Forward(bytes),
                Progress { position: self.position + 1, ..self },
            ),
            Err(error) => (
                Turn::Answer(Err(RequestError::Record(error))),
                Progress { verdict: Some(Err(RequestError::Record(error))), ..self },
            ),
        }
    }

    /// The next step, and the progress after it: a verdict stands; without one the next record is
    /// decoded, and where none is left the request is accepted.
    pub open spec fn advanced(self) -> (Turn, Progress) {
        match self.verdict {
            Some(verdict) => (Turn::Answer(verdict), self),
            None => if self.position >= self.records.len() {
                (Turn::Answer(Ok(())), Progress { verdict: Some(Ok(())), ..self })
            } else {
                self.took(
                    crate::record::decoded(self.records[self.position as int], self.compression),
                )
            },
        }
    }

    /// The progress once it is known what became of the events of a record. A rejection refuses
    /// the request where deliveries are acknowledged, and counts for nothing where they are not.
    pub open spec fn settled(self, status: DeliveryStatus) -> Progress {
        if self.verdict is None && self.acknowledgements && status == DeliveryStatus::Rejected {
            Progress { verdict: Some(Err(RequestError::DeliveryRejected)), ..self }
        } else {
            self
        }
    }
}

impl View for Exchange {
    type V = Progress;

    closed spec fn view(&self) -> Progress {
        Progress {
            request_id: self.request_id@,
            source_arn: self.source_arn@,
            timestamp: self.timestamp,
            records: texts(self.records@),
            compression: self.compression,
            acknowledgements: self.acknowledgements,
            position: self.position as nat,
            verdict: self.verdict,
        }
    }
}

impl Step {
    /// Whether this is the step of the given turn, in work on the request with the given id.
    pub open spec fn takes(&self, turn: Turn, request_id: Seq<char>) -> bool {
        match turn {
            Turn::Forward(bytes) => self matches Step::Forward(given) && given@ == bytes,
            Turn::Answer(verdict) => self matches Step::Answer(reply) && reply.answers(
                request_id,
                verdict,
            ),
        }
    }
}

impl LogEvent {
    /// Whether this is the event of a message of the given request.
    pub open spec fn reports(&self, message: Seq<u8>, request: Progress) -> bool {
        &&& self.source_type@ == "aws_kinesis_firehose"@
        &&& self.timestamp == request.timestamp
        &&& self.message@ == message
        &&& self.request_id@ == request.request_id
        &&& self.source_arn@ == request.source_arn
    }
}

impl Exchange {
    /// Takes up a request. The id is that of the request's header, which answers and events carry.
    pub fn new(
        request_id: String,
        source_arn: String,
        request: FirehoseRequest,
        compression: Compression,
        acknowledgements: bool,
    ) -> (exchange: Self)
        ensures
            exchange@ == (Progress {
                request_id: request_id@,
                source_arn: source_arn@,
                timestamp: request.timestamp,
                records: texts(request.records@),
                compression,
                acknowledgements,
                position: 0,
                verdict: None,
            }),
            exchange@.records.len() == request.records@.len(),
            forall|i: int|
                0 <= i < request.records@.len() ==> #[trigger] exchange@.records[i]
                    == request.records@[i].data@,
    {
        Exchange {
            request_id,
            source_arn,
            timestamp: request.timestamp,
            records: request.records,
            compression,
            acknowledgements,
            position: 0,
            verdict: None,
        }
    }

    /// What to do next.
    pub fn next(&mut self) -> (step: Step)
        ensures
            final(self)@ == old(self)@.advanced().1,
            step.takes(old(self)@.advanced().0, old(self)@.request_id),
            final(self)@.request_id == old(self)@.request_id,
            final(self)@.source_arn == old(self)@.source_arn,
            final(self)@.timestamp == old(self)@.timestamp,
            final(self)@.records == old(self)@.records,
            final(self)@.compression == old(self)@.compression,
            final(self)@.acknowledgements == old(self)@.acknowledgements,
            step is Forward ==> old(self)@.verdict is None && final(self)@.verdict is None
                && final(self)@.position == old(self)@.position + 1,
            step is Answer ==> final(self)@.verdict is Some && final(self)@.position
                == old(self)@.position,
            old(self)@.verdict is Some ==> step is Answer && final(self)@.verdict
                == old(self)@.verdict,
            old(self)@.verdict is None ==> (final(self)@.verdict == Some(
                Ok::<(), RequestError>(()),
            ) <==> old(self)@.position >= old(self)@.records.len()),
            step matches Step::Answer(reply) ==> {
                &&& reply.request_id@ == old(self)@.request_id
                &&& reply.status == 200 <==> final(self)@.verdict->0 is Ok
                &&& match final(self)@.verdict {
                    Some(Err(error)) => reply.error == Some(error) && (error is Record
                        ==> reply.status == 400) && (error is DeliveryRejected ==> reply.status
                        == 406),
                    _ => reply.error is None,
                }
            },
            old(self)@.verdict is None && old(self)@.position < old(self)@.records.len() ==> (
            match crate::codec::base64_bytes(old(self)@.records[old(self)@.position as int]) {
                None => step is Answer && final(self)@.verdict == Some(
                    Err::<(), RequestError>(RequestError::Record(RecordDecodeError::Base64)),
                ),
                Some(bytes) => {
                    let compression = old(self)@.compression;
                    &&& bytes.len() == 0 || compression == Compression::Uncompressed ==> (
                    step matches Step::Forward(given) && given@ == bytes)
                    &&& bytes.len() > 0 && compression == Compression::Gzip ==> (
                    match crate::codec::gunzipped(bytes) {
                        Some(plain) => step matches Step::Forward(given) && given@ == plain,
                        None => step is Answer && final(self)@.verdict == Some(
                            Err::<(), RequestError>(
                                RequestError::Record(
                                    RecordDecodeError::Decompression { compression },
                                ),
                            ),
                        ),
                    })
                    &&& compression == Compression::Auto ==> (
                    match crate::codec::gunzipped(bytes) {
                        Some(plain) if bytes.len() >= 3 && bytes[0] == 0x1f && bytes[1] == 0x8b
                            && bytes[2] == 0x08 => step matches Step::Forward(given) && given@
                            == plain,
                        _ => step matches Step::Forward(given) && given@ == bytes,
                    })
                },
            }),
    {
        match self.verdict {
            Some(verdict) => Step::Answer(Reply::new(self.request_id.as_str(), verdict)),
            None => if self.position >= self.records.len() {
                self.verdict = Some(Ok(()));
                Step::Answer(Reply::new(self.request_id.as_str(), Ok(())))
            } else {
                let data = self.records[self.position].data.as_str();
                let record = decode_record(data, self.compression);
                self.take_record(record)
            },
        }
    }

    /// What to do next, once it is known what decoding the next record gave: a record that decodes
    /// is given out, and one that does not refuses the request.
    pub fn take_record(&mut self, record: Result<Vec<u8>, RecordDecodeError>) -> (step: Step)
        requires
            old(self)@.has_next_record(),
        ensures
            final(self)@ == old(self)@.took(crate::record::outcome(record)).1,
            step.takes(
                old(self)@.took(crate::record::outcome(record)).0,
                old(self)@.request_id,
            ),
            final(self)@.request_id == old(self)@.request_id,
            final(self)@.source_arn == old(self)@.source_arn,
            final(self)@.timestamp == old(self)@.timestamp,
            final(self)@.records == old(self)@.records,
            final(self)@.compression == old(self)@.compression,
            final(self)@.acknowledgements == old(self)@.acknowledgements,
            record matches Ok(bytes) ==> {
                &&& step matches Step::Forward(given) && given@ == bytes@
                &&& final(self)@.position == old(self)@.position + 1
                &&& final(self)@.verdict is None
            },
            record matches Err(error) ==> {
                &&& step matches Step::Answer(reply) && reply.request_id@ == old(self)@.request_id
                    && reply.status == 400 && reply.error == Some(RequestError::Record(error))
                &&& final(self)@.position == old(self)@.position
                &&& final(self)@.verdict == Some(
                    Err::<(), RequestError>(RequestError::Record(error)),
                )
            },
    {
        match record {
            Ok(bytes) => {
                assert(self.position < self.records.len());
                self.position = self.position + 1;
                Step::Forward(bytes)
            },
            Err(error) => {
                let verdict = Err(RequestError::Record(error));
                self.verdict = Some(verdict);
                Step::Answer(Reply::new(self.request_id.as_str(), verdict))
            },
        }
    }

    /// Takes note of what became of the events of the record that was given out last.
    pub fn settle(&mut self, status: DeliveryStatus)
        ensures
            final(self)@ == old(self)@.settled(status),
            final(self)@.request_id == old(self)@.request_id,
            final(self)@.source_arn == old(self)@.source_arn,
            final(self)@.timestamp == old(self)@.timestamp,
            final(self)@.records == old(self)@.records,
            final(self)@.compression == old(self)@.compression,
            final(self)@.acknowledgements == old(self)@.acknowledgements,
            final(self)@.position == old(self)@.position,
            old(self)@.verdict is None && old(self)@.acknowledgements && status
                == DeliveryStatus::Rejected ==> final(self)@.verdict == Some(
                Err::<(), RequestError>(RequestError::DeliveryRejected),
            ),
            old(self)@.verdict is Some || !old(self)@.acknowledgements || status
                == DeliveryStatus::Delivered ==> final(self)@.verdict == old(self)@.verdict,
    {
        if self.verdict.is_none() && self.acknowledgements && status == DeliveryStatus::Rejected {
            self.verdict = Some(Err(RequestError::DeliveryRejected));
        }
    }

    /// Makes one event of each message that was found in a record, in their order.
    pub fn events(&self, messages: Vec<Vec<u8>>) -> (events: Vec<LogEvent>)
        ensures
            events@.len() == messages@.len(),
            forall|i: int|
                0 <= i < messages@.len() ==> (#[trigger] events@[i]).reports(messages@[i]@, self@),
            forall|i: int|
                0 <= i < messages@.len() ==> {
                    &&& (#[trigger] events@[i]).message@ == messages@[i]@
                    &&& events@[i].source_type@ == "aws_kinesis_firehose"@
                    &&& events@[i].timestamp == self@.timestamp
                    &&& events@[i].request_id@ == self@.request_id
                    &&& events@[i].source_arn@ == self@.source_arn
                },
    {
        let mut events: Vec<LogEvent> = Vec::new();
        for message in iter: messages
            invariant
                events@.len() == iter.index(),
                iter.seq() == messages@,
                forall|i: int|
                    0 <= i < events@.len() ==> (#[trigger] events@[i]).reports(
                        messages@[i]@,
                        self@,
                    ),
        {
            events.push(
                LogEvent {
                    source_type: "aws_kinesis_firehose".to_owned(),
                    timestamp: self.timestamp,
                    message,
                    request_id: self.request_id.clone(),
                    source_arn: self.source_arn.clone(),
                },
            );
        }
        events
    }
}

impl Progress {
    /// How a request ends whose records are delivered one after the other, `statuses[i]` being what
    /// becomes of the record at `i`: the records that were given out, and the verdict.
    pub open spec fn conclusion(self, statuses: Seq<DeliveryStatus>) -> (
        Seq<Seq<u8>>,
        Result<(), RequestError>,
    )
        decreases self.records.len() - self.position,
    {
        match self.advanced() {
            (Turn::Answer(verdict), _) => (Seq::empty(), verdict),
            (Turn::Forward(bytes), after) => {
                let (rest, verdict) = after.settled(statuses[self.position as int]).conclusion(
                    statuses,
                );
                (seq![bytes] + rest, verdict)
            },
        }
    }

    /// Whether the record at `i` decodes.
    pub open spec fn decodes(self, i: int) -> bool {
        crate::record::decoded(self.records[i], self.compression) is Ok
    }

    /// Whether this outcome of the delivery of a record lets the request go on.
    pub open spec fn tolerates(self, status: DeliveryStatus) -> bool {
        !self.acknowledgements || status == DeliveryStatus::Delivered
    }

    /// Whether all records decode, and every one of these outcomes of their deliveries lets the
    /// request go on.
    pub open spec fn succeeds(self, statuses: Seq<DeliveryStatus>) -> bool {
        forall|i: int|
            0 <= i < self.records.len() ==> #[trigger] self.decodes(i) && self.tolerates(
                statuses[i],
            )
    }

    /// Whether the request, as it was just taken up, has no verdict and no record given out.
    pub open spec fn fresh(self) -> bool {
        self.position == 0 && self.verdict is None
    }
}

/// What `conclusion` comes to from any point of a request.
proof fn lemma_conclusion(progress: Progress, statuses: Seq<DeliveryStatus>)
    requires
        progress.valid(),
        progress.verdict is None,
    ensures
        ({
            let (given, verdict) = progress.conclusion(statuses);
            let end = progress.position + given.len();
            &&& end <= progress.records.len()
            &&& forall|i: int|
                0 <= i < given.len() ==> crate::record::decoded(
                    progress.records[progress.position + i],
                    progress.compression,
                ) == Ok::<Seq<u8>, RecordDecodeError>(#[trigger] given[i])
            &&& forall|i: int|
                progress.position <= i < end - 1 ==> progress.tolerates(#[trigger] statuses[i])
            &&& match verdict {
                Ok(()) => end == progress.records.len() && (given.len() > 0 ==> progress.tolerates(
                    statuses[end - 1],
                )),
                Err(RequestError::DeliveryRejected) => given.len() > 0 && !progress.tolerates(
                    statuses[end - 1],
                ),
                Err(error) => end < progress.records.len() && (given.len() > 0
                    ==> progress.tolerates(statuses[end - 1])) && crate::record::decoded(
                    progress.records[end as int],
                    progress.compression,
                ) is Err && error == RequestError::Record(
                    crate::record::decoded(
                        progress.records[end as int],
                        progress.compression,
                    )->Err_0,
                ),
            }
        }),
    decreases progress.records.len() - progress.position,
{
    if let (Turn::Forward(bytes), after) = progress.advanced() {
        let next = after.settled(statuses[progress.position as int]);
        let (rest, verdict) = next.conclusion(statuses);
        let given = progress.conclusion(statuses).0;
        assert(given == seq![bytes] + rest);
        if next.verdict is None {
            lemma_conclusion(next, statuses);
            assert forall|i: int| 0 <= i < given.len() implies crate::record::decoded(
                progress.records[progress.position + i],
                progress.compression,
            ) == Ok::<Seq<u8>, RecordDecodeError>(#[trigger] given[i]) by {
                if i > 0 {
                    assert(given[i] == rest[i - 1]);
                }
            }
        } else {
            assert(next.advanced().0 is Answer);
        }
    }
}

/// A request is accepted if and only if all of its records decode and, where deliveries are
/// acknowledged, all of them are delivered.
pub proof fn law_accepted_if_all_is_delivered(request: Progress, statuses: Seq<DeliveryStatus>)
    requires
        request.fresh(),
    ensures
        request.conclusion(statuses).1 is Ok <==> request.succeeds(statuses),
{
    lemma_conclusion(request, statuses);
    let (given, verdict) = request.conclusion(statuses);
    if verdict is Ok {
        assert forall|i: int| 0 <= i < request.records.len() implies #[trigger] request.decodes(i)
            && request.tolerates(statuses[i]) by {
            assert(crate::record::decoded(request.records[0 + i], request.compression) == Ok::<
                Seq<u8>,
                RecordDecodeError,
            >(given[i]));
        }
    } else {
        let end = given.len() as int;
        if verdict->Err_0 is DeliveryRejected {
            assert(crate::record::decoded(request.records[end - 1], request.compression) == Ok::<
                Seq<u8>,
                RecordDecodeError,
            >(given[end - 1]));
            assert(request.decodes(end - 1) && !request.tolerates(statuses[end - 1]));
        } else {
            assert(!request.decodes(end));
        }
    }
}

/// The records of a request are handed on in their order, each decoded, from the first up to the
/// one that ends the request or to the last: none is left out, none is handed on twice, and none
/// after a verdict.
pub proof fn law_records_are_handed_on_in_order(request: Progress, statuses: Seq<DeliveryStatus>)
    requires
        request.fresh(),
    ensures
        request.conclusion(statuses).0.len() <= request.records.len(),
        request.conclusion(statuses).1 is Ok ==> request.conclusion(statuses).0.len()
            == request.records.len(),
        forall|i: int|
            0 <= i < request.conclusion(statuses).0.len() ==> crate::record::decoded(
                request.records[i],
                request.compression,
            ) == Ok::<Seq<u8>, RecordDecodeError>(
                #[trigger] request.conclusion(statuses).0[i],
            ),
{
    lemma_conclusion(request, statuses);
    let given = request.conclusion(statuses).0;
    assert forall|i: int| 0 <= i < given.len() implies crate::record::decoded(
        request.records[i],
        request.compression,
    ) == Ok::<Seq<u8>, RecordDecodeError>(#[trigger] given[i]) by {
        assert(request.records[0 + i] == request.records[i]);
    }
}

/// A request that is taken up is refused for the first thing that goes wrong, and the answer tells
/// which kind it was: 400 where the next record does not decode, 406 where the record that was
/// handed on last was rejected.
pub proof fn law_first_failure_is_answered(request: Progress, statuses: Seq<DeliveryStatus>)
    requires
        request.fresh(),
    ensures
        ({
            let (given, verdict) = request.conclusion(statuses);
            let last = given.len() - 1;
            &&& forall|i: int| 0 <= i < last ==> request.tolerates(#[trigger] statuses[i])
            &&& verdict matches Err(error) ==> {
                ||| error.code() == 400 && last + 1 < request.records.len() && !request.decodes(
                    last + 1,
                ) && (last >= 0 ==> request.tolerates(statuses[last]))
                ||| error.code() == 406 && last >= 0 && request.acknowledgements && statuses[last]
                    == DeliveryStatus::Rejected
            }
        }),
{
    lemma_conclusion(request, statuses);
    let (given, verdict) = request.conclusion(statuses);
    if verdict is Err && verdict != Err::<(), RequestError>(RequestError::DeliveryRejected) {
        assert(!request.decodes(given.len() as int));
    }
}

/// Work on a request changes nothing of what was asked for, and gives out no more records than
/// there are.
pub proof fn law_request_stays_as_it_was(progress: Progress, status: DeliveryStatus)
    requires
        progress.valid(),
    ensures
        progress.advanced().1.valid(),
        progress.settled(status).valid(),
        ({
            let same = |after: Progress|
                {
                    &&& after.request_id == progress.request_id
                    &&& after.source_arn == progress.source_arn
                    &&& after.timestamp == progress.timestamp
                    &&& after.records == progress.records
                    &&& after.compression == progress.compression
                    &&& after.acknowledgements == progress.acknowledgements
                };
            same(progress.advanced().1) && same(progress.settled(status))
        }),
{
}

/// A verdict stands: once a request is answered, no later report changes the answer, and no record
/// is given out any more.
pub proof fn law_verdict_stands(progress: Progress, status: DeliveryStatus)
    ensures
        progress.advanced().0 matches Turn::Answer(verdict) ==> progress.advanced().1.settled(
            status,
        ).advanced() == (Turn::Answer(verdict), progress.advanced().1),
{
}

/// Only `Gzip` refuses records for what their bytes are: under the other schemes a request whose
/// records are all base64 text is refused for no record.
pub proof fn law_other_schemes_refuse_no_bytes(request: Progress, statuses: Seq<DeliveryStatus>)
    requires
        request.fresh(),
        request.compression != Compression::Gzip,
        forall|i: int|
            0 <= i < request.records.len() ==> crate::codec::base64_bytes(
                #[trigger] request.records[i],
            ) is Some,
    ensures
        request.conclusion(statuses).1 matches Err(error) ==> error
            == RequestError::DeliveryRejected,
{
    lemma_conclusion(request, statuses);
}

/// A request is worked on whole: the records that an exchange has are those of the request, all of
/// them and in their order, so that a request which is accepted has handed on as many records as it
/// carries, each of them decoded, and each delivered where that is acknowledged.
pub proof fn law_accepted_request_is_handed_on_whole(
    request: FirehoseRequest,
    taken_up: Progress,
    statuses: Seq<DeliveryStatus>,
)
    requires
        taken_up.records == texts(request.records@),
        taken_up.position == 0,
        taken_up.verdict is None,
    ensures
        taken_up.records.len() == request.records@.len(),
        forall|i: int|
            0 <= i < request.records@.len() ==> #[trigger] taken_up.records[i]
                == request.records@[i].data@,
        taken_up.conclusion(statuses).1 is Ok ==> {
            &&& taken_up.conclusion(statuses).0.len() == request.records@.len()
            &&& forall|i: int|
                0 <= i < request.records@.len() ==> crate::record::decoded(
                    request.records@[i].data@,
                    taken_up.compression,
                ) == Ok::<Seq<u8>, RecordDecodeError>(
                    #[trigger] taken_up.conclusion(statuses).0[i],
                )
            &&& taken_up.acknowledgements ==> forall|i: int|
                0 <= i < request.records@.len() ==> #[trigger] statuses[i]
                    == DeliveryStatus::Delivered
        },
{
    law_records_are_handed_on_in_order(taken_up, statuses);
    lemma_conclusion(taken_up, statuses);
    if taken_up.conclusion(statuses).1 is Ok {
        let given = taken_up.conclusion(statuses).0;
        assert forall|i: int| 0 <= i < request.records@.len() implies crate::record::decoded(
            request.records@[i].data@,
            taken_up.compression,
        ) == Ok::<Seq<u8>, RecordDecodeError>(#[trigger] given[i]) by {
            assert(taken_up.records[i] == request.records@[i].data@);
        }
        if taken_up.acknowledgements {
            assert forall|i: int| 0 <= i < request.records@.len() implies #[trigger] statuses[i]
                == DeliveryStatus::Delivered by {
                assert(taken_up.tolerates(statuses[i]));
            }
        }
    }
}

/// A request whose records all decode is accepted wherever its deliveries are not acknowledged or
/// all of them succeed: nothing else can stand in its way, however many records it carries.
pub proof fn law_nothing_else_refuses_a_request(
    taken_up: Progress,
    statuses: Seq<DeliveryStatus>,
)
    requires
        taken_up.position == 0,
        taken_up.verdict is None,
        forall|i: int|
            0 <= i < taken_up.records.len() ==> crate::record::decoded(
                #[trigger] taken_up.records[i],
                taken_up.compression,
            ) is Ok,
        !taken_up.acknowledgements || forall|i: int|
            0 <= i < taken_up.records.len() ==> #[trigger] statuses[i] == DeliveryStatus::Delivered,
    ensures
        taken_up.conclusion(statuses).1 is Ok,
        taken_up.conclusion(statuses).0.len() == taken_up.records.len(),
{
    lemma_conclusion(taken_up, statuses);
    let (given, verdict) = taken_up.conclusion(statuses);
    if verdict is Err {
        let end = given.len() as int;
        if verdict->Err_0 is DeliveryRejected {
            assert(!taken_up.tolerates(statuses[end - 1]));
        } else {
            assert(crate::record::decoded(taken_up.records[end], taken_up.compression) is Err);
        }
    }
}

/// A rejection, where deliveries are acknowledged, is answered with 406, whichever record it is of:
/// the records before it were handed on, it was the last to be, and the ones after it are not.
pub proof fn law_rejection_ends_a_request(
    taken_up: Progress,
    statuses: Seq<DeliveryStatus>,
    rejected: int,
)
    requires
        taken_up.position == 0,
        taken_up.verdict is None,
        taken_up.acknowledgements,
        0 <= rejected < taken_up.records.len(),
        statuses[rejected] == DeliveryStatus::Rejected,
        forall|i: int| 0 <= i < rejected ==> #[trigger] statuses[i] == DeliveryStatus::Delivered,
        forall|i: int|
            0 <= i <= rejected ==> crate::record::decoded(
                #[trigger] taken_up.records[i],
                taken_up.compression,
            ) is Ok,
    ensures
        taken_up.conclusion(statuses).1 == Err::<(), RequestError>(RequestError::DeliveryRejected),
        taken_up.conclusion(statuses).0.len() == rejected + 1,
{
    lemma_conclusion(taken_up, statuses);
    let (given, verdict) = taken_up.conclusion(statuses);
    let end = given.len() as int;
    if end > rejected + 1 {
        assert(taken_up.tolerates(statuses[rejected]));
    }
    if end <= rejected && verdict is Err && !(verdict->Err_0 is DeliveryRejected) {
        assert(crate::record::decoded(taken_up.records[end], taken_up.compression) is Err);
    }
    if end <= rejected && verdict == Err::<(), RequestError>(RequestError::DeliveryRejected) {
        assert(!taken_up.tolerates(statuses[end - 1]));
    }
}

/// A record that does not decode ends a request, whichever it is and why: the ones before it were
/// handed on, and neither it nor any after it is.
pub proof fn law_undecodable_record_ends_a_request(
    taken_up: Progress,
    statuses: Seq<DeliveryStatus>,
    failing: int,
    error: RecordDecodeError,
)
    requires
        taken_up.position == 0,
        taken_up.verdict is None,
        0 <= failing < taken_up.records.len(),
        crate::record::decoded(taken_up.records[failing], taken_up.compression) == Err::<
            Seq<u8>,
            RecordDecodeError,
        >(error),
        forall|i: int|
            0 <= i < failing ==> crate::record::decoded(
                #[trigger] taken_up.records[i],
                taken_up.compression,
            ) is Ok,
        !taken_up.acknowledgements || forall|i: int|
            0 <= i < failing ==> #[trigger] statuses[i] == DeliveryStatus::Delivered,
    ensures
        taken_up.conclusion(statuses).1 == Err::<(), RequestError>(RequestError::Record(error)),
        taken_up.conclusion(statuses).0.len() == failing,
{
    lemma_conclusion(taken_up, statuses);
    let (given, verdict) = taken_up.conclusion(statuses);
    let end = given.len() as int;
    if end > failing {
        assert(crate::record::decoded(taken_up.records[0 + failing], taken_up.compression) == Ok::<
            Seq<u8>,
            RecordDecodeError,
        >(given[failing]));
    }
    if end < failing && verdict is Err && !(verdict->Err_0 is DeliveryRejected) {
        assert(crate::record::decoded(taken_up.records[end], taken_up.compression) is Err);
    }
    if verdict == Err::<(), RequestError>(RequestError::DeliveryRejected) {
        assert(!taken_up.tolerates(statuses[end - 1]));
    }
}

/// A step moves a request on by one record or ends it. While there is no verdict and a record is
/// left, that record is what it is about; the request is accepted with its last record given out,
/// and not before.
pub proof fn law_step_moves_on_by_one_record(progress: Progress)
    requires
        progress.verdict is None,
    ensures
        progress.position >= progress.records.len() <==> progress.advanced().0 == Turn::Answer(
            Ok::<(), RequestError>(()),
        ),
        progress.position < progress.records.len() ==> match crate::record::decoded(
            progress.records[progress.position as int],
            progress.compression,
        ) {
            Ok(bytes) => progress.advanced().0 == Turn::Forward(bytes)
                && progress.advanced().1.position == progress.position + 1
                && progress.advanced().1.verdict is None,
            Err(error) => progress.advanced().0 == Turn::Answer(Err(RequestError::Record(error)))
                && progress.advanced().1.position == progress.position,
        },
        progress.advanced().0 matches Turn::Answer(verdict) ==> progress.advanced().1.verdict
            == Some(verdict),
{
}

/// Of what became of a delivery only one thing counts: that it was rejected, while deliveries are
/// acknowledged and there is no verdict.
pub proof fn law_only_acknowledged_rejections_count(progress: Progress, status: DeliveryStatus)
    ensures
        progress.settled(DeliveryStatus::Delivered) == progress,
        !progress.acknowledgements || progress.verdict is Some ==> progress.settled(status)
            == progress,
        progress.acknowledgements && progress.verdict is None ==> progress.settled(
            DeliveryStatus::Rejected,
        ).verdict == Some(Err::<(), RequestError>(RequestError::DeliveryRejected)),
{
}

/// An event is its message and where that came from. What it holds is the message, whole, and the
/// request's own id, time and stream; nothing of it depends on how far the request has come or on
/// whether deliveries are acknowledged.
pub proof fn law_event_holds_its_message(
    event: LogEvent,
    message: Seq<u8>,
    request: Progress,
    other: Progress,
)
    requires
        event.reports(message, request),
    ensures
        event.message@ == message,
        event.source_type@ == "aws_kinesis_firehose"@,
        event.timestamp == request.timestamp,
        event.request_id@ == request.request_id,
        event.source_arn@ == request.source_arn,
        other.request_id == request.request_id && other.source_arn == request.source_arn
            && other.timestamp == request.timestamp ==> event.reports(message, other),
{
}

/// A step and its model say the same: the same bytes to hand on, or an answer to this request.
pub proof fn law_step_is_its_turn(step: Step, turn: Turn, request_id: Seq<char>)
    requires
        step.takes(turn, request_id),
    ensures
        turn matches Turn::Forward(bytes) ==> (step matches Step::Forward(given) && given@
            == bytes),
        turn matches Turn::Answer(verdict) ==> (step matches Step::Answer(reply)
            && reply.request_id@ == request_id && (reply.status == 200 <==> verdict is Ok)),
{
}


} // verus!
