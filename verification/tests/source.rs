//! Requests as Firehose sends them, from their body to their answer.
use std::io::Read;

use aws_kinesis_firehose::compression::Compression;
use aws_kinesis_firehose::config::{
    default_decoding, default_framing_message_based, AwsKinesisFirehoseConfig, SensitiveString,
    SocketAddress,
};
use aws_kinesis_firehose::exchange::{
    message_based, DeliveryStatus, EncodedFirehoseRecord, FirehoseRequest, LogEvent, Step,
};
use aws_kinesis_firehose::record::{encode_record, RecordDecodeError};
use aws_kinesis_firehose::reply::{Reply, RequestError};
use chrono::Utc;
use flate2::read::GzEncoder;
use serde_json::Value;

const SOURCE_ARN: &str = "arn:aws:firehose:us-east-1:111111111111:deliverystream/test";
const REQUEST_ID: &str = "e17265d6-97af-4938-982e-90d5614c4242";
// example CloudWatch Logs subscription event
const RECORD: &str = r#"
            {
                "messageType": "DATA_MESSAGE",
                "owner": "071959437513",
                "logGroup": "/jesse/test",
                "logStream": "test",
                "subscriptionFilters": ["Destination"],
                "logEvents": [
                    {
                        "id": "35683658089614582423604394983260738922885519999578275840",
                        "timestamp": 1600110569039,
                        "message": "{\"bytes\":26780,\"datetime\":\"14/Sep/2020:11:45:41 -0400\",\"host\":\"157.130.216.193\",\"method\":\"PUT\",\"protocol\":\"HTTP/1.0\",\"referer\":\"https://www.principalcross-platform.io/markets/ubiquitous\",\"request\":\"/expedite/convergence\",\"source_type\":\"stdin\",\"status\":301,\"user-identifier\":\"-\"}"
                    },
                    {
                        "id": "35683658089659183914001456229543810359430816722590236673",
                        "timestamp": 1600110569041,
                        "message": "{\"bytes\":17707,\"datetime\":\"14/Sep/2020:11:45:41 -0400\",\"host\":\"109.81.244.252\",\"method\":\"GET\",\"protocol\":\"HTTP/2.0\",\"referer\":\"http://www.investormission-critical.io/24/7/vortals\",\"request\":\"/scale/functionalities/optimize\",\"source_type\":\"stdin\",\"status\":502,\"user-identifier\":\"feeney1708\"}"
                    }
                ]
            }
        "#;

fn config(
    access_key: Option<&str>,
    record_compression: Option<Compression>,
) -> AwsKinesisFirehoseConfig {
    AwsKinesisFirehoseConfig {
        address: SocketAddress::V4 { ip: 0x7f000001, port: 8443 },
        tls: None,
        access_key: access_key.map(|key| SensitiveString::new(key.to_string())),
        record_compression,
        framing: default_framing_message_based(),
        decoding: default_decoding(),
        acknowledgements: true.into(),
    }
}

fn gzipped(data: &[u8]) -> Vec<u8> {
    let mut buffer = Vec::new();
    GzEncoder::new(data, flate2::Compression::fast()).read_to_end(&mut buffer).unwrap();
    buffer
}

/// A record as AWS represents it: base64 with an additional compression.
fn encoded(record: &[u8], compression: Compression) -> String {
    encode_record(record, compression).ok().unwrap()
}

fn body(timestamp_millis: i64, records: &[String]) -> Vec<u8> {
    let mut request = serde_json::Map::new();
    request.insert("requestId".to_string(), Value::from(REQUEST_ID));
    request.insert("timestamp".to_string(), Value::from(timestamp_millis));
    let records: Vec<Value> = records
        .iter()
        .map(|data| {
            let mut record = serde_json::Map::new();
            record.insert("data".to_string(), Value::from(data.as_str()));
            Value::Object(record)
        })
        .collect();
    request.insert("records".to_string(), Value::Array(records));
    serde_json::to_vec(&Value::Object(request)).unwrap()
}

fn parsed(body: &[u8]) -> FirehoseRequest {
    let value: Value = serde_json::from_slice(body).unwrap();
    FirehoseRequest {
        request_id: value["requestId"].as_str().unwrap().to_string(),
        timestamp: value["timestamp"].as_i64().unwrap(),
        records: value["records"]
            .as_array()
            .unwrap()
            .iter()
            .map(|record| EncodedFirehoseRecord {
                data: record["data"].as_str().unwrap().to_string(),
            })
            .collect(),
    }
}

/// Sends a body to a source with the given configuration, each record being delivered with the
/// status at its place, and gives the events that were handed on and the answer.
fn send(
    config: &AwsKinesisFirehoseConfig,
    acknowledgements: bool,
    key: Option<&str>,
    content_encoding: Option<&str>,
    body: Vec<u8>,
    statuses: &[DeliveryStatus],
) -> (Vec<LogEvent>, Reply) {
    let service = config.build(acknowledgements);
    let mut events = Vec::new();
    let plain = match service.receive(REQUEST_ID, key, content_encoding, body) {
        Ok(plain) => plain,
        Err(reply) => return (events, reply),
    };
    let mut exchange =
        service.open(REQUEST_ID.to_string(), SOURCE_ARN.to_string(), parsed(&plain));
    let mut sent = 0;
    loop {
        match exchange.next() {
            Step::Forward(bytes) => {
                events.extend(exchange.events(message_based(bytes)));
                exchange.settle(statuses[sent]);
                sent += 1;
            }
            Step::Answer(reply) => return (events, reply),
        }
    }
}

fn assert_event(event: &LogEvent, timestamp_millis: i64, message: &[u8]) {
    assert_eq!(event.source_type, "aws_kinesis_firehose");
    assert_eq!(event.timestamp, timestamp_millis);
    assert_eq!(event.message, message);
    assert_eq!(event.request_id, REQUEST_ID);
    assert_eq!(event.source_arn, SOURCE_ARN);
}

#[test]
fn aws_kinesis_firehose_forwards_events() {
    let gziped_record = gzipped(RECORD.as_bytes());
    for (source_record_compression, record_compression, success, record, expected) in [
        (
            Compression::Auto,
            Compression::Gzip,
            true,
            RECORD.as_bytes(),
            RECORD.as_bytes().to_owned(),
        ),
        (
            Compression::Auto,
            Compression::Uncompressed,
            true,
            RECORD.as_bytes(),
            RECORD.as_bytes().to_owned(),
        ),
        (
            Compression::Uncompressed,
            Compression::Gzip,
            true,
            RECORD.as_bytes(),
            gziped_record,
        ),
        (
            Compression::Uncompressed,
            Compression::Uncompressed,
            true,
            RECORD.as_bytes(),
            RECORD.as_bytes().to_owned(),
        ),
        (
            Compression::Gzip,
            Compression::Gzip,
            true,
            RECORD.as_bytes(),
            RECORD.as_bytes().to_owned(),
        ),
        (
            Compression::Gzip,
            Compression::Uncompressed,
            false,
            RECORD.as_bytes(),
            RECORD.as_bytes().to_owned(),
        ),
        (Compression::Gzip, Compression::Gzip, true, "".as_bytes(), Vec::new()),
    ] {
        let timestamp = Utc::now().timestamp_millis();
        let (events, reply) = send(
            &config(None, Some(source_record_compression)),
            true,
            None,
            None,
            body(timestamp, &[encoded(record, record_compression)]),
            &[DeliveryStatus::Delivered],
        );
        if success {
            assert_eq!(200, reply.status);
            assert_eq!(reply.error, None);
            assert_eq!(events.len(), 1);
            assert_event(&events[0], timestamp, &expected);
        } else {
            assert_eq!(400, reply.status);
            assert!(events.is_empty());
        }
        assert_eq!(reply.request_id, REQUEST_ID);
    }
}

#[test]
fn aws_kinesis_firehose_forwards_events_gzip_request() {
    let timestamp = Utc::now().timestamp_millis();
    let request = body(timestamp, &[encoded(RECORD.as_bytes(), Compression::Uncompressed)]);
    let (events, reply) = send(
        &config(None, None),
        true,
        None,
        Some("gzip"),
        gzipped(&request),
        &[DeliveryStatus::Delivered],
    );
    assert_eq!(200, reply.status);
    assert_eq!(events.len(), 1);
    assert_event(&events[0], timestamp, RECORD.as_bytes());
    assert_eq!(reply.request_id, REQUEST_ID);
}

#[test]
fn aws_kinesis_firehose_rejects_bad_access_key() {
    let (events, reply) = send(
        &config(Some("an access key"), None),
        true,
        Some("bad access key"),
        None,
        body(Utc::now().timestamp_millis(), &[]),
        &[],
    );
    assert_eq!(401, reply.status);
    assert_eq!(reply.request_id, REQUEST_ID);
    assert_eq!(reply.error, Some(RequestError::AccessKeyInvalid));
    assert!(events.is_empty());
}

#[test]
fn handles_acknowledgement_failure() {
    let timestamp = Utc::now().timestamp_millis();
    let (events, reply) = send(
        &config(None, Some(Compression::Uncompressed)),
        true,
        None,
        None,
        body(timestamp, &[encoded(RECORD.as_bytes(), Compression::Uncompressed)]),
        &[DeliveryStatus::Rejected],
    );
    assert_eq!(406, reply.status);
    assert_eq!(events.len(), 1);
    assert_event(&events[0], timestamp, RECORD.as_bytes());
    assert_eq!(reply.request_id, REQUEST_ID);
}

#[test]
fn access_key_has_to_match_where_one_is_configured() {
    let guarded = config(Some("an access key"), None);
    let request = || body(1, &[]);
    let (_, reply) = send(&guarded, true, Some("an access key"), None, request(), &[]);
    assert_eq!(200, reply.status);
    let (_, reply) = send(&guarded, true, None, None, request(), &[]);
    assert_eq!(401, reply.status);
    assert_eq!(reply.error, Some(RequestError::AccessKeyMissing));
    let open = config(None, None);
    let (_, reply) = send(&open, true, Some("anything"), None, request(), &[]);
    assert_eq!(200, reply.status);
    let (_, reply) = send(&open, true, None, None, request(), &[]);
    assert_eq!(200, reply.status);
}

#[test]
fn access_key_is_checked_before_the_body() {
    let guarded = config(Some("an access key"), None);
    let (_, reply) = send(&guarded, true, Some("other"), Some("br"), vec![1, 2, 3], &[]);
    assert_eq!(reply.error, Some(RequestError::AccessKeyInvalid));
}

#[test]
fn content_encoding_is_gzip_or_none() {
    let open = config(None, None);
    let (_, reply) = send(&open, true, None, Some("br"), body(1, &[]), &[]);
    assert_eq!(400, reply.status);
    assert_eq!(reply.error, Some(RequestError::UnsupportedEncoding));
    let (_, reply) = send(&open, true, None, Some("gzip"), body(1, &[]), &[]);
    assert_eq!(400, reply.status);
    assert_eq!(reply.error, Some(RequestError::MalformedBody));
    assert_eq!(reply.request_id, REQUEST_ID);
}

#[test]
fn records_are_handed_on_in_order() {
    let records: Vec<String> = ["one", "two", "", "three"]
        .iter()
        .map(|record| encoded(record.as_bytes(), Compression::Gzip))
        .collect();
    let (events, reply) = send(
        &config(None, Some(Compression::Gzip)),
        true,
        None,
        None,
        body(1600110569039, &records),
        &[DeliveryStatus::Delivered; 4],
    );
    assert_eq!(200, reply.status);
    let messages: Vec<&[u8]> = events.iter().map(|event| event.message.as_slice()).collect();
    assert_eq!(messages, vec![&b"one"[..], &b"two"[..], &b""[..], &b"three"[..]]);
    assert!(events.iter().all(|event| event.timestamp == 1600110569039));
}

#[test]
fn first_failure_ends_the_request() {
    let records = [
        encoded(b"one", Compression::Gzip),
        "no base64!".to_string(),
        encoded(b"three", Compression::Gzip),
    ];
    let (events, reply) = send(
        &config(None, None),
        true,
        None,
        None,
        body(1, &records),
        &[DeliveryStatus::Delivered; 3],
    );
    assert_eq!(400, reply.status);
    assert_eq!(reply.error, Some(RequestError::Record(RecordDecodeError::Base64)));
    assert_eq!(events.len(), 1);
    let (events, reply) = send(
        &config(None, None),
        true,
        None,
        None,
        body(1, &records),
        &[DeliveryStatus::Rejected; 3],
    );
    assert_eq!(406, reply.status);
    assert_eq!(events.len(), 1);
}

#[test]
fn rejections_count_only_where_deliveries_are_acknowledged() {
    let records = [
        encoded(b"one", Compression::Uncompressed),
        encoded(b"two", Compression::Uncompressed),
    ];
    let (events, reply) = send(
        &config(None, None),
        false,
        None,
        None,
        body(1, &records),
        &[DeliveryStatus::Rejected; 2],
    );
    assert_eq!(200, reply.status);
    assert_eq!(events.len(), 2);
}

#[test]
fn verdict_stands_once_it_is_given() {
    let plain = config(None, None);
    let service = plain.build(true);
    let mut exchange = service.open(
        REQUEST_ID.to_string(),
        SOURCE_ARN.to_string(),
        parsed(&body(1, &[])),
    );
    for _ in 0..2 {
        match exchange.next() {
            Step::Answer(reply) => assert_eq!(200, reply.status),
            Step::Forward(_) => panic!("there are no records"),
        }
        exchange.settle(DeliveryStatus::Rejected);
    }
}

#[test]
fn a_record_is_given_out_or_refuses_the_request() {
    let plain = config(None, None);
    let service = plain.build(true);
    let records = [encoded(b"one", Compression::Gzip), encoded(b"two", Compression::Gzip)];
    let mut exchange = service.open(
        REQUEST_ID.to_string(),
        SOURCE_ARN.to_string(),
        parsed(&body(1, &records)),
    );
    match exchange.take_record(Ok(b"first".to_vec())) {
        Step::Forward(bytes) => assert_eq!(bytes, b"first"),
        Step::Answer(_) => panic!("the record decodes"),
    }
    match exchange.take_record(Err(RecordDecodeError::Base64)) {
        Step::Forward(_) => panic!("the record does not decode"),
        Step::Answer(reply) => {
            assert_eq!(reply.status, 400);
            assert_eq!(reply.request_id, REQUEST_ID);
        }
    }
    assert!(matches!(exchange.next(), Step::Answer(reply) if reply.status == 400));
}

#[test]
fn answers_tell_success_from_refusal() {
    let refusals = [
        (RequestError::AccessKeyMissing, 401),
        (RequestError::AccessKeyInvalid, 401),
        (RequestError::UnsupportedEncoding, 400),
        (RequestError::MalformedBody, 400),
        (RequestError::Record(RecordDecodeError::Base64), 400),
        (RequestError::DeliveryRejected, 406),
    ];
    for (error, status) in refusals {
        assert_eq!(error.status(), status);
        let reply = Reply::new("an id", Err(error));
        assert_eq!(reply.status, status);
        assert_eq!(reply.request_id, "an id");
        assert_eq!(reply.error, Some(error));
    }
    let reply = Reply::new("an id", Ok(()));
    assert_eq!(reply.status, 200);
    assert_eq!(reply.error, None);
}
