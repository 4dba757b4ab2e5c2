//! The rules of an AWS Kinesis Firehose HTTP source: its configuration, who may deliver to it,
//! how the records of a delivery are decoded, what events they become and how each delivery is
//! answered.
pub mod codec;
pub mod compression;
pub mod config;
pub mod exchange;
pub mod record;
pub mod reply;
pub mod service;
pub mod settings;
mod text;
