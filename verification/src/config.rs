//! The configuration of the source, and what follows from it alone.
use crate::compression::Compression;
use crate::service::Service;
use vstd::prelude::*;

verus! {

/// The address of a TCP or UDP endpoint. IP addresses are held as the number that their bytes
/// form in network order.
#[derive(Clone, Copy, Debug, PartialEq, Eq, Structural)]
pub enum SocketAddress {
    V4 { ip: u32, port: u16 },
    V6 { ip6: u128, port: u16, flow_info: u32, scope_id: u32 },
}

/// Text that must not be shown: it has no `Debug` form.
#[derive(Clone)]
pub struct SensitiveString {
    inner: String,
}

impl View for SensitiveString {
    type V = Seq<char>;

    closed spec fn view(&self) -> Seq<char> {
        self.inner@
    }
}

impl SensitiveString {
    /// Marks a text as sensitive.
    pub fn new(inner: String) -> (sensitive: Self)
        ensures
            sensitive@ == inner@,
    {
        SensitiveString { inner }
    }

    /// The text itself.
    pub fn inner(&self) -> (text: &str)
        ensures
            text@ == self@,
    {
        self.inner.as_str()
    }
}

/// The TLS settings of a listener, which may be given and still be switched off. The options are
/// held by name, as they were configured.
#[derive(Clone, Debug)]
pub struct TlsEnableableConfig {
    pub enabled: Option<bool>,
    pub options: Vec<(String, String)>,
}

/// How the bytes of a record are cut into frames: the framing method and its options, by name.
#[derive(Clone, Debug)]
pub struct FramingConfig {
    pub method: String,
    pub options: Vec<(String, String)>,
}

/// How a frame becomes events: the codec, its options by name, and the kinds of events that it
/// gives.
#[derive(Clone, Debug)]
pub struct DeserializerConfig {
    pub codec: String,
    pub options: Vec<(String, String)>,
    pub output_type: DataType,
}

/// A set of event kinds.
#[derive(Clone, Copy, Debug, PartialEq, Eq, Structural)]
pub struct DataType {
    pub log: bool,
    pub metric: bool,
    pub trace: bool,
}

/// Whether deliveries are to be acknowledged end to end. `None` leaves that to the settings that
/// hold for all sources.
#[derive(Clone, Copy, Debug, PartialEq, Eq, Structural)]
pub struct AcknowledgementsConfig {
    pub enabled: Option<bool>,
}

/// How events are laid out: with the metadata beside the event's own fields, or apart from them.
#[derive(Clone, Copy, Debug, PartialEq, Eq, Structural)]
pub enum LogNamespace {
    Legacy,
    Vector,
}

/// An output of a source: its port, `None` being the default one, and the events that leave by it.
#[derive(Clone, Debug)]
pub struct Output {
    pub port: Option<String>,
    pub ty: DataType,
}

/// A transport protocol.
#[derive(Clone, Copy, Debug, PartialEq, Eq, Structural)]
pub enum Protocol {
    Tcp,
    Udp,
}

/// Something that only one component of a running topology can hold.
#[derive(Clone, Copy, Debug, PartialEq, Eq, Structural)]
pub enum Resource {
    /// A port to listen on.
    Port(SocketAddress, Protocol),
}

/// Whether this is the framing of a source that configures none.
pub open spec fn is_default_framing(framing: FramingConfig) -> bool {
    framing.method@ == "bytes"@ && framing.options@.len() == 0
}

/// Whether this is the decoding of a source that configures none.
pub open spec fn is_default_decoding(decoding: DeserializerConfig) -> bool {
    &&& decoding.codec@ == "bytes"@
    &&& decoding.options@.len() == 0
    &&& decoding.output_type == (DataType { log: true, metric: false, trace: false })
}

/// The framing of sources whose transport already delimits messages: a message is one frame.
pub fn default_framing_message_based() -> (framing: FramingConfig)
    ensures
        is_default_framing(framing),
        framing.method@ == "bytes"@,
        framing.options@.len() == 0,
{
    FramingConfig { method: "bytes".to_owned(), options: Vec::new() }
}

/// The decoding of a source that configures none: a frame is the message of one log event.
pub fn default_decoding() -> (decoding: DeserializerConfig)
    ensures
        is_default_decoding(decoding),
        decoding.codec@ == "bytes"@,
        decoding.options@.len() == 0,
        decoding.output_type.log && !decoding.output_type.metric && !decoding.output_type.trace,
{
    DeserializerConfig {
        codec: "bytes".to_owned(),
        options: Vec::new(),
        output_type: DataType { log: true, metric: false, trace: false },
    }
}

/// Configuration for the `aws_kinesis_firehose` source.
#[derive(Clone)]
pub struct AwsKinesisFirehoseConfig {
    /// The address to listen for connections on.
    pub address: SocketAddress,
    /// An optional access key to authenticate requests against.
    ///
    /// AWS Kinesis Firehose can pass along an access key with each request. If one is configured
    /// here, requests have to carry the same value. Otherwise, all requests are allowed.
    pub access_key: Option<SensitiveString>,
    /// The compression scheme to use for decompressing records within the Firehose message.
    ///
    /// This is not the content encoding of the HTTP request, which covers the whole of its body.
    pub record_compression: Option<Compression>,
    /// The TLS settings of the listener.
    pub tls: Option<TlsEnableableConfig>,
    /// How the bytes of a record are cut into frames.
    pub framing: FramingConfig,
    /// How frames become events.
    pub decoding: DeserializerConfig,
    /// Whether deliveries are acknowledged end to end.
    pub acknowledgements: AcknowledgementsConfig,
}

/// The access key that requests are held to, as text.
pub open spec fn key_text(key: Option<SensitiveString>) -> Option<Seq<char>> {
    match key {
        Some(key) => Some(key@),
        None => None,
    }
}

/// The scheme that records are decompressed by.
pub open spec fn effective_compression(configured: Option<Compression>) -> Compression {
    match configured {
        Some(scheme) => scheme,
        None => Compression::Auto,
    }
}

impl AwsKinesisFirehoseConfig {
    /// What the source runs with. `acknowledgements` is what the topology makes of this
    /// configuration's `acknowledgements` and of its own settings.
    ///
    /// The events are laid out in the legacy namespace, the TLS settings are those of a server,
    /// and a configuration that names no compression has it determined for each record.
    pub fn build(&self, acknowledgements: bool) -> (service: Service<'_>)
        ensures
            service.address == self.address,
            service.tls == (match self.tls {
                Some(tls) => Some(&tls),
                None => None,
            }),
            service.tls_for_server,
            *service.framing == self.framing,
            *service.decoding == self.decoding,
            service.log_namespace == LogNamespace::Legacy,
            service.key() == key_text(self.access_key),
            service.record_compression == effective_compression(self.record_compression),
            service.acknowledgements == acknowledgements,
            self.access_key is None <==> service.access_key is None,
            self.access_key matches Some(key) ==> service.access_key matches Some(text) && text@
                == key@,
            self.record_compression matches Some(scheme) ==> service.record_compression == scheme,
            self.record_compression is None ==> service.record_compression == Compression::Auto,
    {
        let access_key = match &self.access_key {
            Some(key) => Some(key.inner().to_owned()),
            None => None,
        };
        let record_compression = match self.record_compression {
            Some(scheme) => scheme,
            None => Compression::default(),
        };
        Service {
            address: self.address,
            tls: self.tls.as_ref(),
            tls_for_server: true,
            framing: &self.framing,
            decoding: &self.decoding,
            log_namespace: LogNamespace::Legacy,
            access_key,
            record_compression,
            acknowledgements,
        }
    }

    /// The source has one output, the default one, and all that its codec can give leaves by it.
    /// The namespace plays no part.
    pub fn outputs(&self, _global_log_namespace: LogNamespace) -> (outputs: Vec<Output>)
        ensures
            outputs@ == seq![Output { port: None, ty: self.decoding.output_type }],
    {
        let mut outputs = Vec::new();
        outputs.push(Output { port: None, ty: self.decoding.output_type });
        outputs
    }

    /// The source holds the TCP port that it listens on, and nothing else.
    pub fn resources(&self) -> (resources: Vec<Resource>)
        ensures
            resources@ == seq![Resource::Port(self.address, Protocol::Tcp)],
    {
        let mut resources = Vec::new();
        resources.push(Resource::Port(self.address, Protocol::Tcp));
        resources
    }

    /// Firehose learns from the answer to a request whether it was delivered, so the source can
    /// acknowledge.
    pub fn can_acknowledge(&self) -> (can: bool)
        ensures
            can,
    {
        true
    }

    /// An example configuration: it listens for HTTPS on every IPv4 address of the machine, and
    /// leaves the rest at its defaults.
    pub fn generate_config() -> (config: Self)
        ensures
            config.address == (SocketAddress::V4 { ip: 0, port: 443 }),
            config.access_key is None,
            config.tls is None,
            config.record_compression is None,
            is_default_framing(config.framing),
            is_default_decoding(config.decoding),
            config.framing.method@ == "bytes"@,
            config.framing.options@.len() == 0,
            config.decoding.codec@ == "bytes"@,
            config.decoding.options@.len() == 0,
            config.decoding.output_type.log && !config.decoding.output_type.metric
                && !config.decoding.output_type.trace,
            config.acknowledgements.enabled is None,
    {
        AwsKinesisFirehoseConfig {
            address: SocketAddress::V4 { ip: 0, port: 443 },
            access_key: None,
            tls: None,
            record_compression: None,
            framing: default_framing_message_based(),
            decoding: default_decoding(),
            acknowledgements: AcknowledgementsConfig::default(),
        }
    }
}

impl vstd::std_specs::convert::FromSpecImpl<bool> for AcknowledgementsConfig {
    open spec fn obeys_from_spec() -> bool {
        true
    }

    open spec fn from_spec(enabled: bool) -> Self {
        AcknowledgementsConfig { enabled: Some(enabled) }
    }
}

impl From<bool> for AcknowledgementsConfig {
    fn from(enabled: bool) -> Self {
        AcknowledgementsConfig { enabled: Some(enabled) }
    }
}

impl Default for AcknowledgementsConfig {
    fn default() -> (acknowledgements: Self)
        ensures
            acknowledgements.enabled is None,
    {
        AcknowledgementsConfig { enabled: None }
    }
}

/// The key that requests are held to is the configured key, character for character, and there is
/// one exactly where one is configured.
pub proof fn law_key_is_held_as_it_is_configured(configured: Option<SensitiveString>)
    ensures
        configured matches Some(key) ==> key_text(configured) == Some(key@),
        key_text(configured) is None <==> configured is None,
{
}

/// A configured scheme is used as it is; where none is configured it is determined by record.
pub proof fn law_configured_scheme_is_used(configured: Option<Compression>)
    ensures
        configured == Some(effective_compression(configured)) || (configured is None
            && effective_compression(configured) == Compression::Auto),
{
}

/// A flag for acknowledgements says what it says.
pub proof fn law_flag_is_kept(enabled: bool)
    ensures
        <AcknowledgementsConfig as vstd::std_specs::convert::FromSpec<bool>>::from_spec(
            enabled,
        ).enabled == Some(enabled),
{
}


} // verus!
