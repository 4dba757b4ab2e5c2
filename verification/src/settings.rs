//! A configuration as it is written down, where most of it may be left out.
use crate::compression::Compression;
use crate::config::{
    default_decoding, default_framing_message_based, AcknowledgementsConfig,
    AwsKinesisFirehoseConfig, DeserializerConfig, FramingConfig, SensitiveString, SocketAddress,
    TlsEnableableConfig,
};
use vstd::prelude::*;

verus! {

/// The two ways to write acknowledgements down: a plain flag, or a section of its own.
#[derive(Clone, Copy, Debug, PartialEq, Eq, Structural)]
pub enum AcknowledgementsSetting {
    Flag(bool),
    Section(AcknowledgementsConfig),
}

/// The settings of the source. Only the address has to be given.
pub struct Settings {
    pub address: SocketAddress,
    pub access_key: Option<String>,
    pub record_compression: Option<String>,
    pub tls: Option<TlsEnableableConfig>,
    pub framing: Option<FramingConfig>,
    pub decoding: Option<DeserializerConfig>,
    pub acknowledgements: Option<AcknowledgementsSetting>,
}

/// The settings name a compression scheme that there is not.
#[derive(Clone, Copy, Debug, PartialEq, Eq, Structural)]
pub struct UnknownCompression;

/// What acknowledgements come to, however they were written down.
pub open spec fn acknowledgements_of(setting: Option<AcknowledgementsSetting>) -> Option<bool> {
    match setting {
        Some(AcknowledgementsSetting::Flag(enabled)) => Some(enabled),
        Some(AcknowledgementsSetting::Section(section)) => section.enabled,
        None => None,
    }
}

impl Settings {
    /// Whether the settings name no compression scheme, or one that there is.
    pub open spec fn names_known_compression(&self) -> bool {
        self.record_compression matches Some(name) ==> exists|scheme: Compression|
            scheme.name() == name@
    }

    /// Whether these settings come to this configuration.
    pub open spec fn describe(&self, config: AwsKinesisFirehoseConfig) -> bool {
        &&& config.address == self.address
        &&& match self.access_key {
            Some(key) => config.access_key matches Some(sensitive) && sensitive@ == key@,
            None => config.access_key is None,
        }
        &&& match self.record_compression {
            Some(name) => config.record_compression matches Some(scheme) && scheme.name() == name@,
            None => config.record_compression is None,
        }
        &&& config.tls == self.tls
        &&& match self.framing {
            Some(framing) => config.framing == framing,
            None => crate::config::is_default_framing(config.framing),
        }
        &&& match self.decoding {
            Some(decoding) => config.decoding == decoding,
            None => crate::config::is_default_decoding(config.decoding),
        }
        &&& config.acknowledgements.enabled == acknowledgements_of(self.acknowledgements)
    }
}

/// Whether two configurations say the same, text being held against text.
pub open spec fn same_config(
    left: AwsKinesisFirehoseConfig,
    right: AwsKinesisFirehoseConfig,
) -> bool {
    &&& left.address == right.address
    &&& crate::config::key_text(left.access_key) == crate::config::key_text(right.access_key)
    &&& left.record_compression == right.record_compression
    &&& left.tls == right.tls
    &&& left.framing == right.framing
    &&& left.decoding == right.decoding
    &&& left.acknowledgements == right.acknowledgements
}

impl AwsKinesisFirehoseConfig {
    /// The configuration that the settings describe. What they leave out gets its default; they
    /// are refused only for the name of a compression scheme that there is not.
    pub fn from_settings(settings: Settings) -> (result: Result<Self, UnknownCompression>)
        ensures
            match result {
                Ok(config) => settings.names_known_compression() && settings.describe(config),
                Err(_) => !settings.names_known_compression(),
            },
            result is Ok <==> (settings.record_compression matches Some(name) ==> name@ == "auto"@
                || name@ == "none"@ || name@ == "gzip"@),
            result matches Ok(config) ==> {
                &&& config.address == settings.address
                &&& config.tls == settings.tls
                &&& config.access_key is None <==> settings.access_key is None
                &&& settings.access_key matches Some(key) ==> (config.access_key matches Some(held)
                    && held@ == key@)
                &&& config.record_compression is None <==> settings.record_compression is None
                &&& settings.record_compression matches Some(name) ==> {
                    &&& name@ == "auto"@ <==> config.record_compression == Some(Compression::Auto)
                    &&& name@ == "none"@ <==> config.record_compression == Some(
                        Compression::Uncompressed,
                    )
                    &&& name@ == "gzip"@ <==> config.record_compression == Some(Compression::Gzip)
                }
                &&& settings.framing matches Some(framing) ==> config.framing == framing
                &&& settings.framing is None ==> config.framing.method@ == "bytes"@
                    && config.framing.options@.len() == 0
                &&& settings.decoding matches Some(decoding) ==> config.decoding == decoding
                &&& settings.decoding is None ==> config.decoding.codec@ == "bytes"@
                    && config.decoding.options@.len() == 0 && config.decoding.output_type.log
                    && !config.decoding.output_type.metric && !config.decoding.output_type.trace
                &&& match settings.acknowledgements {
                    Some(AcknowledgementsSetting::Flag(enabled)) => config.acknowledgements.enabled
                        == Some(enabled),
                    Some(AcknowledgementsSetting::Section(section)) => config.acknowledgements
                        == section,
                    None => config.acknowledgements.enabled is None,
                }
            },
    {
        let record_compression = match &settings.record_compression {
            Some(name) => match Compression::from_name(name.as_str()) {
                Some(scheme) => Some(scheme),
                None => return Err(UnknownCompression),
            },
            None => None,
        };
        let access_key = match settings.access_key {
            Some(key) => Some(SensitiveString::new(key)),
            None => None,
        };
        let framing = match settings.framing {
            Some(framing) => framing,
            None => default_framing_message_based(),
        };
        let decoding = match settings.decoding {
            Some(decoding) => decoding,
            None => default_decoding(),
        };
        let acknowledgements = match settings.acknowledgements {
            Some(AcknowledgementsSetting::Flag(enabled)) => AcknowledgementsConfig::from(enabled),
            Some(AcknowledgementsSetting::Section(section)) => section,
            None => AcknowledgementsConfig::default(),
        };
        Ok(
            AwsKinesisFirehoseConfig {
                address: settings.address,
                access_key,
                record_compression,
                tls: settings.tls,
                framing,
                decoding,
                acknowledgements,
            },
        )
    }

    /// The configuration as it is written down. Nothing is left out but what is not configured.
    pub fn into_settings(self) -> (settings: Settings)
        ensures
            settings.describe(self),
            settings.framing is Some,
            settings.decoding is Some,
            settings.acknowledgements matches Some(AcknowledgementsSetting::Section(_)),
            settings.address == self.address,
            settings.tls == self.tls,
            settings.access_key is None <==> self.access_key is None,
            self.access_key matches Some(key) ==> (settings.access_key matches Some(text) && text@
                == key@),
            settings.record_compression is None <==> self.record_compression is None,
            settings.record_compression matches Some(name) ==> {
                &&& self.record_compression == Some(Compression::Auto) ==> name@ == "auto"@
                &&& self.record_compression == Some(Compression::Uncompressed) ==> name@ == "none"@
                &&& self.record_compression == Some(Compression::Gzip) ==> name@ == "gzip"@
            },
            settings.framing == Some(self.framing),
            settings.decoding == Some(self.decoding),
            settings.acknowledgements == Some(
                AcknowledgementsSetting::Section(self.acknowledgements),
            ),
    {
        let access_key = match &self.access_key {
            Some(key) => Some(key.inner().to_owned()),
            None => None,
        };
        let record_compression = match self.record_compression {
            Some(scheme) => Some(scheme.to_string()),
            None => None,
        };
        Settings {
            address: self.address,
            access_key,
            record_compression,
            tls: self.tls,
            framing: Some(self.framing),
            decoding: Some(self.decoding),
            acknowledgements: Some(AcknowledgementsSetting::Section(self.acknowledgements)),
        }
    }
}

/// A configuration that is written down and read again is the same: settings with framing and
/// decoding given describe one configuration only, and the one that they describe is accepted.
pub proof fn law_written_config_reads_back(
    settings: Settings,
    config: AwsKinesisFirehoseConfig,
    read: AwsKinesisFirehoseConfig,
)
    requires
        settings.describe(config),
        settings.framing is Some,
        settings.decoding is Some,
    ensures
        settings.names_known_compression(),
        settings.describe(read) ==> same_config(read, config),
{
    if let (Some(left), Some(right)) = (config.record_compression, read.record_compression) {
        crate::compression::law_names_tell_schemes_apart(left, right);
    }
}

/// What settings describe is what they say: whatever they give is in the configuration as it was
/// given, and what they leave out is at its default.
pub proof fn law_configuration_is_what_is_written(
    settings: Settings,
    config: AwsKinesisFirehoseConfig,
)
    requires
        settings.describe(config),
    ensures
        config.address == settings.address,
        config.tls == settings.tls,
        config.access_key is None <==> settings.access_key is None,
        settings.access_key matches Some(key) ==> (config.access_key matches Some(held) && held@
            == key@),
        config.record_compression is None <==> settings.record_compression is None,
        settings.record_compression matches Some(name) ==> (name@ == "gzip"@
            <==> config.record_compression == Some(Compression::Gzip)) && (name@ == "none"@
            <==> config.record_compression == Some(Compression::Uncompressed)) && (name@ == "auto"@
            <==> config.record_compression == Some(Compression::Auto)),
        settings.framing matches Some(framing) ==> config.framing == framing,
        settings.decoding matches Some(decoding) ==> config.decoding == decoding,
        settings.framing is None ==> config.framing.method@ == "bytes"@
            && config.framing.options@.len() == 0,
        settings.decoding is None ==> config.decoding.codec@ == "bytes"@
            && config.decoding.options@.len() == 0 && config.decoding.output_type.log,
        settings.acknowledgements matches Some(AcknowledgementsSetting::Flag(enabled))
            ==> config.acknowledgements.enabled == Some(enabled),
        settings.acknowledgements matches Some(AcknowledgementsSetting::Section(section))
            ==> config.acknowledgements == section,
        settings.acknowledgements is None ==> config.acknowledgements.enabled is None,
{
    if let Some(scheme) = config.record_compression {
        crate::compression::law_scheme_names(scheme);
    }
}

/// Configurations that say the same hold requests to the same key, decompress alike, and listen,
/// decode and acknowledge alike.
pub proof fn law_same_configurations_agree(
    left: AwsKinesisFirehoseConfig,
    right: AwsKinesisFirehoseConfig,
)
    requires
        same_config(left, right),
    ensures
        left.address == right.address && left.tls == right.tls,
        left.access_key is None <==> right.access_key is None,
        left.access_key matches Some(key) ==> (right.access_key matches Some(other) && key@
            == other@),
        left.record_compression == right.record_compression,
        left.framing == right.framing && left.decoding == right.decoding,
        left.acknowledgements == right.acknowledgements,
{
}


} // verus!
