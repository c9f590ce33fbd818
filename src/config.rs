use vstd::prelude::*;

verus! {

/// Capacity of the channel to the worker unless configured otherwise.
pub const DEFAULT_CHANNEL_CAPACITY: usize = 10000;

/// Configuration of a [`DataDogLogger`](crate::logger::DataDogLogger).
#[derive(Clone, Debug)]
pub struct DataDogConfig {
    /// Tags to add to each log.
    pub tags: Option<String>,
    /// DataDog API key.
    pub apikey: String,
    /// Service name to add to each log.
    pub service: Option<String>,
    /// Hostname to add to each log.
    pub hostname: Option<String>,
    /// Source to add to each log; `rust` by default.
    pub source: String,
    /// HTTP client specific configuration.
    pub http_config: DataDogHttpConfig,
    /// TCP client specific configuration.
    pub tcp_config: DataDogTcpConfig,
    /// Capacity of the channel between the logger and its worker;
    /// `None` makes it unbounded.
    pub messages_channel_capacity: Option<usize>,
    /// Enables the diagnostics channel.
    pub enable_self_log: bool,
}

/// HTTP specific DataDog connectivity configuration.
#[derive(Clone, Debug)]
pub struct DataDogHttpConfig {
    /// Url of the DataDog service, with scheme and path.
    pub url: String,
}

/// TCP specific DataDog connectivity configuration.
#[derive(Clone, Debug)]
pub struct DataDogTcpConfig {
    /// Connect over TLS.
    pub use_tls: bool,
    /// DataDog service domain, without scheme or path.
    pub domain: String,
    /// Port for unencrypted connections.
    pub non_tls_port: usize,
    /// Port for encrypted connections.
    pub tls_port: usize,
}

impl DataDogTcpConfig {
    /// A field by field copy.
    pub fn copy(&self) -> (r: Self)
        ensures
            r == *self,
    {
        DataDogTcpConfig {
            use_tls: self.use_tls,
            domain: self.domain.clone(),
            non_tls_port: self.non_tls_port,
            tls_port: self.tls_port,
        }
    }
}

impl Default for DataDogHttpConfig {
    fn default() -> (r: Self)
        ensures
            r.url@ == "https://http-intake.logs.datadoghq.com/v1/input"@,
    {
        DataDogHttpConfig { url: String::from_str("https://http-intake.logs.datadoghq.com/v1/input") }
    }
}

impl Default for DataDogTcpConfig {
    fn default() -> (r: Self)
        ensures
            r.use_tls,
            r.domain@ == "intake.logs.datadoghq.com"@,
            r.non_tls_port == 10514,
            r.tls_port == 443,
    {
        DataDogTcpConfig {
            use_tls: true,
            domain: String::from_str("intake.logs.datadoghq.com"),
            non_tls_port: 10514,
            tls_port: 443,
        }
    }
}

impl Default for DataDogConfig {
    fn default() -> (r: Self)
        ensures
            r.tags.is_none(),
            r.apikey@ == Seq::<char>::empty(),
            r.service.is_none(),
            r.hostname.is_none(),
            r.source@ == "rust"@,
            r.http_config.url@ == "https://http-intake.logs.datadoghq.com/v1/input"@,
            r.tcp_config.use_tls,
            r.tcp_config.domain@ == "intake.logs.datadoghq.com"@,
            r.tcp_config.non_tls_port == 10514,
            r.tcp_config.tls_port == 443,
            r.messages_channel_capacity == Some(DEFAULT_CHANNEL_CAPACITY),
            !r.enable_self_log,
    {
        DataDogConfig {
            tags: None,
            apikey: String::new(),
            service: None,
            hostname: None,
            source: String::from_str("rust"),
            http_config: DataDogHttpConfig::default(),
            tcp_config: DataDogTcpConfig::default(),
            messages_channel_capacity: Some(DEFAULT_CHANNEL_CAPACITY),
            enable_self_log: false,
        }
    }
}

} // verus!
