//! Transports: the capability a worker flushes through, and the parts of the
//! HTTP and TCP transports that decide rather than perform I/O.
use vstd::prelude::*;
use crate::config::{DataDogConfig, DataDogTcpConfig};
use crate::error::DataDogLoggerError;
use crate::record::DataDogLog;
use crate::text::{decimal_string, decimal_text};
use vstd::utf8::encode_utf8;

verus! {

/// A blocking transport to DataDog.
pub trait DataDogClient {
    /// Sends one batch of records.
    fn send(&mut self, messages: &[DataDogLog]) -> Result<(), DataDogLoggerError>;
}

#[verifier::external_type_specification]
#[verifier::external_body]
pub struct ExUrl(url::Url);

/// Whether `url::Url::parse` accepts the text as an absolute URL.
pub uninterp spec fn url_accepts(s: Seq<char>) -> bool;

/// Relies on `url::Url::parse`: whether it succeeds depends on the text alone.
#[verifier::external_body]
fn parse_url(s: &str) -> (r: Result<url::Url, url::ParseError>)
    ensures
        r.is_ok() == url_accepts(s@),
{
    url::Url::parse(s)
}

/// The HTTP(S) transport's endpoint and credential.
#[derive(Debug)]
pub struct HttpDataDogClient {
    datadog_url: url::Url,
    api_key: String,
}

impl HttpDataDogClient {
    /// The endpoint.
    pub closed spec fn url(&self) -> url::Url {
        self.datadog_url
    }

    /// The API key, as text.
    pub closed spec fn key(&self) -> Seq<char> {
        self.api_key@
    }

    /// A client for the endpoint in `config.http_config.url`; fails when that
    /// is not an absolute URL.
    pub fn new(config: &DataDogConfig) -> (r: Result<Self, DataDogLoggerError>)
        ensures
            r.is_ok() == url_accepts(config.http_config.url@),
            r matches Ok(c) ==> c.key() == config.apikey@,
            r matches Err(e) ==> e is UrlParsingError,
    {
        let parsed = parse_url(config.http_config.url.as_str());
        Self::with_url(parsed, config.apikey.clone())
    }

    /// A client for a parsed endpoint, or the parse error as the logger's.
    pub fn with_url(parsed: Result<url::Url, url::ParseError>, api_key: String) -> (r: Result<
        Self,
        DataDogLoggerError,
    >)
        ensures
            parsed is Ok <==> r is Ok,
            parsed matches Ok(u) ==> (r matches Ok(c) && c.url() == u && c.key() == api_key@),
            parsed matches Err(pe) ==> (r matches Err(e) && e
                == DataDogLoggerError::UrlParsingError(pe)),
    {
        match parsed {
            Ok(u) => Ok(HttpDataDogClient { datadog_url: u, api_key }),
            Err(pe) => Err(DataDogLoggerError::UrlParsingError(pe)),
        }
    }

    /// The endpoint.
    pub fn datadog_url(&self) -> (r: &url::Url)
        ensures
            *r == self.url(),
    {
        &self.datadog_url
    }

    /// The API key sent in the `DD-API-KEY` header.
    pub fn api_key(&self) -> (r: &str)
        ensures
            r@ == self.key(),
    {
        self.api_key.as_str()
    }
}

/// The text of the error for a response that is not a success: the status
/// code with its reason phrase, and the body.
pub open spec fn failed_response_text(status: nat, reason: Seq<char>, body: Seq<char>) -> Seq<char> {
    "Datadog response does not indicate success. Status code : "@ + decimal_text(status) + " "@
        + reason + ", Body : "@ + body
}

/// The outcome of an HTTP send, from the response's status, the status's
/// reason phrase and the body: success for any 2xx status, an error carrying
/// all three otherwise.
pub fn response_result(status: u16, reason: &str, body: &str) -> (r: Result<(), DataDogLoggerError>)
    ensures
        r is Ok <==> 200 <= status < 300,
        !(200 <= status < 300) ==> (r matches Err(DataDogLoggerError::OtherError(m)) && m@
            == failed_response_text(status as nat, reason@, body@)),
{
    if 200 <= status && status < 300 {
        Ok(())
    } else {
        let text = String::from_str("Datadog response does not indicate success. Status code : ");
        let code = decimal_string(status as usize);
        let text = text.concat(code.as_str()).concat(" ").concat(reason).concat(", Body : ").concat(
            body,
        );
        Err(DataDogLoggerError::OtherError(text))
    }
}

/// Kinds of I/O errors that a connection can report.
#[derive(Clone, Copy, Debug, PartialEq, Eq, Structural)]
pub enum IoErrorKind {
    NotFound,
    PermissionDenied,
    ConnectionRefused,
    ConnectionReset,
    ConnectionAborted,
    NotConnected,
    AddrInUse,
    AddrNotAvailable,
    BrokenPipe,
    AlreadyExists,
    WouldBlock,
    InvalidInput,
    InvalidData,
    TimedOut,
    WriteZero,
    Interrupted,
    Other,
    UnexpectedEof,
    /// Any kind not listed above.
    Uncategorized,
}

/// The kinds after which a fresh connection may succeed.
pub open spec fn retryable(kind: IoErrorKind) -> bool {
    ||| kind == IoErrorKind::ConnectionReset
    ||| kind == IoErrorKind::ConnectionAborted
    ||| kind == IoErrorKind::NotConnected
    ||| kind == IoErrorKind::BrokenPipe
    ||| kind == IoErrorKind::TimedOut
    ||| kind == IoErrorKind::Interrupted
}

/// Whether a failed write is worth a reconnect.
pub fn should_try_reconnect(error_kind: IoErrorKind) -> (r: bool)
    ensures
        r == retryable(error_kind),
{
    match error_kind {
        IoErrorKind::NotFound => false,
        IoErrorKind::PermissionDenied => false,
        IoErrorKind::ConnectionRefused => false,
        IoErrorKind::ConnectionReset => true,
        IoErrorKind::ConnectionAborted => true,
        IoErrorKind::NotConnected => true,
        IoErrorKind::AddrInUse => false,
        IoErrorKind::AddrNotAvailable => false,
        IoErrorKind::BrokenPipe => true,
        IoErrorKind::AlreadyExists => false,
        IoErrorKind::WouldBlock => false,
        IoErrorKind::InvalidInput => false,
        IoErrorKind::InvalidData => false,
        IoErrorKind::TimedOut => true,
        IoErrorKind::WriteZero => false,
        IoErrorKind::Interrupted => true,
        IoErrorKind::Other => false,
        IoErrorKind::UnexpectedEof => false,
        IoErrorKind::Uncategorized => false,
    }
}

/// Reconnects allowed for one batch.
pub const MAX_RECONNECTS: u8 = 3;

/// What to do after a failed write.
#[derive(Clone, Copy, Debug, PartialEq, Eq, Structural)]
pub enum RetryDecision {
    /// Open a new connection and write the same batch again.
    Reconnect,
    /// Report the error; the batch is dropped.
    GiveUp,
}

/// Whether a write failing with `kind`, after `retries` reconnects, is
/// followed by a reconnect.
pub open spec fn reconnect_allowed(retries: nat, kind: IoErrorKind) -> bool {
    retries < MAX_RECONNECTS && retryable(kind)
}

/// The reconnects made for one batch whose writes keep failing, with these
/// kinds in turn, after `retries` reconnects.
pub open spec fn reconnects(retries: nat, failures: Seq<IoErrorKind>) -> nat
    decreases failures.len(),
{
    if failures.len() > 0 && reconnect_allowed(retries, failures[0]) {
        1 + reconnects(retries + 1, failures.drop_first())
    } else {
        0
    }
}

/// The reconnect budget of one batch on the TCP transport.
pub struct RetryBudget {
    retries: u8,
}

impl RetryBudget {
    /// Reconnects made so far.
    pub closed spec fn used(&self) -> nat {
        self.retries as nat
    }

    /// A budget with no reconnect used.
    pub fn new() -> (r: Self)
        ensures
            r.used() == 0,
    {
        RetryBudget { retries: 0 }
    }

    /// Decides after a failed write, and counts the reconnect.
    pub fn on_write_error(&mut self, kind: IoErrorKind) -> (r: RetryDecision)
        requires
            old(self).used() <= MAX_RECONNECTS,
        ensures
            (r == RetryDecision::Reconnect) == reconnect_allowed(old(self).used(), kind),
            r == RetryDecision::Reconnect ==> final(self).used() == old(self).used() + 1,
            r == RetryDecision::GiveUp ==> final(self).used() == old(self).used(),
            final(self).used() <= MAX_RECONNECTS,
    {
        if self.retries < MAX_RECONNECTS && should_try_reconnect(kind) {
            self.retries = self.retries + 1;
            RetryDecision::Reconnect
        } else {
            RetryDecision::GiveUp
        }
    }
}

/// The writes of one batch whose writes keep failing with these kinds in
/// turn: the first, and one after each reconnect.
pub open spec fn write_attempts(failures: Seq<IoErrorKind>) -> nat {
    1 + reconnects(0, failures)
}

/// Retries are bounded: however the writes of one batch fail, the TCP
/// transport, deciding with [`RetryBudget::on_write_error`], reconnects at
/// most [`MAX_RECONNECTS`] times, so it writes the batch at most one time
/// more than that.
pub proof fn lemma_reconnects_bounded(failures: Seq<IoErrorKind>)
    ensures
        reconnects(0, failures) <= MAX_RECONNECTS,
        write_attempts(failures) <= MAX_RECONNECTS + 1,
{
    lemma_reconnects_within(0, failures);
}

proof fn lemma_reconnects_within(retries: nat, failures: Seq<IoErrorKind>)
    requires
        retries <= MAX_RECONNECTS,
    ensures
        retries + reconnects(retries, failures) <= MAX_RECONNECTS,
    decreases failures.len(),
{
    if failures.len() > 0 && reconnect_allowed(retries, failures[0]) {
        lemma_reconnects_within(retries + 1, failures.drop_first());
    }
}

/// The host and port that the TCP transport connects to.
pub open spec fn address_text(c: DataDogTcpConfig) -> Seq<char> {
    c.domain@ + ":"@ + decimal_text(
        if c.use_tls {
            c.tls_port as nat
        } else {
            c.non_tls_port as nat
        },
    )
}

/// The bytes of one TCP frame: the API key, a space, then the payload.
pub open spec fn frame_bytes(api_key: Seq<u8>, payload: Seq<u8>) -> Seq<u8> {
    api_key + seq![32u8] + payload
}

/// The TCP transport's credential and endpoint.
#[derive(Debug)]
pub struct TcpDataDogClient {
    api_key: String,
    tcp_config: DataDogTcpConfig,
}

impl TcpDataDogClient {
    /// The endpoint configuration.
    pub closed spec fn config(&self) -> DataDogTcpConfig {
        self.tcp_config
    }

    /// The API key, as text.
    pub closed spec fn key(&self) -> Seq<char> {
        self.api_key@
    }

    /// A client for `config.tcp_config`, sending `config.apikey`.
    pub fn new(config: &DataDogConfig) -> (r: Self)
        ensures
            r.key() == config.apikey@,
            r.config() == config.tcp_config,
    {
        TcpDataDogClient { api_key: config.apikey.clone(), tcp_config: config.tcp_config.copy() }
    }

    /// `domain:port`, with the TLS port when TLS is on.
    pub fn address(&self) -> (r: String)
        ensures
            r@ == address_text(self.config()),
    {
        let port = if self.tcp_config.use_tls {
            self.tcp_config.tls_port
        } else {
            self.tcp_config.non_tls_port
        };
        let host = self.tcp_config.domain.clone();
        let digits = decimal_string(port);
        host.concat(":").concat(digits.as_str())
    }

    /// Whether to connect over TLS.
    pub fn use_tls(&self) -> (r: bool)
        ensures
            r == self.config().use_tls,
    {
        self.tcp_config.use_tls
    }

    /// The domain that TLS verifies.
    pub fn domain(&self) -> (r: &str)
        ensures
            r@ == self.config().domain@,
    {
        self.tcp_config.domain.as_str()
    }

    /// The frame for one serialized batch.
    pub fn frame(&self, payload: &[u8]) -> (r: Vec<u8>)
        ensures
            r@ == frame_bytes(encode_utf8(self.key()), payload@),
    {
        let key = self.api_key.as_str().as_bytes();
        let mut out: Vec<u8> = Vec::new();
        let mut i: usize = 0;
        while i < key.len()
            invariant
                0 <= i <= key@.len(),
                out@ == key@.subrange(0, i as int),
            decreases key@.len() - i,
        {
            out.push(key[i]);
            i = i + 1;
        }
        out.push(32u8);
        let mut j: usize = 0;
        while j < payload.len()
            invariant
                0 <= j <= payload@.len(),
                out@ == key@ + seq![32u8] + payload@.subrange(0, j as int),
            decreases payload@.len() - j,
        {
            out.push(payload[j]);
            j = j + 1;
        }
        assert(key@.subrange(0, key@.len() as int) =~= key@);
        assert(payload@.subrange(0, payload@.len() as int) =~= payload@);
        out
    }
}

} // verus!
