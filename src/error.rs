use vstd::prelude::*;

verus! {

#[verifier::external_type_specification]
#[verifier::external_body]
pub struct ExParseError(url::ParseError);

/// Errors of the logger and of its transports.
#[derive(Debug)]
pub enum DataDogLoggerError {
    /// The DataDog URL is not valid.
    UrlParsingError(url::ParseError),
    /// A batch could not be serialized.
    MessageSerializationError(String),
    /// I/O error of a connection.
    IoError(String),
    /// Logger configuration error.
    ConfigError(String),
    /// Generic error container.
    OtherError(String),
    /// Error of the blocking HTTP client.
    HttpError(String),
    /// Error while installing the logger as the global logger.
    LogIntegrationError(String),
    /// Error of the non-blocking HTTP client.
    AsyncHttpError(String),
}

/// The text carried by an error, where it carries one.
pub open spec fn error_detail(e: DataDogLoggerError) -> Option<Seq<char>> {
    match e {
        DataDogLoggerError::UrlParsingError(_) => None,
        DataDogLoggerError::MessageSerializationError(s) => Some(s@),
        DataDogLoggerError::IoError(s) => Some(s@),
        DataDogLoggerError::ConfigError(s) => Some(s@),
        DataDogLoggerError::OtherError(s) => Some(s@),
        DataDogLoggerError::HttpError(s) => Some(s@),
        DataDogLoggerError::LogIntegrationError(s) => Some(s@),
        DataDogLoggerError::AsyncHttpError(s) => Some(s@),
    }
}

/// Relies on `Display` of `url::ParseError`: its description of the error.
#[verifier::external_body]
fn parse_error_text(e: &url::ParseError) -> String {
    e.to_string()
}

impl DataDogLoggerError {
    /// The error's text: the description of the URL error, or the text that
    /// the error carries.
    pub fn to_string(&self) -> (r: String)
        ensures
            error_detail(*self) matches Some(d) ==> r@ == d,
    {
        match self {
            DataDogLoggerError::UrlParsingError(e) => parse_error_text(e),
            DataDogLoggerError::MessageSerializationError(s) => s.clone(),
            DataDogLoggerError::IoError(s) => s.clone(),
            DataDogLoggerError::ConfigError(s) => s.clone(),
            DataDogLoggerError::OtherError(s) => s.clone(),
            DataDogLoggerError::HttpError(s) => s.clone(),
            DataDogLoggerError::LogIntegrationError(s) => s.clone(),
            DataDogLoggerError::AsyncHttpError(s) => s.clone(),
        }
    }
}

} // verus!
