use vstd::prelude::*;

verus! {

/// One log entry, as shipped to DataDog.
#[derive(Clone, Debug, PartialEq)]
pub struct DataDogLog {
    /// The message
    pub message: String,
    /// Message tags
    pub ddtags: Option<String>,
    /// Message source
    pub ddsource: String,
    /// Host that sent the message
    pub host: String,
    /// Service that sent the message
    pub service: String,
    /// Datadog understandable string indicating level
    pub level: String,
}

/// The text content of a [`DataDogLog`].
pub struct DataDogLogView {
    pub message: Seq<char>,
    pub ddtags: Option<Seq<char>>,
    pub ddsource: Seq<char>,
    pub host: Seq<char>,
    pub service: Seq<char>,
    pub level: Seq<char>,
}

/// The text of an optional string.
pub open spec fn opt_text(s: Option<String>) -> Option<Seq<char>> {
    match s {
        Some(t) => Some(t@),
        None => None,
    }
}

impl View for DataDogLog {
    type V = DataDogLogView;

    open spec fn view(&self) -> DataDogLogView {
        DataDogLogView {
            message: self.message@,
            ddtags: opt_text(self.ddtags),
            ddsource: self.ddsource@,
            host: self.host@,
            service: self.service@,
            level: self.level@,
        }
    }
}

} // verus!
