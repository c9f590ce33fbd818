use vstd::prelude::*;
use crate::error::{error_detail, DataDogLoggerError};

verus! {

/// Events of the logger's own diagnostics channel.
#[derive(Clone, Debug, PartialEq, Eq)]
pub enum SelfLogEvent {
    /// The logger started.
    Start,
    /// The logger stopped; nothing follows it.
    Stop,
    /// A batch could not be sent to DataDog.
    ClientError(String),
    /// A record could not be handed to the worker.
    LoggerError(String),
    /// A batch was sent to DataDog.
    Success,
}

/// The human readable text of an event.
pub open spec fn event_text(e: SelfLogEvent) -> Seq<char> {
    match e {
        SelfLogEvent::Start => "DataDog logger is starting"@,
        SelfLogEvent::Stop => "DataDog logger is stopping"@,
        SelfLogEvent::ClientError(m) => "Error while sending logs to DataDog : "@ + m@,
        SelfLogEvent::LoggerError(m) => "Error inside logger : "@ + m@,
        SelfLogEvent::Success => "Messages sent to DataDog succesfully"@,
    }
}

impl SelfLogEvent {
    /// A copy of the event.
    pub fn duplicate(&self) -> (r: Self)
        ensures
            r == *self,
    {
        match self {
            SelfLogEvent::Start => SelfLogEvent::Start,
            SelfLogEvent::Stop => SelfLogEvent::Stop,
            SelfLogEvent::ClientError(m) => SelfLogEvent::ClientError(m.clone()),
            SelfLogEvent::LoggerError(m) => SelfLogEvent::LoggerError(m.clone()),
            SelfLogEvent::Success => SelfLogEvent::Success,
        }
    }

    /// The human readable text of the event.
    pub fn to_string(&self) -> (r: String)
        ensures
            r@ == event_text(*self),
    {
        match self {
            SelfLogEvent::Start => String::from_str("DataDog logger is starting"),
            SelfLogEvent::Stop => String::from_str("DataDog logger is stopping"),
            SelfLogEvent::ClientError(m) => String::from_str(
                "Error while sending logs to DataDog : ",
            ).concat(m.as_str()),
            SelfLogEvent::LoggerError(m) => String::from_str("Error inside logger : ").concat(
                m.as_str(),
            ),
            SelfLogEvent::Success => String::from_str("Messages sent to DataDog succesfully"),
        }
    }
}

/// `event` is the diagnostic that reports a flush with the given outcome:
/// `Success` for a sent batch, `ClientError` with the error's text otherwise.
pub open spec fn reports_flush(outcome: Result<(), DataDogLoggerError>, event: SelfLogEvent) -> bool {
    match outcome {
        Ok(()) => event == SelfLogEvent::Success,
        Err(e) => match event {
            SelfLogEvent::ClientError(m) => error_detail(e) matches Some(d) ==> m@ == d,
            _ => false,
        },
    }
}

/// The diagnostic that reports a flush with the given outcome.
pub fn flush_event(outcome: &Result<(), DataDogLoggerError>) -> (r: SelfLogEvent)
    ensures
        reports_flush(*outcome, r),
{
    match outcome {
        Ok(()) => SelfLogEvent::Success,
        Err(e) => SelfLogEvent::ClientError(e.to_string()),
    }
}

} // verus!
