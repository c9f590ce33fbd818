use datadog_logs::channel::Received;
use datadog_logs::client::DataDogClient;
use datadog_logs::config::DataDogConfig;
use datadog_logs::error::DataDogLoggerError;
use datadog_logs::level::DataDogLogLevel;
use datadog_logs::channel::EnqueueError;
use datadog_logs::logger::{DataDogLogger, LogOutcome, LoggerWorker};
use datadog_logs::record::DataDogLog;
use datadog_logs::self_log::SelfLogEvent;
use flume::{unbounded, Receiver, Sender};

struct DataDogClientStub {
    should_error: bool,
    sender: Sender<DataDogLog>,
    batches: Vec<usize>,
}

impl DataDogClientStub {
    fn new(sender: Sender<DataDogLog>) -> Self {
        DataDogClientStub { should_error: false, sender, batches: Vec::new() }
    }
}

impl DataDogClient for DataDogClientStub {
    fn send(&mut self, messages: &[DataDogLog]) -> Result<(), DataDogLoggerError> {
        self.batches.push(messages.len());
        if self.should_error {
            Err(DataDogLoggerError::OtherError("Succesfull error inside DataDogClientStub".into()))
        } else {
            for message in messages {
                self.sender.send(message.clone()).unwrap_or_default();
            }
            Ok(())
        }
    }
}

fn run_worker<T: DataDogClient>(worker: &mut LoggerWorker, client: &mut T) {
    while !worker.is_terminated() {
        let input = worker.next_input();
        worker.deliver(client, input);
    }
    worker.finish();
}

fn self_log_config() -> DataDogConfig {
    DataDogConfig { enable_self_log: true, ..Default::default() }
}

fn events_of(logger: &DataDogLogger) -> Vec<SelfLogEvent> {
    logger.selflog().as_ref().unwrap().try_iter().collect()
}

struct Session {
    logger: DataDogLogger,
    worker: LoggerWorker,
    client: DataDogClientStub,
}

fn create_default_logger() -> (Session, Receiver<DataDogLog>) {
    let (sender, receiver) = unbounded();
    let (logger, worker) = DataDogLogger::new(self_log_config());
    let client = DataDogClientStub::new(sender);
    (Session { logger, worker, client }, receiver)
}

fn drop_logger(session: Session) {
    let Session { logger, mut worker, mut client } = session;
    std::mem::drop(logger);
    run_worker(&mut worker, &mut client);
}

#[test]
fn blocking_logger_tests_test_no_messages_sent() {
    let (session, receiver) = create_default_logger();

    drop_logger(session);

    let messages: Vec<DataDogLog> = receiver.iter().collect();
    assert_eq!(0, messages.len());
}

#[test]
fn blocking_logger_tests_test_one_message_sent() {
    let (session, receiver) = create_default_logger();

    session.logger.log("message", DataDogLogLevel::Alert);

    drop_logger(session);

    let messages: Vec<DataDogLog> = receiver.iter().collect();
    assert_eq!(1, messages.len());
}

#[test]
fn blocking_logger_tests_test_many_messages_sent() {
    let (session, receiver) = create_default_logger();

    let iterations = 1000;

    for i in 0..iterations {
        session.logger.log(&format!("message{}", i), DataDogLogLevel::Informational);
    }

    drop_logger(session);

    let messages: Vec<DataDogLog> = receiver.iter().collect();
    assert_eq!(iterations, messages.len());
}

#[test]
fn blocking_logger_tests_test_messages_are_not_duplicated() {
    let (session, receiver) = create_default_logger();

    let iterations = 1000;

    for i in 0..iterations {
        session.logger.log(&format!("message{}", i), DataDogLogLevel::Informational);
    }

    drop_logger(session);

    let mut messages: Vec<DataDogLog> = receiver.iter().collect();
    messages.dedup();
    assert_eq!(iterations, messages.len());
}

#[test]
fn blocking_logger_tests_test_messages_are_streamed() {
    let (mut session, receiver) = create_default_logger();

    let mut count = 0;
    for j in 0..10 {
        for i in 0..10 {
            session.logger.log(&format!("message{}", i), DataDogLogLevel::Informational);
        }

        loop {
            match receiver.try_recv() {
                Ok(_) => {
                    count += 1;
                    if count % 10 == 0 {
                        break;
                    }
                }
                Err(_) => {
                    let input = session.worker.next_input();
                    session.worker.deliver(&mut session.client, input);
                }
            }
        }

        assert_eq!(10 * (j + 1), count);
    }

    drop_logger(session);
}

#[test]
fn test_simple_blocking_logger_run() {
    let (sender, receiver) = unbounded();
    let (logger, mut worker) = DataDogLogger::new(DataDogConfig::default());
    let mut client = DataDogClientStub::new(sender);

    logger.log("message", DataDogLogLevel::Alert);

    std::mem::drop(logger);
    run_worker(&mut worker, &mut client);
    std::mem::drop(client);

    let messages: Vec<DataDogLog> = receiver.iter().collect();
    assert_eq!(1, messages.len());
}

#[test]
fn thousand_records_arrive_once_in_order() {
    let (sender, receiver) = unbounded();
    let (mut logger, mut worker) = DataDogLogger::new(self_log_config());
    for i in 0..1000 {
        logger.log(&format!("message{}", i), DataDogLogLevel::Informational);
    }
    logger.shutdown();
    let mut client = DataDogClientStub::new(sender);
    run_worker(&mut worker, &mut client);
    drop(client.sender);

    let messages: Vec<DataDogLog> = receiver.iter().collect();
    assert_eq!(1000, messages.len());
    for (i, m) in messages.iter().enumerate() {
        assert_eq!(format!("message{}", i), m.message);
    }
    assert!(client.batches.iter().all(|&n| n > 0 && n <= 50));
    assert_eq!(20, client.batches.len());

    let events = events_of(&logger);
    assert_eq!(SelfLogEvent::Start, events[0]);
    assert_eq!(SelfLogEvent::Stop, *events.last().unwrap());
    assert!(events[1..events.len() - 1].iter().all(|e| *e == SelfLogEvent::Success));
}

#[test]
fn empty_session_reports_start_and_stop_only() {
    let (sender, receiver) = unbounded();
    let (logger, mut worker) = DataDogLogger::new(self_log_config());
    let events_end = logger.selflog().as_ref().unwrap().clone();
    drop(logger);
    let mut client = DataDogClientStub::new(sender);
    run_worker(&mut worker, &mut client);
    drop(client.sender);
    drop(worker);

    assert_eq!(0, receiver.iter().count());
    assert!(client.batches.is_empty());
    let events: Vec<SelfLogEvent> = events_end.iter().collect();
    assert_eq!(vec![SelfLogEvent::Start, SelfLogEvent::Stop], events);
}

#[test]
fn clean_run_reports_success_per_batch() {
    let (sender, _receiver) = unbounded();
    let (mut logger, mut worker) = DataDogLogger::new(self_log_config());
    for i in 0..3 {
        logger.log(&format!("message{}", i), DataDogLogLevel::Error);
    }
    logger.shutdown();
    let mut client = DataDogClientStub::new(sender);
    run_worker(&mut worker, &mut client);

    assert_eq!(vec![3], client.batches);
    assert_eq!(
        vec![SelfLogEvent::Start, SelfLogEvent::Success, SelfLogEvent::Stop],
        events_of(&logger)
    );
}

#[test]
fn failing_transport_reports_client_errors_and_sends_each_batch_once() {
    let (sender, receiver) = unbounded();
    let (mut logger, mut worker) = DataDogLogger::new(self_log_config());
    for i in 0..60 {
        logger.log(&format!("message{}", i), DataDogLogLevel::Warning);
    }
    logger.shutdown();
    let mut client = DataDogClientStub::new(sender);
    client.should_error = true;
    run_worker(&mut worker, &mut client);
    drop(client.sender);

    assert_eq!(vec![50, 10], client.batches);
    assert_eq!(0, receiver.iter().count());
    let error = SelfLogEvent::ClientError("Succesfull error inside DataDogClientStub".into());
    assert_eq!(
        vec![SelfLogEvent::Start, error.clone(), error, SelfLogEvent::Stop],
        events_of(&logger)
    );
}

#[test]
fn full_channel_drops_record_and_reports_logger_error() {
    let config = DataDogConfig {
        enable_self_log: true,
        messages_channel_capacity: Some(1),
        ..Default::default()
    };
    let (logger, mut worker) = DataDogLogger::new(config);
    logger.log("first", DataDogLogLevel::Notice);
    logger.log("second", DataDogLogLevel::Notice);
    logger.log("third", DataDogLogLevel::Notice);

    let full = SelfLogEvent::LoggerError("sending on a full channel".into());
    assert_eq!(vec![SelfLogEvent::Start, full.clone(), full], events_of(&logger));

    drop(logger);
    let (sender, receiver) = unbounded();
    let mut client = DataDogClientStub::new(sender);
    run_worker(&mut worker, &mut client);
    drop(client.sender);
    let messages: Vec<String> = receiver.iter().map(|m| m.message).collect();
    assert_eq!(vec!["first".to_string()], messages);
}

#[test]
fn log_after_shutdown_sends_nothing() {
    let (mut logger, mut worker) = DataDogLogger::new(self_log_config());
    logger.shutdown();
    logger.log("late", DataDogLogLevel::Debug);
    let (sender, receiver) = unbounded();
    let mut client = DataDogClientStub::new(sender);
    run_worker(&mut worker, &mut client);
    drop(client.sender);
    assert_eq!(0, receiver.iter().count());
    assert_eq!(vec![SelfLogEvent::Start, SelfLogEvent::Stop], events_of(&logger));
}

#[test]
fn self_log_disabled_has_no_channel() {
    let (logger, _worker) = DataDogLogger::new(DataDogConfig::default());
    assert!(logger.selflog().is_none());
}

#[test]
fn record_carries_configured_fields() {
    let config = DataDogConfig {
        tags: Some("env:test".into()),
        service: Some("svc".into()),
        hostname: Some("box".into()),
        ..Default::default()
    };
    let (logger, _worker) = DataDogLogger::new(config);
    let record = logger.make_log("hello", DataDogLogLevel::Critical);
    assert_eq!("hello", record.message);
    assert_eq!(Some("env:test".to_string()), record.ddtags);
    assert_eq!("rust", record.ddsource);
    assert_eq!("box", record.host);
    assert_eq!("svc", record.service);
    assert_eq!("crit", record.level);

    let (plain, _worker) = DataDogLogger::new(DataDogConfig::default());
    let record = plain.make_log("hi", DataDogLogLevel::Informational);
    assert_eq!(None, record.ddtags);
    assert_eq!("", record.host);
    assert_eq!("", record.service);
    assert_eq!("info", record.level);
}

#[test]
fn worker_sees_closed_after_termination() {
    let (logger, mut worker) = DataDogLogger::new(DataDogConfig::default());
    drop(logger);
    let (sender, _receiver) = unbounded();
    let mut client = DataDogClientStub::new(sender);
    run_worker(&mut worker, &mut client);
    assert!(worker.is_terminated());
    assert!(matches!(worker.next_input(), Received::Closed));
}

#[test]
fn log_reports_what_it_did() {
    let config = DataDogConfig {
        enable_self_log: true,
        messages_channel_capacity: Some(1),
        ..Default::default()
    };
    let (mut logger, worker) = DataDogLogger::new(config);
    assert!(matches!(logger.log("first", DataDogLogLevel::Notice), LogOutcome::Accepted));
    match logger.log("second", DataDogLogLevel::Error) {
        LogOutcome::Refused(EnqueueError::Full, record, Some(event)) => {
            assert_eq!("second", record.message);
            assert_eq!("err", record.level);
            assert_eq!(SelfLogEvent::LoggerError("sending on a full channel".into()), event);
        }
        other => panic!("unexpected {:?}", other),
    }
    drop(worker);
    match logger.log("third", DataDogLogLevel::Error) {
        LogOutcome::Refused(EnqueueError::Disconnected, record, Some(event)) => {
            assert_eq!("third", record.message);
            assert_eq!(SelfLogEvent::LoggerError("sending on a closed channel".into()), event);
        }
        other => panic!("unexpected {:?}", other),
    }
    logger.shutdown();
    assert!(matches!(logger.log("late", DataDogLogLevel::Error), LogOutcome::NotSent));
    let full = SelfLogEvent::LoggerError("sending on a full channel".into());
    let closed = SelfLogEvent::LoggerError("sending on a closed channel".into());
    assert_eq!(vec![SelfLogEvent::Start, full, closed], events_of(&logger));
}

#[test]
fn refusal_without_self_log_offers_no_event() {
    let config = DataDogConfig { messages_channel_capacity: Some(0), ..Default::default() };
    let (logger, _worker) = DataDogLogger::new(config);
    match logger.log("dropped", DataDogLogLevel::Debug) {
        LogOutcome::Refused(EnqueueError::Full, record, None) => assert_eq!("dropped", record.message),
        other => panic!("unexpected {:?}", other),
    }
}

#[test]
fn unbounded_channel_accepts_beyond_default_capacity() {
    let config = DataDogConfig { messages_channel_capacity: None, ..Default::default() };
    let (logger, _worker) = DataDogLogger::new(config);
    for i in 0..10_001 {
        assert!(matches!(logger.log(&format!("m{}", i), DataDogLogLevel::Debug), LogOutcome::Accepted));
    }
}

#[test]
fn default_channel_is_bounded_at_ten_thousand() {
    let (logger, _worker) = DataDogLogger::new(DataDogConfig::default());
    for i in 0..10_000 {
        assert!(matches!(logger.log(&format!("m{}", i), DataDogLogLevel::Debug), LogOutcome::Accepted));
    }
    assert!(matches!(
        logger.log("one too many", DataDogLogLevel::Debug),
        LogOutcome::Refused(EnqueueError::Full, _, None)
    ));
}
