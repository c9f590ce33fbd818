//! DataDog log shipping client.
//!
//! A [`logger::DataDogLogger`] builds records and hands them, without
//! waiting, over a channel to its [`logger::LoggerWorker`]. The worker
//! collects them into batches with a [`worker::BatchAccumulator`] and sends
//! each batch once through a transport implementing
//! [`client::DataDogClient`], reporting every outcome on an optional
//! diagnostics channel of [`self_log::SelfLogEvent`]s.
//!
//! The batching decisions are a state machine whose model is in [`worker`];
//! the laws that delivery is complete and ordered, that shutdown terminates,
//! that diagnostics follow `Start`, one event per batch, `Stop`, and that TCP
//! retries are bounded are proved there, in [`logger`] and in [`client`].
pub mod channel;
pub mod client;
pub mod config;
pub mod error;
pub mod level;
pub mod logger;
pub mod record;
pub mod self_log;
pub mod text;
pub mod worker;
