//! A small event-sourcing / CQRS core.
//!
//! Aggregates are rebuilt by folding an ordered log of immutable events,
//! commands decide new events against that state, a store appends them with
//! consecutive versions, and read models replay the same log.

pub mod text;
pub mod types;
pub mod error;
pub mod aggregate;
pub mod domain_event;
pub mod formated_event;
pub mod log;
pub mod store;
pub mod command;
pub mod handler;
pub mod cqrs;
pub mod query;
pub mod query_processor;
pub mod file_eventstore;

pub use aggregate::Aggregate;
pub use aggregate::AggregateContext;
pub use command::Command;
pub use cqrs::CQRS;
pub use domain_event::DomainEvent;
pub use error::Error;
pub use file_eventstore::FileData;
pub use file_eventstore::FileEventStore;
pub use formated_event::Envelope;
pub use formated_event::FormatedEvent;
pub use error::ErrorView;
pub use given_then_test::GivenThen;
pub use given_then_test::GivenThenTest;
pub use given_then_test::TestStore;
pub use handler::Handler;
pub use handler::Handlers;
pub use query::Query;
pub use query_processor::QueryProcessor;
pub use store::Store;
pub use types::FormatedEvents;
pub use types::FormatedResult;
pub use types::MetaData;
