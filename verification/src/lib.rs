//! Activity-log core: normalizes raw input events into compact records,
//! accumulates pointer motion into sparse distance records, renders and
//! parses the comma-delimited durable log, plans the periodic bulk import
//! into the relational store, and drives it all from a single-consumer
//! coordinator state machine.

pub mod accum;
pub mod coordinator;
pub mod decimal;
pub mod import;
pub mod logfile;
pub mod normalize;
pub mod record;
pub mod split;

pub use decimal::MICROS_PER_UNIT;
