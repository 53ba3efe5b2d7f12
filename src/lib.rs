//! Organisation metrics: cursor pagination over repository listings, time-windowed
//! pull-request counting, and the producer side of the row-streaming protocol.
pub mod aggregation;
pub mod date;
pub mod error;
pub mod listing;
pub mod producer;
