//! An incremental JSON parser that reads its input byte by byte and reports
//! what it finds to a sink as a stream of events.
//!
//! A parser is made by [`init`] from a [`Config`]. [`feed`] hands it a run of
//! bytes and [`parse`] a single byte; both hand the events that the bytes
//! complete to the sink, a function that takes the kind of the event and, for
//! a scalar, the bytes of the token. [`end`] tells whether the input may end
//! where it does. Input may arrive in pieces of any size: the events are the
//! same however it is cut.
//!
//! The parser is specified by a mathematical model of its state,
//! [`model::ParserModel`], on which every operation is a function. What holds
//! of every run is proved in [`wellformed`], [`runs`] and [`validity`].

pub mod class;
pub mod model;
pub mod parser;
pub mod runs;
pub mod stepwise;
pub mod table;
pub mod types;
pub mod unicode;
pub mod validity;
pub mod wellformed;

pub use crate::parser::{end, feed, init, parse, Parser};
pub use crate::types::{Config, JError, Jev, StackMode};
