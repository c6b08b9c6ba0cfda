//! A typed model of a UPnP Service Control Protocol Description (SCPD):
//! decoding of the raw document fields, name normalisation, argument
//! partitioning by direction and mapping of wire data types to target types.

pub mod names;
pub mod model;
pub mod document;
pub mod scpd;
pub mod laws;

pub use crate::document::{
    RawAction, RawAllowedValueRange, RawArgument, RawDocument, RawStateVariable,
};
pub use crate::model::{Bool, DataType, Direction, Error, ParseError};
pub use crate::scpd::{Action, AllowedValueRange, Argument, StateVariable, SCPD};
