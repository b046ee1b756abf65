//! Batch tracking of shipments.
//!
//! A run reads the rows of an input sheet into requests, asks a tracking
//! service about each shipment, and turns the answers into the rows of a
//! report. This library holds every step of that but the asking itself and
//! the reading and writing of files: which rows of the sheet ask for
//! something, how a query is signed, what a reply of the service amounts
//! to, how state codes read, which events of a history are shown, and what
//! the report's rows hold.
//!
//! Strings are modelled by their characters, lists by sequences, and each
//! type by a view made of these. What the outside crates compute (digests,
//! encodings, JSON values, times as text, workbook rows) is named, not
//! spelled out: the contracts say which named value stands where.

pub mod batch;
pub mod clock;
pub mod codes;
pub mod config;
pub mod excel;
pub mod json;
pub mod report;
pub mod response;
pub mod sheet;
pub mod shipment;
pub mod sign;
pub mod text;
pub mod trace;
