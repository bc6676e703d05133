//! Tools to work with the Human Interface Device (HID) protocol.
//!
//! A HID device describes the data that it sends and takes in a Report
//! Descriptor: a sequence of items, each a prefix byte and a payload of up
//! to four bytes. This crate
//!
//! - parses the bytes of a report descriptor into items and writes items
//!   back to bytes ([`report_descriptor`]),
//! - builds report descriptors item by item ([`report_builder`]),
//! - tells from a report descriptor which input reports the device will
//!   send, and decodes raw input reports against them ([`report`]),
//! - names usage pages and usages ([`usage_table`]), and
//! - returns all of this as text for people ([`display`]).
//!
//! ```
//! use hid_tools::report::{expected_input_reports, parse_raw_input_report};
//! use hid_tools::report_descriptor::parse::report_descriptor;
//!
//! let bytes: Vec<u8> = vec![
//!     0x05, 0x01, 0x09, 0x06, 0xa1, 0x01, 0x05, 0x08, 0x19, 0x01, 0x29, 0x03, 0x15, 0x00, 0x25,
//!     0x01, 0x75, 0x01, 0x95, 0x03, 0x91, 0x02, 0x95, 0x05, 0x91, 0x01, 0x05, 0x07, 0x19, 0xe0,
//!     0x29, 0xe7, 0x95, 0x08, 0x81, 0x02, 0x75, 0x08, 0x95, 0x01, 0x81, 0x01, 0x19, 0x00, 0x29,
//!     0x91, 0x26, 0xff, 0x00, 0x95, 0x06, 0x81, 0x00, 0xc0,
//! ];
//! let descriptor = report_descriptor(&bytes).unwrap();
//! print!("{}", descriptor.to_string());
//!
//! // Left shift, a and b are pressed
//! let event: Vec<u8> = vec![0x02, 0, 0x04, 0x05, 0, 0, 0, 0];
//! let expected = expected_input_reports(&descriptor).unwrap();
//! let report = parse_raw_input_report(&event, &expected).unwrap();
//! print!("{}", report.to_string());
//! ```
//!
//! The functions of the crate are verified against their contracts. The
//! few that call `bitstream_io` or `String` without a proof say so, and
//! state what is taken on trust. The contracts of the parser and of the
//! writer are stated over the same mathematical description of the format,
//! so that what is written can be parsed again, and what was parsed is
//! written to the same bytes.

pub mod display;
pub mod error;
pub mod payload;
pub mod report;
pub mod report_builder;
pub mod report_descriptor;
pub mod usage_table;
