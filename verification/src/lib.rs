//! Parsing of mail-server transaction logs into typed records, with the
//! statements and bookkeeping needed to load them into a relational store.
//!
//! A log file is text in a legacy single-byte code page or in UTF-8. A line
//! that begins with `#Log-type:` declares the kind of the file: inbound SMTP
//! protocol events, outbound SMTP protocol events, or message-tracking
//! events. A line that begins with `#Fields:` declares the columns of the
//! data rows after it, and may recur. Other lines that begin with `#`, and
//! blank lines, are ignored. Every other line is a row of fields between
//! commas, read under the latest column declaration.
//!
//! The lines of an SMTP file that share a session id are folded into one
//! record; every row of a message-tracking file is a record of its own.
//! A row that is shorter than its declaration is passed over. A field that
//! belongs to the identity of a record must be readable: a time stamp or an
//! SMTP sequence number that is not ends the file with an error. Any other
//! number that cannot be read is taken as absent, or as zero where every
//! record has one.
//!
//! The modules, leaves first:
//!
//! - [`text`]: texts as character sequences, and the scanning operations.
//! - [`decode`]: from the bytes of a file to its text.
//! - [`models`]: the records and their views.
//! - [`schema`]: column declarations and the fields read through them.
//! - [`extract`]: what the free-text columns give away.
//! - [`rows`]: the lines of a file, read under its column declarations.
//! - [`smtp`], [`session`], [`tracking`]: from a row to a record.
//! - [`parser`]: from a file to its records.
//! - [`database`]: statements, bound values and the steps of a batch insert.

pub mod error;
pub mod text;
pub mod models;
pub mod decode;
pub mod extract;
pub mod schema;
pub mod rows;
pub mod smtp;
pub mod session;
pub mod tracking;
pub mod parser;
pub mod database;
