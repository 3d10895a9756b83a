//! Extraction engine for a university learning-management system: turns
//! fetched HTML pages into typed `Course`, `Report` and `Exam` records,
//! classifies each assignment's submission and reception state, and derives
//! a time-sensitive urgency level from an explicitly supplied current date.
//!
//! Everything the engine reads from a page crosses the trusted boundary in
//! `dom` as plain strings; every step after that — field extraction against
//! the fixed column schema, state classification, date parsing, urgency,
//! record assembly and course deduplication — is verified against the
//! specifications stated alongside the code.

pub mod assignment;
pub mod clock;
pub mod color;
pub mod config;
pub mod cookie;
pub mod course;
pub mod date;
pub mod dom;
pub mod error;
pub mod exam;
pub mod extract;
pub mod listing;
pub mod report;
pub mod text;
