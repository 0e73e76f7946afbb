//! A reading-log record builder: strict `MM-DD-YYYY` date normalization into
//! UTC timestamp text, a closed reading-status mapping, and record assembly.
pub mod calendar;
pub mod dates;
pub mod status;
pub mod book;
