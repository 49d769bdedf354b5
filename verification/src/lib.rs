//! Decoder for fixed-width daily-observation records.
//!
//! Each record is one line of text holding a station id, a year, a month,
//! an element code, and up to 31 day slots; every day slot carries a
//! five-character value field and three one-character flag fields.

pub mod codes;
pub mod error;
pub mod layout;
pub mod line;
pub mod numeric;

pub use codes::Element;
pub use codes::Measurement;
pub use codes::Quality;
pub use codes::Source;
pub use error::DecodeError;
pub use line::DlyLine;
