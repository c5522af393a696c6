//! Verified core of a command-line score reporter.
//!
//! The library fetches nothing and prints nothing itself: it holds the logic
//! of the tool — URL construction, existence validation, score totalling,
//! colour classification and the fixed-width report layout — each function
//! with a contract. A thin unverified binary does the HTTP round trip and
//! the terminal output around it.

pub mod color;
pub mod error;
pub mod fetch;
pub mod model;
pub mod report;
pub mod text;
