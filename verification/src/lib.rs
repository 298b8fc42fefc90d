//! Extraction of article headlines from a news front page, and the naming
//! and encoding of the file that records them.

pub mod article;
pub mod decimal;
pub mod error;
pub mod extract;
pub mod json;
pub mod output;
pub mod report;
pub mod request;
pub mod stamp;
pub mod text;
