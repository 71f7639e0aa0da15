//! Financial-ratio analysis and equity valuation over a company's yearly
//! financial statements.

pub mod analyzer;
pub mod data_source;
pub mod decimal;
pub mod domain;
pub mod error;
pub mod excel;
pub mod utils;
pub mod validation;

pub use error::AnalyzerError;
