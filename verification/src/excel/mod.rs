//! What the report writers look up: figures by statement and year, and the
//! notes that explain the indicators.

pub mod descriptions;
pub mod helpers;

pub use descriptions::IndicatorDescriptions;
pub use helpers::DataHelper;
