//! Configuration.

pub mod config;

pub use config::{
    AccountMapping, AllowNegative, Config, RangeLimit, RatioRanges, RequiredAccounts,
    ValidationRules, YoyThresholds,
};
