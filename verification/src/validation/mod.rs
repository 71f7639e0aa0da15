//! Validation of statements against configured rules.

pub mod validator;

pub use validator::{
    DataValidator, Severity, ValidationError, ValidationResult, ValidationWarning,
};
