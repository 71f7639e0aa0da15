//! The configuration of an analysis: how accounts map to groups, and the
//! rules that statements are validated against.

use vstd::prelude::*;
use crate::decimal::Amount;

verus! {

/// The source names that one canonical account goes by.
#[derive(Debug, Clone)]
pub struct AccountAliases {
    pub account: String,
    pub aliases: Vec<String>,
}

/// Which accounts are operating or financial assets and liabilities.
#[derive(Debug, Clone)]
pub struct AccountMapping {
    pub operating_assets: Vec<AccountAliases>,
    pub financial_assets: Vec<AccountAliases>,
    pub operating_liabilities: Vec<AccountAliases>,
    pub financial_liabilities: Vec<AccountAliases>,
}

impl AccountMapping {
    /// Where the account mapping is read from by default.
    pub fn default_path() -> (r: &'static str)
        ensures
            r@ == "config/account_mapping.toml"@,
    {
        "config/account_mapping.toml"
    }
}

/// The accounts whose amount may be negative.
#[derive(Debug, Clone)]
pub struct AllowNegative {
    pub accounts: Vec<String>,
}

impl AllowNegative {
    /// The account is among those that may be negative.
    pub open spec fn allows_spec(&self, account: Seq<char>) -> bool {
        exists|i: int| 0 <= i < self.accounts@.len() && (#[trigger] self.accounts@[i])@ == account
    }

    /// Whether the account is among those that may be negative.
    pub fn allows(&self, account: &str) -> (r: bool)
        ensures
            r == self.allows_spec(account@),
    {
        let mut i: usize = 0;
        while i < self.accounts.len()
            invariant
                i <= self.accounts@.len(),
                forall|j: int| 0 <= j < i ==> (#[trigger] self.accounts@[j])@ != account@,
            decreases self.accounts@.len() - i,
        {
            if *self.accounts[i].as_str() == *account {
                return true;
            }
            i += 1;
        }
        false
    }
}

/// The accounts that each kind of statement must have.
#[derive(Debug, Clone)]
pub struct RequiredAccounts {
    pub balance_sheet: Vec<String>,
    pub income_statement: Vec<String>,
    pub cashflow_statement: Vec<String>,
}

/// The range in which a ratio is plausible, both ends included.
#[derive(Debug, Clone, Copy)]
pub struct RangeLimit {
    pub min: Amount,
    pub max: Amount,
}

impl RangeLimit {
    /// The value lies below `min` or above `max`.
    pub open spec fn excludes_spec(&self, value: Amount) -> bool {
        value.lt_value(self.min) || self.max.lt_value(value)
    }

    /// Whether the value lies outside the range.
    pub fn excludes(&self, value: Amount) -> (r: bool)
        ensures
            r == self.excludes_spec(value),
    {
        value.less_than(&self.min) || value.greater_than(&self.max)
    }
}

/// The plausible ranges of the ratios that validation looks at.
#[derive(Debug, Clone, Copy)]
pub struct RatioRanges {
    pub current_ratio: RangeLimit,
    pub debt_to_asset: RangeLimit,
    pub gross_margin: RangeLimit,
    pub roe: RangeLimit,
}

/// The year-on-year changes above which a figure is conspicuous.
#[derive(Debug, Clone, Copy)]
pub struct YoyThresholds {
    pub revenue_change: Amount,
    pub profit_change: Amount,
    pub asset_change: Amount,
}

/// The rules that statements are validated against.
#[derive(Debug, Clone)]
pub struct ValidationRules {
    pub allow_negative: AllowNegative,
    pub required_accounts: RequiredAccounts,
    pub ratio_ranges: RatioRanges,
    pub yoy_thresholds: YoyThresholds,
}

impl ValidationRules {
    /// Where the validation rules are read from by default.
    pub fn default_path() -> (r: &'static str)
        ensures
            r@ == "config/validation_rules.toml"@,
    {
        "config/validation_rules.toml"
    }
}

/// The whole configuration.
#[derive(Debug, Clone)]
pub struct Config {
    pub account_mapping: AccountMapping,
    pub validation_rules: ValidationRules,
}

} // verus!
