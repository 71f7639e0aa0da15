//! An alternate set of assumptions, and the valuation that it gives.

use vstd::prelude::*;
use crate::analyzer::valuation::{
    rates_invalid, DCFParams, TangchaoParams, ValuationParams, ValuationResult,
};
use crate::decimal::{pow10, Amount};

verus! {

/// The assumptions of a sensitivity analysis, as one flat record.
#[derive(Debug, Clone, Copy)]
pub struct SensitivityParams {
    pub discount_rate: Amount,
    pub perpetual_growth_rate: Amount,
    pub fcf_growth_rate: Amount,
    pub net_profit_growth_rate: Amount,
    pub low_risk_free_rate: Amount,
    pub high_risk_free_rate: Amount,
}

impl SensitivityParams {
    /// Discount rate 8%, perpetual growth 4%, cashflow growth -10%, profit
    /// growth 10%, yields 4% and 2%.
    pub open spec fn default_spec() -> SensitivityParams {
        SensitivityParams {
            discount_rate: Amount::of(8, 2),
            perpetual_growth_rate: Amount::of(4, 2),
            fcf_growth_rate: Amount::of(-10, 2),
            net_profit_growth_rate: Amount::of(10, 2),
            low_risk_free_rate: Amount::of(4, 2),
            high_risk_free_rate: Amount::of(2, 2),
        }
    }

    /// The safety margin of every sensitivity analysis: `0.7`.
    pub open spec fn safety_margin_spec() -> Amount {
        Amount::of(7, 1)
    }

    /// The valuation assumptions that these make with a number of shares.
    pub open spec fn valuation_params_spec(self, total_shares: Amount) -> ValuationParams {
        ValuationParams {
            dcf: DCFParams {
                discount_rate: self.discount_rate,
                perpetual_growth_rate: self.perpetual_growth_rate,
                fcf_growth_rate: self.fcf_growth_rate,
            },
            tangchao: TangchaoParams {
                net_profit_growth_rate: self.net_profit_growth_rate,
                low_risk_free_rate: self.low_risk_free_rate,
                high_risk_free_rate: self.high_risk_free_rate,
                safety_margin: SensitivityParams::safety_margin_spec(),
            },
            total_shares,
        }
    }

    /// A fresh set of valuation assumptions from these and a number of shares.
    pub fn to_valuation_params(&self, total_shares: Amount) -> (r: ValuationParams)
        ensures
            r == self.valuation_params_spec(total_shares),
    {
        ValuationParams {
            dcf: DCFParams {
                discount_rate: self.discount_rate,
                perpetual_growth_rate: self.perpetual_growth_rate,
                fcf_growth_rate: self.fcf_growth_rate,
            },
            tangchao: TangchaoParams {
                net_profit_growth_rate: self.net_profit_growth_rate,
                low_risk_free_rate: self.low_risk_free_rate,
                high_risk_free_rate: self.high_risk_free_rate,
                safety_margin: Amount::new(7, 1),
            },
            total_shares,
        }
    }
}

impl Default for SensitivityParams {
    fn default() -> (r: Self)
        ensures
            r == SensitivityParams::default_spec(),
    {
        SensitivityParams {
            discount_rate: Amount::new(8, 2),
            perpetual_growth_rate: Amount::new(4, 2),
            fcf_growth_rate: Amount::new(-10, 2),
            net_profit_growth_rate: Amount::new(10, 2),
            low_risk_free_rate: Amount::new(4, 2),
            high_risk_free_rate: Amount::new(2, 2),
        }
    }
}

/// The default assumptions of a sensitivity analysis admit a
/// discounted-cashflow valuation: their discount rate of 8% exceeds their
/// perpetual growth rate of 4%.
pub proof fn lemma_default_sensitivity_rates_are_valid(total_shares: Amount)
    ensures
        !rates_invalid(SensitivityParams::default_spec().valuation_params_spec(total_shares).dcf),
{
    Amount::lemma_of(8, 2);
    Amount::lemma_of(4, 2);
    reveal_with_fuel(pow10, 3);
}

/// The five figures of a valuation, with the assumptions that gave them.
#[derive(Debug, Clone, Copy)]
pub struct SensitivityResult {
    pub params: SensitivityParams,
    pub dcf_enterprise_value: Amount,
    pub dcf_price_per_share: Amount,
    pub tangchao_low_estimate: Amount,
    pub tangchao_high_estimate: Amount,
    pub tangchao_safety_margin_price: Amount,
}

impl SensitivityResult {
    /// The figures of a valuation laid out flat, beside the assumptions.
    pub open spec fn of(params: SensitivityParams, valuation: ValuationResult) -> SensitivityResult {
        SensitivityResult {
            params,
            dcf_enterprise_value: valuation.dcf.enterprise_value,
            dcf_price_per_share: valuation.dcf.price_per_share,
            tangchao_low_estimate: valuation.tangchao.low_estimate,
            tangchao_high_estimate: valuation.tangchao.high_estimate,
            tangchao_safety_margin_price: valuation.tangchao.safety_margin_price,
        }
    }

    /// Lays the figures of a valuation out flat, beside the assumptions.
    pub fn from_valuation(params: SensitivityParams, valuation: &ValuationResult) -> (r:
        SensitivityResult)
        ensures
            r == SensitivityResult::of(params, *valuation),
    {
        SensitivityResult {
            params,
            dcf_enterprise_value: valuation.dcf.enterprise_value,
            dcf_price_per_share: valuation.dcf.price_per_share,
            tangchao_low_estimate: valuation.tangchao.low_estimate,
            tangchao_high_estimate: valuation.tangchao.high_estimate,
            tangchao_safety_margin_price: valuation.tangchao.safety_margin_price,
        }
    }
}

} // verus!
