//! Two independent valuations: discounted cashflow, and a multiple of the
//! net profit grown over three years.
//!
//! Both take the first statement of a series as the most recent year. Amounts
//! are rounded as `rust_decimal` rounds them, so the order of the steps is part
//! of what is computed; a step whose result does not fit fails the valuation
//! with a calculation error.

use vstd::prelude::*;
use crate::decimal::{
    decimal_difference, decimal_product, decimal_quotient, decimal_sum, pow10, Amount,
};
use crate::domain::models::{CashflowStatement, IncomeStatement};
use crate::error::AnalyzerError;

verus! {

/// The number of years that are forecast one by one.
pub const FORECAST_YEARS: u32 = 3;

/// The assumptions of the discounted-cashflow valuation.
#[derive(Debug, Clone, Copy)]
pub struct DCFParams {
    pub discount_rate: Amount,
    pub perpetual_growth_rate: Amount,
    pub fcf_growth_rate: Amount,
}

/// The assumptions of the multiple valuation. The low estimate takes the
/// higher yield, and so the lower multiple.
#[derive(Debug, Clone, Copy)]
pub struct TangchaoParams {
    pub net_profit_growth_rate: Amount,
    pub low_risk_free_rate: Amount,
    pub high_risk_free_rate: Amount,
    pub safety_margin: Amount,
}

/// All the assumptions of a valuation.
#[derive(Debug, Clone, Copy)]
pub struct ValuationParams {
    pub dcf: DCFParams,
    pub tangchao: TangchaoParams,
    pub total_shares: Amount,
}

impl ValuationParams {
    /// Discount rate 8%, perpetual growth 3%, cashflow growth 10%; profit
    /// growth 10%, yields 4% and 2%, safety margin 0.7; 100,000,000 shares.
    pub open spec fn default_spec() -> ValuationParams {
        ValuationParams {
            dcf: DCFParams {
                discount_rate: Amount::of(8, 2),
                perpetual_growth_rate: Amount::of(3, 2),
                fcf_growth_rate: Amount::of(10, 2),
            },
            tangchao: TangchaoParams {
                net_profit_growth_rate: Amount::of(10, 2),
                low_risk_free_rate: Amount::of(4, 2),
                high_risk_free_rate: Amount::of(2, 2),
                safety_margin: Amount::of(7, 1),
            },
            total_shares: Amount::of(100_000_000, 0),
        }
    }
}

impl Default for ValuationParams {
    fn default() -> (r: Self)
        ensures
            r == ValuationParams::default_spec(),
    {
        ValuationParams {
            dcf: DCFParams {
                discount_rate: Amount::new(8, 2),
                perpetual_growth_rate: Amount::new(3, 2),
                fcf_growth_rate: Amount::new(10, 2),
            },
            tangchao: TangchaoParams {
                net_profit_growth_rate: Amount::new(10, 2),
                low_risk_free_rate: Amount::new(4, 2),
                high_risk_free_rate: Amount::new(2, 2),
                safety_margin: Amount::new(7, 1),
            },
            total_shares: Amount::new(100_000_000, 0),
        }
    }
}

/// The result of the discounted-cashflow valuation.
#[derive(Debug, Clone, Copy)]
pub struct DCFValuation {
    pub enterprise_value: Amount,
    pub price_per_share: Amount,
}

/// The result of the multiple valuation.
#[derive(Debug, Clone, Copy)]
pub struct TangchaoValuation {
    pub low_estimate: Amount,
    pub high_estimate: Amount,
    pub safety_margin_price: Amount,
}

/// Both valuations.
#[derive(Debug, Clone, Copy)]
pub struct ValuationResult {
    pub dcf: DCFValuation,
    pub tangchao: TangchaoValuation,
}

/// How a valuation ends: with a value, with a parameter error, or with a
/// calculation error.
pub enum Outcome<T> {
    Value(T),
    ParameterError,
    CalculationError,
}

/// `start * factor * ... * factor`, with `n` factors, multiplied from the left.
pub open spec fn compounded_spec(start: Amount, factor: Amount, n: nat) -> Option<Amount>
    decreases n,
{
    if n == 0 {
        Some(start)
    } else {
        match compounded_spec(start, factor, (n - 1) as nat) {
            Some(p) => decimal_product(p, factor),
            None => None,
        }
    }
}

/// The present value of the cashflow of one forecast year:
/// `base * growth^year / discount^year`, where `growth` and `discount` are one
/// plus the respective rate.
pub open spec fn discounted_cashflow_spec(
    base: Amount,
    growth: Amount,
    discount: Amount,
    year: nat,
) -> Option<Amount> {
    match (
        compounded_spec(Amount::one_spec(), growth, year),
        compounded_spec(Amount::one_spec(), discount, year),
    ) {
        (Some(growth_factor), Some(discount_factor)) => match decimal_product(
            base,
            growth_factor,
        ) {
            Some(cashflow) => decimal_quotient(cashflow, discount_factor),
            None => None,
        },
        _ => None,
    }
}

/// The sum of the present values of the forecast years 1 to `years`, added up
/// from year 1 on.
pub open spec fn explicit_value_spec(
    base: Amount,
    growth: Amount,
    discount: Amount,
    years: nat,
) -> Option<Amount>
    decreases years,
{
    if years == 0 {
        Some(Amount::zero_spec())
    } else {
        match (
            explicit_value_spec(base, growth, discount, (years - 1) as nat),
            discounted_cashflow_spec(base, growth, discount, years),
        ) {
            (Some(sum), Some(value)) => decimal_sum(sum, value),
            _ => None,
        }
    }
}

/// The present value of all cashflows after the forecast years:
/// `base * growth^n * (1 + g) / (r - g) / discount^n` for the discount rate `r`,
/// the perpetual growth rate `g` and `n` forecast years.
pub open spec fn terminal_value_spec(
    base: Amount,
    growth: Amount,
    discount: Amount,
    params: DCFParams,
) -> Option<Amount> {
    match (
        compounded_spec(Amount::one_spec(), growth, FORECAST_YEARS as nat),
        decimal_sum(Amount::one_spec(), params.perpetual_growth_rate),
        decimal_difference(params.discount_rate, params.perpetual_growth_rate),
        compounded_spec(Amount::one_spec(), discount, FORECAST_YEARS as nat),
    ) {
        (Some(growth_factor), Some(perpetual), Some(spread), Some(discount_factor)) => {
            match decimal_product(base, growth_factor) {
                Some(cashflow) => match decimal_product(cashflow, perpetual) {
                    Some(grown) => match decimal_quotient(grown, spread) {
                        Some(value) => decimal_quotient(value, discount_factor),
                        None => None,
                    },
                    None => None,
                },
                None => None,
            }
        },
        _ => None,
    }
}

/// The discounted-cashflow valuation of a base free cashflow: the forecast
/// years and the terminal value make the enterprise value, and that over the
/// number of shares makes the price per share.
pub open spec fn dcf_value_spec(params: ValuationParams, base: Amount) -> Option<DCFValuation> {
    match (
        decimal_sum(Amount::one_spec(), params.dcf.fcf_growth_rate),
        decimal_sum(Amount::one_spec(), params.dcf.discount_rate),
    ) {
        (Some(growth), Some(discount)) => match (
            explicit_value_spec(base, growth, discount, FORECAST_YEARS as nat),
            terminal_value_spec(base, growth, discount, params.dcf),
        ) {
            (Some(explicit), Some(terminal)) => match decimal_sum(explicit, terminal) {
                Some(enterprise_value) => match decimal_quotient(
                    enterprise_value,
                    params.total_shares,
                ) {
                    Some(price_per_share) => Some(
                        DCFValuation { enterprise_value, price_per_share },
                    ),
                    None => None,
                },
                None => None,
            },
            _ => None,
        },
        _ => None,
    }
}

/// The valuation of no cashflow at all.
pub open spec fn zero_dcf() -> DCFValuation {
    DCFValuation { enterprise_value: Amount::zero_spec(), price_per_share: Amount::zero_spec() }
}

/// The discount rate does not exceed the perpetual growth rate, so that a
/// growing perpetuity has no value.
pub open spec fn rates_invalid(params: DCFParams) -> bool {
    params.discount_rate.le_value(params.perpetual_growth_rate)
}

/// How the discounted-cashflow valuation of a series of free cashflows ends,
/// the most recent year first.
pub open spec fn dcf_outcome(params: ValuationParams, free_cashflows: Seq<Amount>) -> Outcome<
    DCFValuation,
> {
    if rates_invalid(params.dcf) {
        Outcome::ParameterError
    } else if free_cashflows.len() == 0 {
        Outcome::Value(zero_dcf())
    } else {
        match dcf_value_spec(params, free_cashflows[0]) {
            Some(v) => Outcome::Value(v),
            None => Outcome::CalculationError,
        }
    }
}

/// The multiple valuation of a net profit: the profit grown over the forecast
/// years, times one over each yield, over the number of shares; and the low
/// estimate times the safety margin.
pub open spec fn tangchao_value_spec(params: ValuationParams, net_profit: Amount) -> Option<
    TangchaoValuation,
> {
    match (
        decimal_quotient(Amount::one_spec(), params.tangchao.low_risk_free_rate),
        decimal_quotient(Amount::one_spec(), params.tangchao.high_risk_free_rate),
        decimal_sum(Amount::one_spec(), params.tangchao.net_profit_growth_rate),
    ) {
        (Some(low_multiple), Some(high_multiple), Some(growth)) => match compounded_spec(
            net_profit,
            growth,
            FORECAST_YEARS as nat,
        ) {
            Some(future_profit) => match (
                decimal_product(future_profit, low_multiple),
                decimal_product(future_profit, high_multiple),
            ) {
                (Some(low_value), Some(high_value)) => match (
                    decimal_quotient(low_value, params.total_shares),
                    decimal_quotient(high_value, params.total_shares),
                ) {
                    (Some(low_estimate), Some(high_estimate)) => match decimal_product(
                        low_estimate,
                        params.tangchao.safety_margin,
                    ) {
                        Some(safety_margin_price) => Some(
                            TangchaoValuation { low_estimate, high_estimate, safety_margin_price },
                        ),
                        None => None,
                    },
                    _ => None,
                },
                _ => None,
            },
            None => None,
        },
        _ => None,
    }
}

/// The valuation of no profit at all.
pub open spec fn zero_tangchao() -> TangchaoValuation {
    TangchaoValuation {
        low_estimate: Amount::zero_spec(),
        high_estimate: Amount::zero_spec(),
        safety_margin_price: Amount::zero_spec(),
    }
}

/// How the multiple valuation of a series of net profits ends, the most recent
/// year first.
pub open spec fn tangchao_outcome(params: ValuationParams, net_profits: Seq<Amount>) -> Outcome<
    TangchaoValuation,
> {
    if net_profits.len() == 0 {
        Outcome::Value(zero_tangchao())
    } else {
        match tangchao_value_spec(params, net_profits[0]) {
            Some(v) => Outcome::Value(v),
            None => Outcome::CalculationError,
        }
    }
}

/// How both valuations together end: the discounted-cashflow valuation comes
/// first, and its error, if it has one, is the error of both.
pub open spec fn valuation_outcome(
    params: ValuationParams,
    net_profits: Seq<Amount>,
    free_cashflows: Seq<Amount>,
) -> Outcome<ValuationResult> {
    match dcf_outcome(params, free_cashflows) {
        Outcome::Value(dcf) => match tangchao_outcome(params, net_profits) {
            Outcome::Value(tangchao) => Outcome::Value(ValuationResult { dcf, tangchao }),
            Outcome::ParameterError => Outcome::ParameterError,
            Outcome::CalculationError => Outcome::CalculationError,
        },
        Outcome::ParameterError => Outcome::ParameterError,
        Outcome::CalculationError => Outcome::CalculationError,
    }
}

/// The free cashflows of a series of cashflow statements.
pub open spec fn free_cashflows_of(statements: Seq<CashflowStatement>) -> Seq<Amount> {
    Seq::new(statements.len(), |i: int| statements[i].free_cashflow)
}

/// The net profits of a series of income statements.
pub open spec fn net_profits_of(statements: Seq<IncomeStatement>) -> Seq<Amount> {
    Seq::new(statements.len(), |i: int| statements[i].net_profit)
}

/// A result and an outcome say the same: the same value, or an error of the
/// same kind.
pub open spec fn agrees<T>(result: Result<T, AnalyzerError>, outcome: Outcome<T>) -> bool {
    match result {
        Ok(v) => outcome == Outcome::Value(v),
        Err(e) => match outcome {
            Outcome::Value(_) => false,
            Outcome::ParameterError => e is Parameter,
            Outcome::CalculationError => e is Calculation,
        },
    }
}

fn compounded(start: Amount, factor: Amount, n: u32) -> (r: Option<Amount>)
    ensures
        r == compounded_spec(start, factor, n as nat),
{
    let mut value = start;
    let mut i: u32 = 0;
    while i < n
        invariant
            i <= n,
            Some(value) == compounded_spec(start, factor, i as nat),
        decreases n - i,
    {
        match value.checked_mul(factor) {
            Some(next) => {
                value = next;
            },
            None => {
                proof {
                    lemma_compounded_fails_on(start, factor, (i + 1) as nat, n as nat);
                }
                return None;
            },
        }
        i += 1;
    }
    Some(value)
}

/// Once compounding has failed, it fails for every larger number of factors.
proof fn lemma_compounded_fails_on(start: Amount, factor: Amount, k: nat, n: nat)
    requires
        k <= n,
        compounded_spec(start, factor, k) is None,
    ensures
        compounded_spec(start, factor, n) is None,
    decreases n - k,
{
    if k < n {
        lemma_compounded_fails_on(start, factor, k + 1, n);
    }
}

fn discounted_cashflow(base: Amount, growth: Amount, discount: Amount, year: u32) -> (r: Option<
    Amount,
>)
    ensures
        r == discounted_cashflow_spec(base, growth, discount, year as nat),
{
    match (compounded(Amount::one(), growth, year), compounded(Amount::one(), discount, year)) {
        (Some(growth_factor), Some(discount_factor)) => {
            match base.checked_mul(growth_factor) {
                Some(cashflow) => cashflow.checked_div(discount_factor),
                None => None,
            }
        },
        _ => None,
    }
}

/// Once the sum of the forecast years has failed, it fails for every longer
/// forecast.
proof fn lemma_explicit_value_fails_on(
    base: Amount,
    growth: Amount,
    discount: Amount,
    k: nat,
    n: nat,
)
    requires
        k <= n,
        explicit_value_spec(base, growth, discount, k) is None,
    ensures
        explicit_value_spec(base, growth, discount, n) is None,
    decreases n - k,
{
    if k < n {
        lemma_explicit_value_fails_on(base, growth, discount, k + 1, n);
    }
}

fn explicit_value(base: Amount, growth: Amount, discount: Amount) -> (r: Option<Amount>)
    ensures
        r == explicit_value_spec(base, growth, discount, FORECAST_YEARS as nat),
{
    let mut sum = Amount::zero();
    let mut year: u32 = 1;
    while year <= FORECAST_YEARS
        invariant
            1 <= year <= FORECAST_YEARS + 1,
            Some(sum) == explicit_value_spec(base, growth, discount, (year - 1) as nat),
        decreases FORECAST_YEARS + 1 - year,
    {
        let next = match discounted_cashflow(base, growth, discount, year) {
            Some(value) => sum.checked_add(value),
            None => None,
        };
        match next {
            Some(s) => {
                sum = s;
            },
            None => {
                proof {
                    lemma_explicit_value_fails_on(
                        base,
                        growth,
                        discount,
                        year as nat,
                        FORECAST_YEARS as nat,
                    );
                }
                return None;
            },
        }
        year += 1;
    }
    Some(sum)
}

fn terminal_value(base: Amount, growth: Amount, discount: Amount, params: &DCFParams) -> (r:
    Option<Amount>)
    ensures
        r == terminal_value_spec(base, growth, discount, *params),
{
    match (
        compounded(Amount::one(), growth, FORECAST_YEARS),
        Amount::one().checked_add(params.perpetual_growth_rate),
        params.discount_rate.checked_sub(params.perpetual_growth_rate),
        compounded(Amount::one(), discount, FORECAST_YEARS),
    ) {
        (Some(growth_factor), Some(perpetual), Some(spread), Some(discount_factor)) => {
            match base.checked_mul(growth_factor) {
                Some(cashflow) => match cashflow.checked_mul(perpetual) {
                    Some(grown) => match grown.checked_div(spread) {
                        Some(value) => value.checked_div(discount_factor),
                        None => None,
                    },
                    None => None,
                },
                None => None,
            }
        },
        _ => None,
    }
}

/// Values a company from its statements under fixed assumptions.
#[derive(Debug, Clone, Copy)]
pub struct Valuator {
    pub params: ValuationParams,
}

impl Valuator {
    pub fn new(params: ValuationParams) -> (r: Self)
        ensures
            r.params == params,
    {
        Valuator { params }
    }

    pub fn with_default() -> (r: Self)
        ensures
            r.params == ValuationParams::default_spec(),
    {
        Valuator::new(ValuationParams::default())
    }

    /// The discounted-cashflow valuation of a base free cashflow, or `None`
    /// where a step does not fit or divides by zero.
    pub fn dcf_value(&self, base: Amount) -> (r: Option<DCFValuation>)
        ensures
            r == dcf_value_spec(self.params, base),
    {
        match (
            Amount::one().checked_add(self.params.dcf.fcf_growth_rate),
            Amount::one().checked_add(self.params.dcf.discount_rate),
        ) {
            (Some(growth), Some(discount)) => {
                match (
                    explicit_value(base, growth, discount),
                    terminal_value(base, growth, discount, &self.params.dcf),
                ) {
                    (Some(explicit), Some(terminal)) => match explicit.checked_add(terminal) {
                        Some(enterprise_value) => match enterprise_value.checked_div(
                            self.params.total_shares,
                        ) {
                            Some(price_per_share) => Some(
                                DCFValuation { enterprise_value, price_per_share },
                            ),
                            None => None,
                        },
                        None => None,
                    },
                    _ => None,
                }
            },
            _ => None,
        }
    }

    /// The multiple valuation of a net profit, or `None` where a step does not
    /// fit or divides by zero.
    pub fn tangchao_value(&self, net_profit: Amount) -> (r: Option<TangchaoValuation>)
        ensures
            r == tangchao_value_spec(self.params, net_profit),
    {
        let one = Amount::one();
        match (
            one.checked_div(self.params.tangchao.low_risk_free_rate),
            one.checked_div(self.params.tangchao.high_risk_free_rate),
            one.checked_add(self.params.tangchao.net_profit_growth_rate),
        ) {
            (Some(low_multiple), Some(high_multiple), Some(growth)) => {
                match compounded(net_profit, growth, FORECAST_YEARS) {
                    Some(future_profit) => match (
                        future_profit.checked_mul(low_multiple),
                        future_profit.checked_mul(high_multiple),
                    ) {
                        (Some(low_value), Some(high_value)) => match (
                            low_value.checked_div(self.params.total_shares),
                            high_value.checked_div(self.params.total_shares),
                        ) {
                            (Some(low_estimate), Some(high_estimate)) => {
                                match low_estimate.checked_mul(
                                    self.params.tangchao.safety_margin,
                                ) {
                                    Some(safety_margin_price) => Some(
                                        TangchaoValuation {
                                            low_estimate,
                                            high_estimate,
                                            safety_margin_price,
                                        },
                                    ),
                                    None => None,
                                }
                            },
                            _ => None,
                        },
                        _ => None,
                    },
                    None => None,
                }
            },
            _ => None,
        }
    }

    /// Whether the valuation by discounted cashflow deserves a warning: the
    /// most recent free cashflow is zero or negative.
    pub fn fcf_is_unreliable(cashflows: &[CashflowStatement]) -> (r: bool)
        ensures
            r == (cashflows@.len() > 0 && cashflows@[0].free_cashflow.le_value(
                Amount::zero_spec(),
            )),
    {
        cashflows.len() > 0 && cashflows[0].free_cashflow.at_most(&Amount::zero())
    }

    /// The discounted-cashflow valuation from a series of cashflow statements,
    /// the most recent year first.
    ///
    /// Fails with a parameter error where the discount rate does not exceed
    /// the perpetual growth rate, whatever else is given. Otherwise an empty
    /// series is valued at zero, and any other by its first free cashflow; a
    /// step that does not fit fails with a calculation error.
    pub fn calculate_dcf(&self, cashflows: &[CashflowStatement]) -> (r: Result<
        DCFValuation,
        AnalyzerError,
    >)
        ensures
            agrees(r, dcf_outcome(self.params, free_cashflows_of(cashflows@))),
            rates_invalid(self.params.dcf) ==> r is Err && r->Err_0 is Parameter,
            !rates_invalid(self.params.dcf) && cashflows@.len() == 0 ==> r == Ok::<
                DCFValuation,
                AnalyzerError,
            >(zero_dcf()),
    {
        if self.params.dcf.discount_rate.at_most(&self.params.dcf.perpetual_growth_rate) {
            return Err(AnalyzerError::Parameter("DCF估值错误：折现率必须大于永续增长率".to_string()));
        }
        if cashflows.len() == 0 {
            return Ok(
                DCFValuation { enterprise_value: Amount::zero(), price_per_share: Amount::zero() },
            );
        }
        match self.dcf_value(cashflows[0].free_cashflow) {
            Some(v) => Ok(v),
            None => Err(AnalyzerError::Calculation("DCF估值溢出或除数为零".to_string())),
        }
    }

    /// The multiple valuation from a series of income statements, the most
    /// recent year first.
    ///
    /// An empty series is valued at zero, and any other by its first net
    /// profit; a step that does not fit, or a yield of zero, fails with a
    /// calculation error.
    pub fn calculate_tangchao(&self, income_statements: &[IncomeStatement]) -> (r: Result<
        TangchaoValuation,
        AnalyzerError,
    >)
        ensures
            agrees(r, tangchao_outcome(self.params, net_profits_of(income_statements@))),
            income_statements@.len() == 0 ==> r == Ok::<TangchaoValuation, AnalyzerError>(
                zero_tangchao(),
            ),
    {
        if income_statements.len() == 0 {
            return Ok(
                TangchaoValuation {
                    low_estimate: Amount::zero(),
                    high_estimate: Amount::zero(),
                    safety_margin_price: Amount::zero(),
                },
            );
        }
        match self.tangchao_value(income_statements[0].net_profit) {
            Some(v) => Ok(v),
            None => Err(AnalyzerError::Calculation("唐朝估值溢出或除数为零".to_string())),
        }
    }

    /// Both valuations. Neither depends on the other; the error of the
    /// discounted-cashflow valuation, if it has one, comes first.
    pub fn calculate(
        &self,
        income_statements: &[IncomeStatement],
        cashflow_statements: &[CashflowStatement],
    ) -> (r: Result<ValuationResult, AnalyzerError>)
        ensures
            agrees(
                r,
                valuation_outcome(
                    self.params,
                    net_profits_of(income_statements@),
                    free_cashflows_of(cashflow_statements@),
                ),
            ),
    {
        match self.calculate_dcf(cashflow_statements) {
            Ok(dcf) => match self.calculate_tangchao(income_statements) {
                Ok(tangchao) => Ok(ValuationResult { dcf, tangchao }),
                Err(e) => Err(e),
            },
            Err(e) => Err(e),
        }
    }
}

/// The default assumptions admit a discounted-cashflow valuation: their
/// discount rate of 8% exceeds their perpetual growth rate of 3%.
pub proof fn lemma_default_rates_are_valid()
    ensures
        !rates_invalid(ValuationParams::default_spec().dcf),
{
    Amount::lemma_of(8, 2);
    Amount::lemma_of(3, 2);
    reveal_with_fuel(pow10, 3);
}

/// The discounted-cashflow valuation depends on nothing but the assumptions
/// and the most recent free cashflow: two series that agree on whether they
/// are empty and on their first free cashflow end the same way under the same
/// assumptions. So does the same series valued twice.
pub proof fn lemma_dcf_repeatable(
    params: ValuationParams,
    first: Seq<Amount>,
    second: Seq<Amount>,
)
    requires
        first.len() == 0 <==> second.len() == 0,
        first.len() > 0 ==> first[0] == second[0],
    ensures
        dcf_outcome(params, first) == dcf_outcome(params, second),
{
}

/// The multiple valuation depends on nothing but the assumptions and the most
/// recent net profit: two series that agree on whether they are empty and on
/// their first net profit end the same way under the same assumptions. So does
/// the same series valued twice.
pub proof fn lemma_tangchao_repeatable(
    params: ValuationParams,
    first: Seq<Amount>,
    second: Seq<Amount>,
)
    requires
        first.len() == 0 <==> second.len() == 0,
        first.len() > 0 ==> first[0] == second[0],
    ensures
        tangchao_outcome(params, first) == tangchao_outcome(params, second),
{
}

} // verus!
