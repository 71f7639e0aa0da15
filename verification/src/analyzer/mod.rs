//! The analysis itself: ratios, valuation, and valuation under other assumptions.

pub mod calculator;
pub mod sensitivity;
pub mod valuation;

pub use calculator::RatioCalculator;
pub use sensitivity::{SensitivityParams, SensitivityResult};
pub use valuation::{
    DCFParams, DCFValuation, TangchaoParams, TangchaoValuation, ValuationParams, ValuationResult,
    Valuator,
};

use vstd::prelude::*;
use crate::analyzer::calculator::{
    asset_structure_fails, is_asset_structure_of, is_leverage_analysis_of, is_profit_analysis_of,
    leverage_analysis_fails, profit_analysis_fails,
};
use crate::analyzer::valuation::{
    agrees, free_cashflows_of, net_profits_of, valuation_outcome, Outcome,
};
use crate::decimal::Amount;
use crate::domain::models::{
    statement_views, AnalysisResult, BalanceSheet, CashflowStatement, FinancialStatement,
    IncomeStatement, ReportDate, ReportType, StatementView,
};
use crate::error::AnalyzerError;
use crate::validation::validator::DataValidator;

verus! {

/// The name of the line item that holds the number of shares.
pub open spec fn share_capital_name() -> Seq<char> {
    "股本"@
}

/// The number of shares that is assumed where no statement gives one.
pub open spec fn default_total_shares() -> Amount {
    Amount::of(100_000_000, 0)
}

/// The number of shares that a statement gives, if it gives one.
pub open spec fn share_capital_of(statement: Option<StatementView>) -> Option<Amount> {
    match statement {
        Some(s) => if s.items.contains_key(share_capital_name()) {
            Some(s.items[share_capital_name()])
        } else {
            None
        },
        None => None,
    }
}

/// The number of shares of an analysis: what the statement gives, else the default.
pub open spec fn total_shares_spec(statement: Option<StatementView>) -> Amount {
    match share_capital_of(statement) {
        Some(shares) => shares,
        None => default_total_shares(),
    }
}

/// The statement of the first balance sheet, if there is one.
pub open spec fn first_sheet(sheets: Seq<BalanceSheet>) -> Option<StatementView> {
    if sheets.len() > 0 {
        Some(sheets[0].statement@)
    } else {
        None
    }
}

/// The assumptions with another number of shares.
pub open spec fn with_total_shares(params: ValuationParams, total_shares: Amount) -> ValuationParams {
    ValuationParams { dcf: params.dcf, tangchao: params.tangchao, total_shares }
}

/// The years that an analysis covers: those asked for, or, where none is asked
/// for, the three years before the current one, the latest first.
pub open spec fn resolved_years(years: Seq<i32>, current_year: i32) -> Seq<i32> {
    if years.len() == 0 {
        seq![
            (current_year - 1) as i32,
            (current_year - 2) as i32,
            (current_year - 3) as i32,
        ]
    } else {
        years
    }
}

/// What the statements of three series say, one series after the other.
pub open spec fn flattened(
    sheets: Seq<BalanceSheet>,
    incomes: Seq<IncomeStatement>,
    cashflows: Seq<CashflowStatement>,
) -> Seq<StatementView> {
    Seq::new(sheets.len(), |i: int| sheets[i].statement@) + Seq::new(
        incomes.len(),
        |i: int| incomes[i].statement@,
    ) + Seq::new(cashflows.len(), |i: int| cashflows[i].statement@)
}

/// The first statement of a kind in a series, if there is one.
pub open spec fn first_of_kind(statements: Seq<StatementView>, kind: ReportType) -> Option<
    StatementView,
>
    decreases statements.len(),
{
    if statements.len() == 0 {
        None
    } else if statements[0].report_type == kind {
        Some(statements[0])
    } else {
        first_of_kind(statements.drop_first(), kind)
    }
}

/// The net profits that the income statements of a series give when their
/// figures are derived anew from their line items, in order. `None` where the
/// figures of one of them cannot be derived.
pub open spec fn derived_net_profits(statements: Seq<StatementView>) -> Option<Seq<Amount>>
    decreases statements.len(),
{
    if statements.len() == 0 {
        Some(Seq::empty())
    } else {
        let last = statements.last();
        match derived_net_profits(statements.drop_last()) {
            Some(before) => if last.report_type == ReportType::IncomeStatement {
                match IncomeStatement::figures_of(last.items) {
                    Some(figures) => Some(before.push(figures.net_profit)),
                    None => None,
                }
            } else {
                Some(before)
            },
            None => None,
        }
    }
}

/// The free cashflows that the cashflow statements of a series give when
/// their figures are derived anew from their line items, in order. `None`
/// where the figures of one of them cannot be derived.
pub open spec fn derived_free_cashflows(statements: Seq<StatementView>) -> Option<Seq<Amount>>
    decreases statements.len(),
{
    if statements.len() == 0 {
        Some(Seq::empty())
    } else {
        let last = statements.last();
        match derived_free_cashflows(statements.drop_last()) {
            Some(before) => if last.report_type == ReportType::CashflowStatement {
                match CashflowStatement::figures_of(last.items) {
                    Some(figures) => Some(before.push(figures.free_cashflow)),
                    None => None,
                }
            } else {
                Some(before)
            },
            None => None,
        }
    }
}

/// How a sensitivity analysis of a series of statements ends: the figures of
/// the income and cashflow statements are derived anew, the number of shares
/// is that of the first balance sheet, and both valuations are made under the
/// alternate assumptions.
pub open spec fn sensitivity_outcome(
    statements: Seq<StatementView>,
    params: SensitivityParams,
) -> Outcome<SensitivityResult> {
    match (derived_net_profits(statements), derived_free_cashflows(statements)) {
        (Some(net_profits), Some(free_cashflows)) => match valuation_outcome(
            params.valuation_params_spec(
                total_shares_spec(first_of_kind(statements, ReportType::BalanceSheet)),
            ),
            net_profits,
            free_cashflows,
        ) {
            Outcome::Value(valuation) => Outcome::Value(SensitivityResult::of(params, valuation)),
            Outcome::ParameterError => Outcome::ParameterError,
            Outcome::CalculationError => Outcome::CalculationError,
        },
        _ => Outcome::CalculationError,
    }
}

/// The number of shares that a set of line items gives, else the default.
fn shares_or_default(statement: Option<&FinancialStatement>) -> (r: Amount)
    ensures
        r == total_shares_spec(
            match statement {
                Some(s) => Some(s@),
                None => None,
            },
        ),
{
    match statement {
        Some(s) => match s.items.get("股本") {
            Some(shares) => shares,
            None => Amount::new(100_000_000, 0),
        },
        None => Amount::new(100_000_000, 0),
    }
}

/// Runs a whole analysis: ratios, leverage and valuation.
#[derive(Debug, Clone)]
pub struct FinancialAnalyzer {
    calculator: RatioCalculator,
    validator: Option<DataValidator>,
    valuator: Valuator,
}

impl FinancialAnalyzer {
    /// The assumptions under which the analyzer values a company.
    pub closed spec fn valuation_params(&self) -> ValuationParams {
        self.valuator.params
    }

    /// The validator of the analyzer, if it has one.
    pub closed spec fn validator_spec(&self) -> Option<DataValidator> {
        self.validator
    }

    /// An analyzer with the default assumptions and no validator.
    pub fn new() -> (r: Self)
        ensures
            r.valuation_params() == ValuationParams::default_spec(),
            r.validator_spec() is None,
    {
        FinancialAnalyzer {
            calculator: RatioCalculator::new(),
            validator: None,
            valuator: Valuator::with_default(),
        }
    }

    /// The same analyzer with a validator.
    pub fn with_validator(self, validator: DataValidator) -> (r: Self)
        ensures
            r.validator_spec() == Some(validator),
            r.valuation_params() == self.valuation_params(),
    {
        FinancialAnalyzer {
            calculator: self.calculator,
            validator: Some(validator),
            valuator: self.valuator,
        }
    }

    /// The same analyzer with other assumptions.
    pub fn with_valuation_params(self, params: ValuationParams) -> (r: Self)
        ensures
            r.valuation_params() == params,
            r.validator_spec() == self.validator_spec(),
    {
        FinancialAnalyzer {
            calculator: self.calculator,
            validator: self.validator,
            valuator: Valuator::new(params),
        }
    }

    /// The validator, if the analyzer has one.
    pub fn validator(&self) -> (r: Option<&DataValidator>)
        ensures
            r is Some == self.validator_spec() is Some,
            r matches Some(v) ==> Some(*v) == self.validator_spec(),
    {
        self.validator.as_ref()
    }

    /// The years that an analysis covers: those asked for, or, where none is
    /// asked for, the three years before the current one, the latest first.
    pub fn resolve_years(years: Vec<i32>, current_year: i32) -> (r: Vec<i32>)
        requires
            current_year >= i32::MIN + 3,
        ensures
            r@ == resolved_years(years@, current_year),
            r@.len() > 0,
    {
        if years.len() == 0 {
            let r = vec![current_year - 1, current_year - 2, current_year - 3];
            assert(r@ =~= resolved_years(years@, current_year));
            r
        } else {
            years
        }
    }

    /// The days between which statements are fetched for a list of years that
    /// runs from the latest to the earliest: the last day of the last year of
    /// the list, and the last day of its first year.
    pub fn period(years: &Vec<i32>) -> (r: (ReportDate, ReportDate))
        requires
            years@.len() > 0,
        ensures
            r.0 == ReportDate::year_end_spec(years@[years@.len() - 1]),
            r.1 == ReportDate::year_end_spec(years@[0]),
    {
        (ReportDate::year_end(years[years.len() - 1]), ReportDate::year_end(years[0]))
    }

    /// The number of shares of an analysis: the share capital of the first
    /// balance sheet, else 100,000,000.
    pub fn resolve_total_shares(balance_sheets: &[BalanceSheet]) -> (r: Amount)
        ensures
            r == total_shares_spec(first_sheet(balance_sheets@)),
    {
        if balance_sheets.len() > 0 {
            shares_or_default(Some(&balance_sheets[0].statement))
        } else {
            shares_or_default(None)
        }
    }

    /// Whether the number of shares of an analysis is the default, for want of
    /// a share capital in the first balance sheet.
    pub fn uses_default_shares(balance_sheets: &[BalanceSheet]) -> (r: bool)
        ensures
            r == share_capital_of(first_sheet(balance_sheets@)) is None,
    {
        if balance_sheets.len() > 0 {
            !balance_sheets[0].statement.items.contains_key("股本")
        } else {
            true
        }
    }

    /// How the valuation of an analysis ends: under the analyzer's
    /// assumptions, with the number of shares that the balance sheets give.
    pub open spec fn analysis_valuation(
        &self,
        sheets: Seq<BalanceSheet>,
        incomes: Seq<IncomeStatement>,
        cashflows: Seq<CashflowStatement>,
    ) -> Outcome<ValuationResult> {
        valuation_outcome(
            with_total_shares(self.valuation_params(), total_shares_spec(first_sheet(sheets))),
            net_profits_of(incomes),
            free_cashflows_of(cashflows),
        )
    }

    /// Analyses the statements of one company, each series from the most
    /// recent year to the oldest.
    ///
    /// Fails where the asset structure or the profit margins cannot be
    /// computed, and where the valuation fails. A leverage analysis that
    /// cannot be computed is left out, and the analysis goes on. The result
    /// holds no sensitivity analysis.
    pub fn analyze(
        &self,
        stock_code: &str,
        years: Vec<i32>,
        balance_sheets: &[BalanceSheet],
        income_statements: &[IncomeStatement],
        cashflow_statements: &[CashflowStatement],
    ) -> (r: Result<AnalysisResult, AnalyzerError>)
        ensures
            r is Ok <==> {
                &&& !asset_structure_fails(balance_sheets@)
                &&& !profit_analysis_fails(income_statements@)
                &&& self.analysis_valuation(
                    balance_sheets@,
                    income_statements@,
                    cashflow_statements@,
                ) is Value
            },
            match r {
                Ok(result) => {
                    &&& result.stock_code@ == stock_code@
                    &&& result.years@ == years@
                    &&& is_asset_structure_of(result.asset_structure, balance_sheets@)
                    &&& is_profit_analysis_of(result.profit_analysis, income_statements@)
                    &&& match result.leverage_analysis {
                        Some(leverage) => is_leverage_analysis_of(leverage, income_statements@),
                        None => leverage_analysis_fails(income_statements@),
                    }
                    &&& result.valuation matches Some(valuation) && self.analysis_valuation(
                        balance_sheets@,
                        income_statements@,
                        cashflow_statements@,
                    ) == Outcome::Value(valuation)
                    &&& statement_views(result.statements@) == flattened(
                        balance_sheets@,
                        income_statements@,
                        cashflow_statements@,
                    )
                    &&& result.sensitivity is None
                },
                Err(e) => {
                    ||| e is Calculation && asset_structure_fails(balance_sheets@)
                    ||| e is Calculation && profit_analysis_fails(income_statements@)
                    ||| agrees(
                        Err::<ValuationResult, AnalyzerError>(e),
                        self.analysis_valuation(
                            balance_sheets@,
                            income_statements@,
                            cashflow_statements@,
                        ),
                    )
                },
            },
    {
        let asset_structure = match self.calculator.calculate_asset_structure(balance_sheets) {
            Ok(a) => a,
            Err(e) => {
                return Err(e);
            },
        };
        let profit_analysis = match self.calculator.calculate_profit_ratios(income_statements) {
            Ok(a) => a,
            Err(e) => {
                return Err(e);
            },
        };
        let leverage_analysis = match self.calculator.calculate_leverage(income_statements) {
            Ok(a) => Some(a),
            Err(_) => None,
        };
        let total_shares = FinancialAnalyzer::resolve_total_shares(balance_sheets);
        let valuator = Valuator::new(
            ValuationParams {
                dcf: self.valuator.params.dcf,
                tangchao: self.valuator.params.tangchao,
                total_shares,
            },
        );
        let valuation = match valuator.calculate(income_statements, cashflow_statements) {
            Ok(v) => v,
            Err(e) => {
                return Err(e);
            },
        };
        let mut statements: Vec<FinancialStatement> = Vec::new();
        let mut i: usize = 0;
        while i < balance_sheets.len()
            invariant
                i <= balance_sheets@.len(),
                statements@.len() == i,
                forall|m: int| 0 <= m < i ==> statements@[m]@ == balance_sheets@[m].statement@,
            decreases balance_sheets@.len() - i,
        {
            statements.push(balance_sheets[i].statement.clone());
            i += 1;
        }
        let ghost sheets = balance_sheets@.len();
        let mut j: usize = 0;
        while j < income_statements.len()
            invariant
                j <= income_statements@.len(),
                sheets == balance_sheets@.len(),
                statements@.len() == sheets + j,
                forall|m: int| 0 <= m < sheets ==> statements@[m]@ == balance_sheets@[m].statement@,
                forall|m: int|
                    0 <= m < j ==> statements@[sheets + m]@ == income_statements@[m].statement@,
            decreases income_statements@.len() - j,
        {
            statements.push(income_statements[j].statement.clone());
            j += 1;
        }
        let ghost incomes = income_statements@.len();
        let mut k: usize = 0;
        while k < cashflow_statements.len()
            invariant
                k <= cashflow_statements@.len(),
                sheets == balance_sheets@.len(),
                incomes == income_statements@.len(),
                statements@.len() == sheets + incomes + k,
                forall|m: int| 0 <= m < sheets ==> statements@[m]@ == balance_sheets@[m].statement@,
                forall|m: int|
                    0 <= m < incomes ==> statements@[sheets + m]@
                        == income_statements@[m].statement@,
                forall|m: int|
                    0 <= m < k ==> statements@[sheets + incomes + m]@
                        == cashflow_statements@[m].statement@,
            decreases cashflow_statements@.len() - k,
        {
            statements.push(cashflow_statements[k].statement.clone());
            k += 1;
        }
        proof {
            let expected = flattened(balance_sheets@, income_statements@, cashflow_statements@);
            assert forall|m: int| 0 <= m < statements@.len() implies statement_views(statements@)[m]
                == expected[m] by {
                if m < sheets {
                } else if m < sheets + incomes {
                    assert(statements@[sheets + (m - sheets)]@ == income_statements@[m
                        - sheets].statement@);
                } else {
                    assert(statements@[sheets + incomes + (m - sheets - incomes)]@
                        == cashflow_statements@[m - sheets - incomes].statement@);
                }
            }
            assert(statement_views(statements@) =~= expected);
        }
        Ok(
            AnalysisResult {
                stock_code: stock_code.to_string(),
                years,
                asset_structure,
                profit_analysis,
                leverage_analysis,
                valuation: Some(valuation),
                statements,
                sensitivity: None,
            },
        )
    }

    /// Values the company of an analysis again under alternate assumptions and
    /// puts the figures into the result, beside the assumptions that gave them.
    ///
    /// The figures of the income and cashflow statements are derived anew from
    /// the line items of the statements that the result holds; the number of
    /// shares is the share capital of the first balance sheet among them, else
    /// 100,000,000. Where the valuation fails the result stays as it is.
    pub fn calculate_sensitivity(&self, result: &mut AnalysisResult, params: SensitivityParams) -> (r:
        Result<(), AnalyzerError>)
        ensures
            match r {
                Ok(_) => final(result).sensitivity matches Some(s) && sensitivity_outcome(
                    statement_views(old(result).statements@),
                    params,
                ) == Outcome::Value(s),
                Err(e) => *final(result) == *old(result) && agrees(
                    Err::<SensitivityResult, AnalyzerError>(e),
                    sensitivity_outcome(statement_views(old(result).statements@), params),
                ),
            },
            final(result).stock_code == old(result).stock_code,
            final(result).years == old(result).years,
            final(result).asset_structure == old(result).asset_structure,
            final(result).profit_analysis == old(result).profit_analysis,
            final(result).leverage_analysis == old(result).leverage_analysis,
            final(result).valuation == old(result).valuation,
            final(result).statements == old(result).statements,
    {
        let ghost views = statement_views(result.statements@);
        let mut income_statements: Vec<IncomeStatement> = Vec::new();
        let mut cashflow_statements: Vec<CashflowStatement> = Vec::new();
        let mut first_balance_sheet: Option<usize> = None;
        proof {
            assert(views.take(0) =~= Seq::<StatementView>::empty());
            assert(views.skip(0) =~= views);
            assert(net_profits_of(income_statements@) =~= Seq::<Amount>::empty());
            assert(free_cashflows_of(cashflow_statements@) =~= Seq::<Amount>::empty());
        }
        let mut i: usize = 0;
        while i < result.statements.len()
            invariant
                i <= result.statements@.len(),
                views == statement_views(result.statements@),
                derived_net_profits(views.take(i as int)) == Some(
                    net_profits_of(income_statements@),
                ),
                derived_free_cashflows(views.take(i as int)) == Some(
                    free_cashflows_of(cashflow_statements@),
                ),
                match first_balance_sheet {
                    Some(p) => p < i && first_of_kind(views, ReportType::BalanceSheet) == Some(
                        views[p as int],
                    ),
                    None => first_of_kind(views, ReportType::BalanceSheet) == first_of_kind(
                        views.skip(i as int),
                        ReportType::BalanceSheet,
                    ),
                },
            decreases result.statements@.len() - i,
        {
            let statement = &result.statements[i];
            proof {
                assert(views.take(i + 1).drop_last() =~= views.take(i as int));
                assert(views.take(i + 1).last() == statement@);
                assert(views.skip(i as int)[0] == statement@);
                assert(views.skip(i as int).drop_first() =~= views.skip(i + 1));
            }
            match statement.report_type {
                ReportType::BalanceSheet => {
                    if first_balance_sheet.is_none() {
                        first_balance_sheet = Some(i);
                    }
                },
                ReportType::IncomeStatement => {
                    match IncomeStatement::from_statement(statement) {
                        Some(income) => {
                            income_statements.push(income);
                            proof {
                                assert(net_profits_of(income_statements@) =~= net_profits_of(
                                    income_statements@.drop_last(),
                                ).push(income.net_profit));
                            }
                        },
                        None => {
                            proof {
                                lemma_net_profits_fail_on(views, i + 1);
                            }
                            return Err(
                                AnalyzerError::Calculation("利润表数据溢出".to_string()),
                            );
                        },
                    }
                },
                ReportType::CashflowStatement => {
                    match CashflowStatement::from_statement(statement) {
                        Some(cashflow) => {
                            cashflow_statements.push(cashflow);
                            proof {
                                assert(free_cashflows_of(cashflow_statements@)
                                    =~= free_cashflows_of(cashflow_statements@.drop_last()).push(
                                    cashflow.free_cashflow,
                                ));
                            }
                        },
                        None => {
                            proof {
                                lemma_free_cashflows_fail_on(views, i + 1);
                            }
                            return Err(
                                AnalyzerError::Calculation("现金流量表数据溢出".to_string()),
                            );
                        },
                    }
                },
            }
            i += 1;
        }
        proof {
            assert(views.take(i as int) =~= views);
            assert(views.skip(i as int).len() == 0);
        }
        let total_shares = match first_balance_sheet {
            Some(p) => shares_or_default(Some(&result.statements[p])),
            None => shares_or_default(None),
        };
        let valuator = Valuator::new(params.to_valuation_params(total_shares));
        match valuator.calculate(income_statements.as_slice(), cashflow_statements.as_slice()) {
            Ok(valuation) => {
                result.sensitivity = Some(SensitivityResult::from_valuation(params, &valuation));
                Ok(())
            },
            Err(e) => Err(e),
        }
    }
}

/// Once the net profits of a part of a series cannot be derived, those of the
/// whole series cannot.
proof fn lemma_net_profits_fail_on(statements: Seq<StatementView>, k: int)
    requires
        0 <= k <= statements.len(),
        derived_net_profits(statements.take(k)) is None,
    ensures
        derived_net_profits(statements) is None,
    decreases statements.len() - k,
{
    if k < statements.len() {
        assert(statements.take(k + 1).drop_last() =~= statements.take(k));
        lemma_net_profits_fail_on(statements, k + 1);
    } else {
        assert(statements.take(k) =~= statements);
    }
}

/// Once the free cashflows of a part of a series cannot be derived, those of
/// the whole series cannot.
proof fn lemma_free_cashflows_fail_on(statements: Seq<StatementView>, k: int)
    requires
        0 <= k <= statements.len(),
        derived_free_cashflows(statements.take(k)) is None,
    ensures
        derived_free_cashflows(statements) is None,
    decreases statements.len() - k,
{
    if k < statements.len() {
        assert(statements.take(k + 1).drop_last() =~= statements.take(k));
        lemma_free_cashflows_fail_on(statements, k + 1);
    } else {
        assert(statements.take(k) =~= statements);
    }
}

} // verus!
