//! Ratios by year: asset structure, profit margins and leverage.
//!
//! Every series has one entry for each statement given, in the order given.
//! Amounts are rounded as `rust_decimal` rounds them; a step whose result does
//! not fit fails the whole series with a calculation error.

use vstd::prelude::*;
use crate::decimal::{
    decimal_difference, decimal_product, decimal_quotient, decimal_sum, Amount,
};
use crate::domain::line_items::LineItems;
use crate::domain::models::{
    AssetStructureAnalysis, BalanceSheet, IncomeStatement, LeverageAnalysis, ProfitAnalysis,
};
use crate::error::AnalyzerError;

verus! {

/// The asset structure of one year.
pub struct AssetRatios {
    pub operating: Amount,
    pub financial: Amount,
}

/// The profit margins of one year.
pub struct ProfitMargins {
    pub gross: Amount,
    pub core: Amount,
    pub net: Amount,
}

/// The leverage of one year.
pub struct Leverage {
    pub operating: Amount,
    pub financial: Amount,
    pub total: Amount,
}

/// The smallest relative change of revenue, `0.0001`, above which operating
/// leverage is computed.
pub open spec fn materiality_floor_spec() -> Amount {
    Amount::of(1, 4)
}

/// The smallest relative change of revenue, `0.0001`, above which operating
/// leverage is computed.
pub fn materiality_floor() -> (r: Amount)
    ensures
        r == materiality_floor_spec(),
{
    Amount::new(1, 4)
}

/// The names under which interest expense is looked for, in this order.
pub open spec fn interest_expense_names() -> Seq<Seq<char>> {
    seq!["财务费用"@, "利息费用"@]
}

/// The interest expense of a statement: the first of
/// [`interest_expense_names`] that is present, else zero.
pub open spec fn interest_expense_spec(items: Map<Seq<char>, Amount>) -> Amount {
    LineItems::first_present_or_zero(items, interest_expense_names())
}

/// The interest expense of a statement: the first of
/// [`interest_expense_names`] that is present, else zero.
pub fn interest_expense(items: &LineItems) -> (r: Amount)
    ensures
        r == interest_expense_spec(items@),
{
    let names: [&str; 2] = ["财务费用", "利息费用"];
    proof {
        assert(LineItems::names_of(names@) =~= interest_expense_names());
    }
    items.first_or_zero(names.as_slice())
}

/// `(now - before) / before`, and zero where `before` is zero.
pub open spec fn relative_change_spec(now: Amount, before: Amount) -> Option<Amount> {
    if before.is_zero_spec() {
        Some(Amount::zero_spec())
    } else {
        match decimal_difference(now, before) {
            Some(change) => decimal_quotient(change, before),
            None => None,
        }
    }
}

/// `(now - before) / before`, and zero where `before` is zero. `None` where a
/// step does not fit.
pub fn relative_change(now: Amount, before: Amount) -> (r: Option<Amount>)
    ensures
        r == relative_change_spec(now, before),
{
    if before.is_zero() {
        Some(Amount::zero())
    } else {
        match now.checked_sub(before) {
            Some(change) => change.checked_div(before),
            None => None,
        }
    }
}

/// Operating leverage: the change of EBIT over the change of revenue, and zero
/// unless the change of revenue exceeds the materiality floor in size.
pub open spec fn operating_leverage_spec(ebit_change: Amount, revenue_change: Amount) -> Option<
    Amount,
> {
    if !revenue_change.is_zero_spec() && materiality_floor_spec().lt_value(
        revenue_change.abs_spec(),
    ) {
        decimal_quotient(ebit_change, revenue_change)
    } else {
        Some(Amount::zero_spec())
    }
}

/// Financial leverage: EBIT over EBT, and one where either is zero.
pub open spec fn financial_leverage_spec(ebit: Amount, ebt: Amount) -> Option<Amount> {
    if !ebt.is_zero_spec() && !ebit.is_zero_spec() {
        decimal_quotient(ebit, ebt)
    } else {
        Some(Amount::one_spec())
    }
}

/// The leverage of a statement that has no older one to compare with.
pub open spec fn neutral_leverage() -> Leverage {
    Leverage {
        operating: Amount::zero_spec(),
        financial: Amount::one_spec(),
        total: Amount::zero_spec(),
    }
}

/// The leverage of a year against the year before it. EBIT is the core profit,
/// EBT is EBIT less interest expense. `None` where a step does not fit.
pub open spec fn leverage_between(current: IncomeStatement, previous: IncomeStatement) -> Option<
    Leverage,
> {
    let ebit = current.core_profit;
    match (
        decimal_difference(ebit, interest_expense_spec(current.statement.items@)),
        relative_change_spec(current.revenue, previous.revenue),
        relative_change_spec(ebit, previous.core_profit),
    ) {
        (Some(ebt), Some(revenue_change), Some(ebit_change)) => match (
            operating_leverage_spec(ebit_change, revenue_change),
            financial_leverage_spec(ebit, ebt),
        ) {
            (Some(operating), Some(financial)) => match decimal_product(operating, financial) {
                Some(total) => Some(Leverage { operating, financial, total }),
                None => None,
            },
            _ => None,
        },
        _ => None,
    }
}

/// The leverage of the statement at `i` of a series that runs from the most
/// recent year to the oldest: against the statement after it, and neutral for
/// the last one.
pub open spec fn leverage_at(statements: Seq<IncomeStatement>, i: int) -> Option<Leverage> {
    if i + 1 < statements.len() {
        leverage_between(statements[i], statements[i + 1])
    } else {
        Some(neutral_leverage())
    }
}

/// The asset structure of a balance sheet: each group's share of the total of
/// both, and zero for both where that total is zero. `None` where a step does
/// not fit.
pub open spec fn asset_ratios_of(sheet: BalanceSheet) -> Option<AssetRatios> {
    let operating = sheet.operating_assets.total;
    let financial = sheet.financial_assets.total;
    match decimal_sum(operating, financial) {
        Some(total) => if total.is_zero_spec() {
            Some(AssetRatios { operating: Amount::zero_spec(), financial: Amount::zero_spec() })
        } else {
            match (decimal_quotient(operating, total), decimal_quotient(financial, total)) {
                (Some(o), Some(f)) => Some(AssetRatios { operating: o, financial: f }),
                _ => None,
            }
        },
        None => None,
    }
}

/// The margins of an income statement: gross, core and net profit over
/// revenue, and zero for all three where revenue is zero. `None` where a
/// quotient does not fit.
pub open spec fn profit_margins_of(statement: IncomeStatement) -> Option<ProfitMargins> {
    let revenue = statement.revenue;
    if revenue.is_zero_spec() {
        Some(
            ProfitMargins {
                gross: Amount::zero_spec(),
                core: Amount::zero_spec(),
                net: Amount::zero_spec(),
            },
        )
    } else {
        match (
            decimal_quotient(statement.gross_profit, revenue),
            decimal_quotient(statement.core_profit, revenue),
            decimal_quotient(statement.net_profit, revenue),
        ) {
            (Some(gross), Some(core), Some(net)) => Some(ProfitMargins { gross, core, net }),
            _ => None,
        }
    }
}

/// The operating and the financial assets of a sheet add up to zero.
pub open spec fn has_no_assets(sheet: BalanceSheet) -> bool {
    match decimal_sum(sheet.operating_assets.total, sheet.financial_assets.total) {
        Some(total) => total.is_zero_spec(),
        None => false,
    }
}

/// The years of a series of balance sheets.
pub open spec fn balance_sheet_years(sheets: Seq<BalanceSheet>) -> Seq<i32> {
    Seq::new(sheets.len(), |i: int| sheets[i].statement.report_date.year)
}

/// The years of a series of income statements.
pub open spec fn income_statement_years(statements: Seq<IncomeStatement>) -> Seq<i32> {
    Seq::new(statements.len(), |i: int| statements[i].statement.report_date.year)
}

/// `analysis` is the asset structure of `sheets`: one entry for each sheet, in
/// order, each the ratios of its sheet.
pub open spec fn is_asset_structure_of(
    analysis: AssetStructureAnalysis,
    sheets: Seq<BalanceSheet>,
) -> bool {
    &&& analysis.years@ == balance_sheet_years(sheets)
    &&& analysis.operating_asset_ratio@.len() == sheets.len()
    &&& analysis.financial_asset_ratio@.len() == sheets.len()
    &&& forall|i: int|
        0 <= i < sheets.len() ==> asset_ratios_of(#[trigger] sheets[i]) == Some(
            AssetRatios {
                operating: analysis.operating_asset_ratio@[i],
                financial: analysis.financial_asset_ratio@[i],
            },
        )
}

/// For some sheet the asset structure cannot be computed.
pub open spec fn asset_structure_fails(sheets: Seq<BalanceSheet>) -> bool {
    exists|i: int| 0 <= i < sheets.len() && asset_ratios_of(#[trigger] sheets[i]) is None
}

/// `analysis` holds the profit margins of `statements`: one entry for each
/// statement, in order, each the margins of its statement.
pub open spec fn is_profit_analysis_of(
    analysis: ProfitAnalysis,
    statements: Seq<IncomeStatement>,
) -> bool {
    &&& analysis.years@ == income_statement_years(statements)
    &&& analysis.gross_margin@.len() == statements.len()
    &&& analysis.core_profit_margin@.len() == statements.len()
    &&& analysis.net_profit_margin@.len() == statements.len()
    &&& forall|i: int|
        0 <= i < statements.len() ==> profit_margins_of(#[trigger] statements[i]) == Some(
            ProfitMargins {
                gross: analysis.gross_margin@[i],
                core: analysis.core_profit_margin@[i],
                net: analysis.net_profit_margin@[i],
            },
        )
}

/// For some statement the profit margins cannot be computed.
pub open spec fn profit_analysis_fails(statements: Seq<IncomeStatement>) -> bool {
    exists|i: int|
        0 <= i < statements.len() && profit_margins_of(#[trigger] statements[i]) is None
}

/// `analysis` holds the leverage of `statements`: one entry for each
/// statement, in order, each the leverage of its year.
pub open spec fn is_leverage_analysis_of(
    analysis: LeverageAnalysis,
    statements: Seq<IncomeStatement>,
) -> bool {
    &&& analysis.years@ == income_statement_years(statements)
    &&& analysis.operating_leverage@.len() == statements.len()
    &&& analysis.financial_leverage@.len() == statements.len()
    &&& analysis.total_leverage@.len() == statements.len()
    &&& forall|i: int|
        0 <= i < statements.len() ==> #[trigger] leverage_at(statements, i) == Some(
            Leverage {
                operating: analysis.operating_leverage@[i],
                financial: analysis.financial_leverage@[i],
                total: analysis.total_leverage@[i],
            },
        )
}

/// For some year the leverage cannot be computed.
pub open spec fn leverage_analysis_fails(statements: Seq<IncomeStatement>) -> bool {
    exists|i: int| 0 <= i < statements.len() && #[trigger] leverage_at(statements, i) is None
}

fn asset_ratios(sheet: &BalanceSheet) -> (r: Option<AssetRatios>)
    ensures
        r == asset_ratios_of(*sheet),
{
    let operating = sheet.operating_assets.total;
    let financial = sheet.financial_assets.total;
    match operating.checked_add(financial) {
        Some(total) => {
            if total.is_zero() {
                Some(AssetRatios { operating: Amount::zero(), financial: Amount::zero() })
            } else {
                match (operating.checked_div(total), financial.checked_div(total)) {
                    (Some(o), Some(f)) => Some(AssetRatios { operating: o, financial: f }),
                    _ => None,
                }
            }
        },
        None => None,
    }
}

fn profit_margins(statement: &IncomeStatement) -> (r: Option<ProfitMargins>)
    ensures
        r == profit_margins_of(*statement),
{
    let revenue = statement.revenue;
    if revenue.is_zero() {
        Some(ProfitMargins { gross: Amount::zero(), core: Amount::zero(), net: Amount::zero() })
    } else {
        match (
            statement.gross_profit.checked_div(revenue),
            statement.core_profit.checked_div(revenue),
            statement.net_profit.checked_div(revenue),
        ) {
            (Some(gross), Some(core), Some(net)) => Some(ProfitMargins { gross, core, net }),
            _ => None,
        }
    }
}

fn operating_leverage(ebit_change: Amount, revenue_change: Amount) -> (r: Option<Amount>)
    ensures
        r == operating_leverage_spec(ebit_change, revenue_change),
{
    if !revenue_change.is_zero() && revenue_change.abs().greater_than(&materiality_floor()) {
        ebit_change.checked_div(revenue_change)
    } else {
        Some(Amount::zero())
    }
}

fn financial_leverage(ebit: Amount, ebt: Amount) -> (r: Option<Amount>)
    ensures
        r == financial_leverage_spec(ebit, ebt),
{
    if !ebt.is_zero() && !ebit.is_zero() {
        ebit.checked_div(ebt)
    } else {
        Some(Amount::one())
    }
}

fn leverage(current: &IncomeStatement, previous: &IncomeStatement) -> (r: Option<Leverage>)
    ensures
        r == leverage_between(*current, *previous),
{
    let ebit = current.core_profit;
    let interest = interest_expense(&current.statement.items);
    match (
        ebit.checked_sub(interest),
        relative_change(current.revenue, previous.revenue),
        relative_change(ebit, previous.core_profit),
    ) {
        (Some(ebt), Some(revenue_change), Some(ebit_change)) => {
            match (operating_leverage(ebit_change, revenue_change), financial_leverage(ebit, ebt)) {
                (Some(operating), Some(financial)) => {
                    match operating.checked_mul(financial) {
                        Some(total) => Some(Leverage { operating, financial, total }),
                        None => None,
                    }
                },
                _ => None,
            }
        },
        _ => None,
    }
}

/// Computes ratio series from statement series.
#[derive(Debug, Clone, Copy)]
pub struct RatioCalculator;

impl RatioCalculator {
    pub fn new() -> (r: Self)
        ensures
            r == RatioCalculator,
    {
        RatioCalculator
    }

    /// The share of operating and of financial assets for each balance sheet.
    ///
    /// Succeeds unless a step does not fit for some year, and then fails with
    /// a calculation error.
    pub fn calculate_asset_structure(&self, balance_sheets: &[BalanceSheet]) -> (r: Result<
        AssetStructureAnalysis,
        AnalyzerError,
    >)
        ensures
            match r {
                Ok(analysis) => is_asset_structure_of(analysis, balance_sheets@),
                Err(e) => e is Calculation && asset_structure_fails(balance_sheets@),
            },
            r matches Ok(analysis) ==> forall|i: int|
                0 <= i < balance_sheets@.len() && has_no_assets(#[trigger] balance_sheets@[i])
                    ==> analysis.operating_asset_ratio@[i] == Amount::zero_spec()
                    && analysis.financial_asset_ratio@[i] == Amount::zero_spec(),
    {
        let mut years: Vec<i32> = Vec::new();
        let mut operating_asset_ratio: Vec<Amount> = Vec::new();
        let mut financial_asset_ratio: Vec<Amount> = Vec::new();
        let mut i: usize = 0;
        while i < balance_sheets.len()
            invariant
                i <= balance_sheets@.len(),
                years@.len() == i,
                operating_asset_ratio@.len() == i,
                financial_asset_ratio@.len() == i,
                forall|j: int|
                    0 <= j < i ==> years@[j] == balance_sheets@[j].statement.report_date.year,
                forall|j: int|
                    0 <= j < i ==> asset_ratios_of(#[trigger] balance_sheets@[j]) == Some(
                        AssetRatios {
                            operating: operating_asset_ratio@[j],
                            financial: financial_asset_ratio@[j],
                        },
                    ),
            decreases balance_sheets@.len() - i,
        {
            let sheet = &balance_sheets[i];
            match asset_ratios(sheet) {
                Some(ratios) => {
                    years.push(sheet.statement.report_date.year());
                    operating_asset_ratio.push(ratios.operating);
                    financial_asset_ratio.push(ratios.financial);
                },
                None => {
                    return Err(AnalyzerError::Calculation("资产结构比率溢出".to_string()));
                },
            }
            i += 1;
        }
        proof {
            assert(years@ =~= balance_sheet_years(balance_sheets@));
        }
        Ok(AssetStructureAnalysis { years, operating_asset_ratio, financial_asset_ratio })
    }

    /// The gross, core and net profit margin for each income statement.
    ///
    /// Succeeds unless a quotient does not fit for some year, and then fails
    /// with a calculation error.
    pub fn calculate_profit_ratios(&self, income_statements: &[IncomeStatement]) -> (r: Result<
        ProfitAnalysis,
        AnalyzerError,
    >)
        ensures
            match r {
                Ok(analysis) => is_profit_analysis_of(analysis, income_statements@),
                Err(e) => e is Calculation && profit_analysis_fails(income_statements@),
            },
            r matches Ok(analysis) ==> forall|i: int|
                0 <= i < income_statements@.len() && (
                #[trigger] income_statements@[i]).revenue.is_zero_spec()
                    ==> analysis.gross_margin@[i] == Amount::zero_spec()
                    && analysis.core_profit_margin@[i] == Amount::zero_spec()
                    && analysis.net_profit_margin@[i] == Amount::zero_spec(),
    {
        let mut years: Vec<i32> = Vec::new();
        let mut gross_margin: Vec<Amount> = Vec::new();
        let mut core_profit_margin: Vec<Amount> = Vec::new();
        let mut net_profit_margin: Vec<Amount> = Vec::new();
        let mut i: usize = 0;
        while i < income_statements.len()
            invariant
                i <= income_statements@.len(),
                years@.len() == i,
                gross_margin@.len() == i,
                core_profit_margin@.len() == i,
                net_profit_margin@.len() == i,
                forall|j: int|
                    0 <= j < i ==> years@[j] == income_statements@[j].statement.report_date.year,
                forall|j: int|
                    0 <= j < i ==> profit_margins_of(#[trigger] income_statements@[j]) == Some(
                        ProfitMargins {
                            gross: gross_margin@[j],
                            core: core_profit_margin@[j],
                            net: net_profit_margin@[j],
                        },
                    ),
            decreases income_statements@.len() - i,
        {
            let statement = &income_statements[i];
            match profit_margins(statement) {
                Some(margins) => {
                    years.push(statement.statement.report_date.year());
                    gross_margin.push(margins.gross);
                    core_profit_margin.push(margins.core);
                    net_profit_margin.push(margins.net);
                },
                None => {
                    return Err(AnalyzerError::Calculation("利润率溢出".to_string()));
                },
            }
            i += 1;
        }
        proof {
            assert(years@ =~= income_statement_years(income_statements@));
        }
        Ok(ProfitAnalysis { years, gross_margin, core_profit_margin, net_profit_margin })
    }

    /// Operating, financial and total leverage for each income statement of a
    /// series that runs from the most recent year to the oldest. Each year is
    /// compared with the one after it in the series; the last has none and
    /// gets the neutral values 0, 1 and 0.
    ///
    /// Succeeds unless a step does not fit for some year, and then fails with
    /// a calculation error.
    pub fn calculate_leverage(&self, income_statements: &[IncomeStatement]) -> (r: Result<
        LeverageAnalysis,
        AnalyzerError,
    >)
        ensures
            match r {
                Ok(analysis) => is_leverage_analysis_of(analysis, income_statements@),
                Err(e) => e is Calculation && leverage_analysis_fails(income_statements@),
            },
            income_statements@.len() <= 1 ==> r is Ok,
            r matches Ok(analysis) ==> income_statements@.len() > 0 ==> {
                let oldest = income_statements@.len() - 1;
                &&& analysis.operating_leverage@[oldest] == Amount::zero_spec()
                &&& analysis.financial_leverage@[oldest] == Amount::one_spec()
                &&& analysis.total_leverage@[oldest] == Amount::zero_spec()
            },
    {
        let mut years: Vec<i32> = Vec::new();
        let mut operating_leverage: Vec<Amount> = Vec::new();
        let mut financial_leverage: Vec<Amount> = Vec::new();
        let mut total_leverage: Vec<Amount> = Vec::new();
        let mut i: usize = 0;
        while i < income_statements.len()
            invariant
                i <= income_statements@.len(),
                years@.len() == i,
                operating_leverage@.len() == i,
                financial_leverage@.len() == i,
                total_leverage@.len() == i,
                forall|j: int|
                    0 <= j < i ==> years@[j] == income_statements@[j].statement.report_date.year,
                forall|j: int|
                    0 <= j < i ==> #[trigger] leverage_at(income_statements@, j) == Some(
                        Leverage {
                            operating: operating_leverage@[j],
                            financial: financial_leverage@[j],
                            total: total_leverage@[j],
                        },
                    ),
            decreases income_statements@.len() - i,
        {
            let current = &income_statements[i];
            let figures = if i < income_statements.len() - 1 {
                leverage(current, &income_statements[i + 1])
            } else {
                Some(
                    Leverage {
                        operating: Amount::zero(),
                        financial: Amount::one(),
                        total: Amount::zero(),
                    },
                )
            };
            assert(figures == leverage_at(income_statements@, i as int));
            match figures {
                Some(l) => {
                    years.push(current.statement.report_date.year());
                    operating_leverage.push(l.operating);
                    financial_leverage.push(l.financial);
                    total_leverage.push(l.total);
                },
                None => {
                    return Err(AnalyzerError::Calculation("杠杆比率溢出".to_string()));
                },
            }
            i += 1;
        }
        proof {
            assert(years@ =~= income_statement_years(income_statements@));
            if income_statements@.len() > 0 {
                let oldest = income_statements@.len() - 1;
                assert(leverage_at(income_statements@, oldest) == Some(neutral_leverage()));
            }
        }
        Ok(LeverageAnalysis { years, operating_leverage, financial_leverage, total_leverage })
    }
}

} // verus!
