//! Statements, their derived forms, and the results of an analysis.

use vstd::prelude::*;
use chrono::{Datelike, NaiveDate};
use crate::analyzer::sensitivity::SensitivityResult;
use crate::analyzer::valuation::ValuationResult;
use crate::decimal::{decimal_difference, decimal_sum, Amount};
use crate::domain::line_items::LineItems;

verus! {

/// The kind of a statement.
#[derive(Debug, Clone, Copy, PartialEq, Eq, Hash, Structural)]
pub enum ReportType {
    BalanceSheet,
    IncomeStatement,
    CashflowStatement,
}

impl ReportType {
    pub fn as_str(&self) -> (r: &'static str)
        ensures
            r@ == (match self {
                ReportType::BalanceSheet => "balance_sheet"@,
                ReportType::IncomeStatement => "income_statement"@,
                ReportType::CashflowStatement => "cashflow_statement"@,
            }),
    {
        match self {
            ReportType::BalanceSheet => "balance_sheet",
            ReportType::IncomeStatement => "income_statement",
            ReportType::CashflowStatement => "cashflow_statement",
        }
    }
}

/// The calendar day that a statement reports on.
#[derive(Debug, Clone, Copy, PartialEq, Eq, Hash, Structural)]
pub struct ReportDate {
    pub year: i32,
    pub month: u32,
    pub day: u32,
}

/// The day that `chrono`'s `NaiveDate::parse_from_str` reads from a text under
/// a format; `None` where it reads none.
pub uninterp spec fn chrono_date(text: Seq<char>, format: Seq<char>) -> Option<ReportDate>;

/// `NaiveDate::parse_from_str`, with the day taken apart into year, month and
/// day. The contract only names the result.
#[verifier::external_body]
fn parse_date(text: &str, format: &str) -> (r: Option<ReportDate>)
    ensures
        r == chrono_date(text@, format@),
{
    match NaiveDate::parse_from_str(text, format) {
        Ok(d) => Some(ReportDate { year: d.year(), month: d.month(), day: d.day() }),
        Err(_) => None,
    }
}

impl ReportDate {
    /// Reads a day from a text under a `strftime` format such as `%Y-%m-%d`.
    pub fn parse(text: &str, format: &str) -> (r: Option<ReportDate>)
        ensures
            r == chrono_date(text@, format@),
    {
        parse_date(text, format)
    }

    /// The last day of a year.
    pub open spec fn year_end_spec(year: i32) -> ReportDate {
        ReportDate { year, month: 12, day: 31 }
    }

    /// `self` is an earlier day than `other`.
    pub open spec fn before(self, other: ReportDate) -> bool {
        self.year < other.year || (self.year == other.year && (self.month < other.month || (
        self.month == other.month && self.day < other.day)))
    }

    pub open spec fn is_year_end_spec(self) -> bool {
        self.month == 12 && self.day == 31
    }

    pub fn new(year: i32, month: u32, day: u32) -> (r: ReportDate)
        ensures
            r == (ReportDate { year, month, day }),
    {
        ReportDate { year, month, day }
    }

    /// The last day of a year.
    pub fn year_end(year: i32) -> (r: ReportDate)
        ensures
            r == ReportDate::year_end_spec(year),
    {
        ReportDate { year, month: 12, day: 31 }
    }

    pub fn year(&self) -> (r: i32)
        ensures
            r == self.year,
    {
        self.year
    }

    /// Whether the day is a 31 December, the day of an annual report.
    pub fn is_year_end(&self) -> (r: bool)
        ensures
            r == self.is_year_end_spec(),
    {
        self.month == 12 && self.day == 31
    }

    /// Whether `self` is an earlier day than `other`.
    pub fn is_before(&self, other: &ReportDate) -> (r: bool)
        ensures
            r == self.before(*other),
    {
        self.year < other.year || (self.year == other.year && (self.month < other.month || (
        self.month == other.month && self.day < other.day)))
    }

    /// Whether the day lies between `start` and `end`, both included.
    pub fn is_within(&self, start: &ReportDate, end: &ReportDate) -> (r: bool)
        ensures
            r == (!self.before(*start) && !end.before(*self)),
    {
        !self.is_before(start) && !end.is_before(self)
    }
}

/// What a statement says, as values: the model of a [`FinancialStatement`].
pub struct StatementView {
    pub stock_code: Seq<char>,
    pub report_date: ReportDate,
    pub report_type: ReportType,
    pub items: Map<Seq<char>, Amount>,
}

/// One statement of one company for one day: named amounts.
#[derive(Debug)]
pub struct FinancialStatement {
    pub stock_code: String,
    pub report_date: ReportDate,
    pub report_type: ReportType,
    pub items: LineItems,
}

impl View for FinancialStatement {
    type V = StatementView;

    open spec fn view(&self) -> StatementView {
        StatementView {
            stock_code: self.stock_code@,
            report_date: self.report_date,
            report_type: self.report_type,
            items: self.items@,
        }
    }
}

impl Clone for FinancialStatement {
    fn clone(&self) -> (r: Self)
        ensures
            r@ == self@,
            r.items.entries() == self.items.entries(),
    {
        FinancialStatement {
            stock_code: self.stock_code.clone(),
            report_date: self.report_date,
            report_type: self.report_type,
            items: self.items.clone(),
        }
    }
}

/// What a series of statements says.
pub open spec fn statement_views(statements: Seq<FinancialStatement>) -> Seq<StatementView> {
    Seq::new(statements.len(), |i: int| statements[i]@)
}

/// What a group of line items holds, as values: the model of an
/// [`AssetGroup`] and of a [`LiabilityGroup`].
pub struct GroupView {
    pub items: Map<Seq<char>, Amount>,
    pub total: Amount,
}

impl GroupView {
    /// The group that holds nothing.
    pub open spec fn empty() -> GroupView {
        GroupView { items: Map::empty(), total: Amount::zero_spec() }
    }

    /// The total fits when `amount` is added to it.
    pub open spec fn admits(self, amount: Amount) -> bool {
        decimal_sum(self.total, amount) is Some
    }

    /// The group after an amount was added under a name: the total grows by
    /// the amount, and the amount stands under the name. Where the total
    /// would not fit, the group is as before.
    pub open spec fn added(self, name: Seq<char>, amount: Amount) -> GroupView {
        match decimal_sum(self.total, amount) {
            Some(total) => GroupView { items: self.items.insert(name, amount), total },
            None => self,
        }
    }
}

/// A group of assets with their running total.
#[derive(Debug)]
pub struct AssetGroup {
    pub items: LineItems,
    pub total: Amount,
}

impl View for AssetGroup {
    type V = GroupView;

    open spec fn view(&self) -> GroupView {
        GroupView { items: self.items@, total: self.total }
    }
}

impl AssetGroup {
    pub fn new() -> (r: AssetGroup)
        ensures
            r@ == GroupView::empty(),
    {
        AssetGroup { items: LineItems::new(), total: Amount::zero() }
    }

    /// Adds an amount to the total and puts it under its name. The total must
    /// fit; [`AssetGroup::try_add`] tests that first.
    pub fn add(&mut self, name: String, amount: Amount)
        requires
            old(self)@.admits(amount),
        ensures
            final(self)@ == old(self)@.added(name@, amount),
    {
        match self.total.checked_add(amount) {
            Some(total) => {
                self.total = total;
            },
            None => {},
        }
        self.items.insert(name, amount);
    }

    /// Adds an amount as [`AssetGroup::add`] does and returns `true`; where the
    /// total would not fit, leaves the group as it is and returns `false`.
    pub fn try_add(&mut self, name: String, amount: Amount) -> (added: bool)
        ensures
            added == old(self)@.admits(amount),
            final(self)@ == old(self)@.added(name@, amount),
    {
        if self.total.checked_add(amount).is_some() {
            self.add(name, amount);
            true
        } else {
            false
        }
    }
}

impl Clone for AssetGroup {
    fn clone(&self) -> (r: Self)
        ensures
            r@ == self@,
    {
        AssetGroup { items: self.items.clone(), total: self.total }
    }
}

/// A group of liabilities with their running total.
#[derive(Debug)]
pub struct LiabilityGroup {
    pub items: LineItems,
    pub total: Amount,
}

impl View for LiabilityGroup {
    type V = GroupView;

    open spec fn view(&self) -> GroupView {
        GroupView { items: self.items@, total: self.total }
    }
}

impl LiabilityGroup {
    pub fn new() -> (r: LiabilityGroup)
        ensures
            r@ == GroupView::empty(),
    {
        LiabilityGroup { items: LineItems::new(), total: Amount::zero() }
    }

    /// Adds an amount to the total and puts it under its name. The total must
    /// fit; [`LiabilityGroup::try_add`] tests that first.
    pub fn add(&mut self, name: String, amount: Amount)
        requires
            old(self)@.admits(amount),
        ensures
            final(self)@ == old(self)@.added(name@, amount),
    {
        match self.total.checked_add(amount) {
            Some(total) => {
                self.total = total;
            },
            None => {},
        }
        self.items.insert(name, amount);
    }

    /// Adds an amount as [`LiabilityGroup::add`] does and returns `true`; where the
    /// total would not fit, leaves the group as it is and returns `false`.
    pub fn try_add(&mut self, name: String, amount: Amount) -> (added: bool)
        ensures
            added == old(self)@.admits(amount),
            final(self)@ == old(self)@.added(name@, amount),
    {
        if self.total.checked_add(amount).is_some() {
            self.add(name, amount);
            true
        } else {
            false
        }
    }
}

impl Clone for LiabilityGroup {
    fn clone(&self) -> (r: Self)
        ensures
            r@ == self@,
    {
        LiabilityGroup { items: self.items.clone(), total: self.total }
    }
}

/// What a balance sheet says, as values: the model of a [`BalanceSheet`].
pub struct BalanceSheetView {
    pub statement: StatementView,
    pub operating_assets: GroupView,
    pub financial_assets: GroupView,
    pub operating_liabilities: GroupView,
    pub financial_liabilities: GroupView,
}

/// A balance sheet: the statement, and its assets and liabilities grouped
/// into operating and financial ones.
#[derive(Debug)]
pub struct BalanceSheet {
    pub statement: FinancialStatement,
    pub operating_assets: AssetGroup,
    pub financial_assets: AssetGroup,
    pub operating_liabilities: LiabilityGroup,
    pub financial_liabilities: LiabilityGroup,
}

impl View for BalanceSheet {
    type V = BalanceSheetView;

    open spec fn view(&self) -> BalanceSheetView {
        BalanceSheetView {
            statement: self.statement@,
            operating_assets: self.operating_assets@,
            financial_assets: self.financial_assets@,
            operating_liabilities: self.operating_liabilities@,
            financial_liabilities: self.financial_liabilities@,
        }
    }
}

impl Clone for BalanceSheet {
    fn clone(&self) -> (r: Self)
        ensures
            r@ == self@,
    {
        BalanceSheet {
            statement: self.statement.clone(),
            operating_assets: self.operating_assets.clone(),
            financial_assets: self.financial_assets.clone(),
            operating_liabilities: self.operating_liabilities.clone(),
            financial_liabilities: self.financial_liabilities.clone(),
        }
    }
}

/// An income statement: the statement and the figures derived from it.
#[derive(Debug)]
pub struct IncomeStatement {
    pub statement: FinancialStatement,
    pub revenue: Amount,
    pub operating_cost: Amount,
    pub gross_profit: Amount,
    pub core_profit: Amount,
    pub net_profit: Amount,
}

/// The figures of an income statement without the statement itself.
pub struct IncomeFigures {
    pub revenue: Amount,
    pub operating_cost: Amount,
    pub gross_profit: Amount,
    pub core_profit: Amount,
    pub net_profit: Amount,
}

/// The names of the line items from which the figures of an income statement
/// are derived.
pub struct IncomeNames {
    pub revenue: Seq<char>,
    pub operating_cost: Seq<char>,
    /// The cost that gross profit is revenue less of.
    pub cost_of_sales: Seq<char>,
    pub core_profit: Seq<char>,
    pub net_profit: Seq<char>,
}

impl IncomeStatement {
    /// The names that a statement of an analysis is read by.
    pub open spec fn standard_names() -> IncomeNames {
        IncomeNames {
            revenue: "营业收入"@,
            operating_cost: "营业成本"@,
            cost_of_sales: "营业成本"@,
            core_profit: "营业利润"@,
            net_profit: "净利润"@,
        }
    }

    /// The figures that line items give under a set of names: revenue,
    /// operating cost, core profit and net profit as they stand, an absent
    /// one being zero, and revenue less cost of sales as gross profit. `None`
    /// where that difference does not fit.
    pub open spec fn figures_under(
        items: Map<Seq<char>, Amount>,
        names: IncomeNames,
    ) -> Option<IncomeFigures> {
        let revenue = LineItems::value_or_zero(items, names.revenue);
        match decimal_difference(revenue, LineItems::value_or_zero(items, names.cost_of_sales)) {
            Some(gross_profit) => Some(
                IncomeFigures {
                    revenue,
                    operating_cost: LineItems::value_or_zero(items, names.operating_cost),
                    gross_profit,
                    core_profit: LineItems::value_or_zero(items, names.core_profit),
                    net_profit: LineItems::value_or_zero(items, names.net_profit),
                },
            ),
            None => None,
        }
    }

    /// The figures that the line items of a statement of an analysis give.
    pub open spec fn figures_of(items: Map<Seq<char>, Amount>) -> Option<IncomeFigures> {
        IncomeStatement::figures_under(items, IncomeStatement::standard_names())
    }

    /// The figures of this income statement.
    pub open spec fn figures(&self) -> IncomeFigures {
        IncomeFigures {
            revenue: self.revenue,
            operating_cost: self.operating_cost,
            gross_profit: self.gross_profit,
            core_profit: self.core_profit,
            net_profit: self.net_profit,
        }
    }

    /// Derives an income statement from the line items of a statement, each
    /// figure read under the name given for it. `None` where the gross profit
    /// does not fit.
    pub fn derive(
        statement: &FinancialStatement,
        revenue: &str,
        operating_cost: &str,
        cost_of_sales: &str,
        core_profit: &str,
        net_profit: &str,
    ) -> (r: Option<IncomeStatement>)
        ensures
            match r {
                Some(income) => IncomeStatement::figures_under(
                    statement.items@,
                    IncomeNames {
                        revenue: revenue@,
                        operating_cost: operating_cost@,
                        cost_of_sales: cost_of_sales@,
                        core_profit: core_profit@,
                        net_profit: net_profit@,
                    },
                ) == Some(income.figures()) && income.statement@ == statement@,
                None => IncomeStatement::figures_under(
                    statement.items@,
                    IncomeNames {
                        revenue: revenue@,
                        operating_cost: operating_cost@,
                        cost_of_sales: cost_of_sales@,
                        core_profit: core_profit@,
                        net_profit: net_profit@,
                    },
                ) is None,
            },
    {
        let revenue_amount = statement.items.get_or_zero(revenue);
        let cost = statement.items.get_or_zero(cost_of_sales);
        match revenue_amount.checked_sub(cost) {
            Some(gross_profit) => Some(
                IncomeStatement {
                    statement: statement.clone(),
                    revenue: revenue_amount,
                    operating_cost: statement.items.get_or_zero(operating_cost),
                    gross_profit,
                    core_profit: statement.items.get_or_zero(core_profit),
                    net_profit: statement.items.get_or_zero(net_profit),
                },
            ),
            None => None,
        }
    }

    /// Derives an income statement from the line items of a statement of an
    /// analysis. `None` where the gross profit does not fit.
    pub fn from_statement(statement: &FinancialStatement) -> (r: Option<IncomeStatement>)
        ensures
            match r {
                Some(income) => IncomeStatement::figures_of(statement.items@) == Some(
                    income.figures(),
                ) && income.statement@ == statement@,
                None => IncomeStatement::figures_of(statement.items@) is None,
            },
    {
        IncomeStatement::derive(statement, "营业收入", "营业成本", "营业成本", "营业利润", "净利润")
    }
}

impl Clone for IncomeStatement {
    fn clone(&self) -> (r: Self)
        ensures
            r.statement@ == self.statement@,
            r.figures() == self.figures(),
    {
        IncomeStatement {
            statement: self.statement.clone(),
            revenue: self.revenue,
            operating_cost: self.operating_cost,
            gross_profit: self.gross_profit,
            core_profit: self.core_profit,
            net_profit: self.net_profit,
        }
    }
}

/// A cashflow statement: the statement and the figures derived from it.
#[derive(Debug)]
pub struct CashflowStatement {
    pub statement: FinancialStatement,
    pub operating_cashflow: Amount,
    pub investing_cashflow: Amount,
    pub financing_cashflow: Amount,
    pub free_cashflow: Amount,
}

/// The figures of a cashflow statement without the statement itself.
pub struct CashflowFigures {
    pub operating_cashflow: Amount,
    pub investing_cashflow: Amount,
    pub financing_cashflow: Amount,
    pub free_cashflow: Amount,
}

impl CashflowStatement {
    /// The figures that the line items of a cashflow statement give. Free
    /// cashflow is operating cashflow less capital expenditure. `None` where
    /// that difference does not fit.
    pub open spec fn figures_of(items: Map<Seq<char>, Amount>) -> Option<CashflowFigures> {
        let operating_cashflow = LineItems::value_or_zero(items, "经营活动产生的现金流量净额"@);
        let capital_expenditure = LineItems::value_or_zero(
            items,
            "购建固定资产、无形资产和其他长期资产支付的现金"@,
        );
        match decimal_difference(operating_cashflow, capital_expenditure) {
            Some(free_cashflow) => Some(
                CashflowFigures {
                    operating_cashflow,
                    investing_cashflow: LineItems::value_or_zero(
                        items,
                        "投资活动产生的现金流量净额"@,
                    ),
                    financing_cashflow: LineItems::value_or_zero(
                        items,
                        "筹资活动产生的现金流量净额"@,
                    ),
                    free_cashflow,
                },
            ),
            None => None,
        }
    }

    /// The figures of this cashflow statement.
    pub open spec fn figures(&self) -> CashflowFigures {
        CashflowFigures {
            operating_cashflow: self.operating_cashflow,
            investing_cashflow: self.investing_cashflow,
            financing_cashflow: self.financing_cashflow,
            free_cashflow: self.free_cashflow,
        }
    }

    /// Derives a cashflow statement from the line items of a statement. `None`
    /// where the free cashflow does not fit.
    pub fn from_statement(statement: &FinancialStatement) -> (r: Option<CashflowStatement>)
        ensures
            match r {
                Some(cashflow) => CashflowStatement::figures_of(statement.items@) == Some(
                    cashflow.figures(),
                ) && cashflow.statement@ == statement@,
                None => CashflowStatement::figures_of(statement.items@) is None,
            },
    {
        let operating_cashflow = statement.items.get_or_zero("经营活动产生的现金流量净额");
        let investing_cashflow = statement.items.get_or_zero("投资活动产生的现金流量净额");
        let financing_cashflow = statement.items.get_or_zero("筹资活动产生的现金流量净额");
        let capital_expenditure = statement.items.get_or_zero(
            "购建固定资产、无形资产和其他长期资产支付的现金",
        );
        match operating_cashflow.checked_sub(capital_expenditure) {
            Some(free_cashflow) => Some(
                CashflowStatement {
                    statement: statement.clone(),
                    operating_cashflow,
                    investing_cashflow,
                    financing_cashflow,
                    free_cashflow,
                },
            ),
            None => None,
        }
    }
}

impl Clone for CashflowStatement {
    fn clone(&self) -> (r: Self)
        ensures
            r.statement@ == self.statement@,
            r.figures() == self.figures(),
    {
        CashflowStatement {
            statement: self.statement.clone(),
            operating_cashflow: self.operating_cashflow,
            investing_cashflow: self.investing_cashflow,
            financing_cashflow: self.financing_cashflow,
            free_cashflow: self.free_cashflow,
        }
    }
}

/// Asset structure by year: the share of operating and of financial assets.
#[derive(Debug)]
pub struct AssetStructureAnalysis {
    pub years: Vec<i32>,
    pub operating_asset_ratio: Vec<Amount>,
    pub financial_asset_ratio: Vec<Amount>,
}

/// Profit margins by year.
#[derive(Debug)]
pub struct ProfitAnalysis {
    pub years: Vec<i32>,
    pub gross_margin: Vec<Amount>,
    pub core_profit_margin: Vec<Amount>,
    pub net_profit_margin: Vec<Amount>,
}

/// Leverage by year: operating (DOL), financial (DFL) and total (DTL).
#[derive(Debug)]
pub struct LeverageAnalysis {
    pub years: Vec<i32>,
    pub operating_leverage: Vec<Amount>,
    pub financial_leverage: Vec<Amount>,
    pub total_leverage: Vec<Amount>,
}

/// All that one analysis of one company gives.
#[derive(Debug)]
pub struct AnalysisResult {
    pub stock_code: String,
    pub years: Vec<i32>,
    pub asset_structure: AssetStructureAnalysis,
    pub profit_analysis: ProfitAnalysis,
    pub leverage_analysis: Option<LeverageAnalysis>,
    pub valuation: Option<ValuationResult>,
    /// The statements that were analysed: balance sheets, then income
    /// statements, then cashflow statements.
    pub statements: Vec<FinancialStatement>,
    pub sensitivity: Option<SensitivityResult>,
}

} // verus!
