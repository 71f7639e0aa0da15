//! A data source that gives the same fixed statements for every company and
//! year.

use vstd::prelude::*;
use crate::decimal::Amount;
use crate::domain::line_items::LineItems;
use crate::domain::models::{
    AssetGroup, BalanceSheet, BalanceSheetView, CashflowFigures, CashflowStatement,
    FinancialStatement, GroupView, IncomeFigures, IncomeStatement, LiabilityGroup, ReportDate,
    ReportType, StatementView,
};

verus! {

/// The line items of the fixed balance sheet.
pub open spec fn mock_balance_items() -> Map<Seq<char>, Amount> {
    Map::<Seq<char>, Amount>::empty().insert("货币资金"@, Amount::of(1000000, 0)).insert(
        "应收账款"@,
        Amount::of(500000, 0),
    ).insert("存货"@, Amount::of(300000, 0)).insert("固定资产"@, Amount::of(2000000, 0)).insert(
        "资产总计"@,
        Amount::of(4000000, 0),
    ).insert("应付账款"@, Amount::of(400000, 0)).insert("短期借款"@, Amount::of(600000, 0)).insert(
        "负债合计"@,
        Amount::of(1500000, 0),
    ).insert("所有者权益合计"@, Amount::of(2500000, 0))
}

/// The operating assets of the fixed balance sheet, added one by one.
pub open spec fn mock_operating_assets() -> GroupView {
    GroupView::empty().added("货币资金"@, Amount::of(1000000, 0)).added(
        "应收账款"@,
        Amount::of(500000, 0),
    ).added("存货"@, Amount::of(300000, 0)).added("固定资产"@, Amount::of(2000000, 0))
}

/// The fixed balance sheet of a company for a day.
pub open spec fn mock_balance_sheet(stock_code: Seq<char>, date: ReportDate) -> BalanceSheetView {
    BalanceSheetView {
        statement: StatementView {
            stock_code,
            report_date: date,
            report_type: ReportType::BalanceSheet,
            items: mock_balance_items(),
        },
        operating_assets: mock_operating_assets(),
        financial_assets: GroupView::empty(),
        operating_liabilities: GroupView::empty().added("应付账款"@, Amount::of(400000, 0)),
        financial_liabilities: GroupView::empty().added("短期借款"@, Amount::of(600000, 0)),
    }
}

/// The line items of the fixed income statement.
pub open spec fn mock_income_items() -> Map<Seq<char>, Amount> {
    Map::<Seq<char>, Amount>::empty().insert("营业收入"@, Amount::of(5000000, 0)).insert(
        "营业成本"@,
        Amount::of(3000000, 0),
    ).insert("税金及附加"@, Amount::of(50000, 0)).insert("销售费用"@, Amount::of(300000, 0)).insert(
        "管理费用"@,
        Amount::of(200000, 0),
    ).insert("研发费用"@, Amount::of(150000, 0)).insert("财务费用"@, Amount::of(50000, 0)).insert(
        "营业利润"@,
        Amount::of(1250000, 0),
    ).insert("净利润"@, Amount::of(1000000, 0))
}

/// The figures of the fixed income statement.
pub open spec fn mock_income_figures() -> IncomeFigures {
    IncomeFigures {
        revenue: Amount::of(5000000, 0),
        operating_cost: Amount::of(3000000, 0),
        gross_profit: Amount::of(2000000, 0),
        core_profit: Amount::of(1250000, 0),
        net_profit: Amount::of(1000000, 0),
    }
}

/// The line items of the fixed cashflow statement.
pub open spec fn mock_cashflow_items() -> Map<Seq<char>, Amount> {
    Map::<Seq<char>, Amount>::empty().insert(
        "经营活动产生的现金流量净额"@,
        Amount::of(900000, 0),
    )
}

/// The figures of the fixed cashflow statement.
pub open spec fn mock_cashflow_figures() -> CashflowFigures {
    CashflowFigures {
        operating_cashflow: Amount::of(900000, 0),
        investing_cashflow: Amount::of(-200000, 0),
        financing_cashflow: Amount::of(-100000, 0),
        free_cashflow: Amount::of(700000, 0),
    }
}

/// The header of a fixed statement.
pub open spec fn mock_statement(
    stock_code: Seq<char>,
    date: ReportDate,
    kind: ReportType,
    items: Map<Seq<char>, Amount>,
) -> StatementView {
    StatementView { stock_code, report_date: date, report_type: kind, items }
}

/// The days for which the source gives statements between two days: the
/// first day itself, and then the last day of each following year, as long as
/// the day is not after the last one.
pub open spec fn mock_dates(start: ReportDate, end: ReportDate) -> Seq<ReportDate>
    decreases i32::MAX - start.year,
{
    if end.before(start) {
        Seq::empty()
    } else if start.year == i32::MAX {
        seq![start]
    } else {
        seq![start] + mock_dates(ReportDate::year_end_spec((start.year + 1) as i32), end)
    }
}

/// A data source of fixed statements.
#[derive(Debug, Clone, Copy)]
pub struct MockDataSource;

impl MockDataSource {
    pub fn new() -> (r: Self)
        ensures
            r == MockDataSource,
    {
        MockDataSource
    }

    /// The name of the source.
    pub fn name(&self) -> (r: &'static str)
        ensures
            r@ == "mock"@,
    {
        "mock"
    }

    /// The fixed balance sheet of a company for a day.
    pub fn create_mock_balance_sheet(&self, stock_code: &str, date: ReportDate) -> (r: BalanceSheet)
        ensures
            r@ == mock_balance_sheet(stock_code@, date),
    {
        let mut items = LineItems::new();
        items.insert("货币资金".to_string(), Amount::new(1000000, 0));
        items.insert("应收账款".to_string(), Amount::new(500000, 0));
        items.insert("存货".to_string(), Amount::new(300000, 0));
        items.insert("固定资产".to_string(), Amount::new(2000000, 0));
        items.insert("资产总计".to_string(), Amount::new(4000000, 0));
        items.insert("应付账款".to_string(), Amount::new(400000, 0));
        items.insert("短期借款".to_string(), Amount::new(600000, 0));
        items.insert("负债合计".to_string(), Amount::new(1500000, 0));
        items.insert("所有者权益合计".to_string(), Amount::new(2500000, 0));
        let statement = FinancialStatement {
            stock_code: stock_code.to_string(),
            report_date: date,
            report_type: ReportType::BalanceSheet,
            items,
        };
        let mut operating_assets = AssetGroup::new();
        operating_assets.try_add("货币资金".to_string(), Amount::new(1000000, 0));
        operating_assets.try_add("应收账款".to_string(), Amount::new(500000, 0));
        operating_assets.try_add("存货".to_string(), Amount::new(300000, 0));
        operating_assets.try_add("固定资产".to_string(), Amount::new(2000000, 0));
        let financial_assets = AssetGroup::new();
        let mut operating_liabilities = LiabilityGroup::new();
        operating_liabilities.try_add("应付账款".to_string(), Amount::new(400000, 0));
        let mut financial_liabilities = LiabilityGroup::new();
        financial_liabilities.try_add("短期借款".to_string(), Amount::new(600000, 0));
        BalanceSheet {
            statement,
            operating_assets,
            financial_assets,
            operating_liabilities,
            financial_liabilities,
        }
    }

    /// The fixed income statement of a company for a day.
    pub fn create_mock_income_statement(&self, stock_code: &str, date: ReportDate) -> (r:
        IncomeStatement)
        ensures
            r.statement@ == mock_statement(
                stock_code@,
                date,
                ReportType::IncomeStatement,
                mock_income_items(),
            ),
            r.figures() == mock_income_figures(),
    {
        let mut items = LineItems::new();
        items.insert("营业收入".to_string(), Amount::new(5000000, 0));
        items.insert("营业成本".to_string(), Amount::new(3000000, 0));
        items.insert("税金及附加".to_string(), Amount::new(50000, 0));
        items.insert("销售费用".to_string(), Amount::new(300000, 0));
        items.insert("管理费用".to_string(), Amount::new(200000, 0));
        items.insert("研发费用".to_string(), Amount::new(150000, 0));
        items.insert("财务费用".to_string(), Amount::new(50000, 0));
        items.insert("营业利润".to_string(), Amount::new(1250000, 0));
        items.insert("净利润".to_string(), Amount::new(1000000, 0));
        let statement = FinancialStatement {
            stock_code: stock_code.to_string(),
            report_date: date,
            report_type: ReportType::IncomeStatement,
            items,
        };
        IncomeStatement {
            statement,
            revenue: Amount::new(5000000, 0),
            operating_cost: Amount::new(3000000, 0),
            gross_profit: Amount::new(2000000, 0),
            core_profit: Amount::new(1250000, 0),
            net_profit: Amount::new(1000000, 0),
        }
    }

    /// The fixed cashflow statement of a company for a day.
    pub fn create_mock_cashflow_statement(&self, stock_code: &str, date: ReportDate) -> (r:
        CashflowStatement)
        ensures
            r.statement@ == mock_statement(
                stock_code@,
                date,
                ReportType::CashflowStatement,
                mock_cashflow_items(),
            ),
            r.figures() == mock_cashflow_figures(),
    {
        let mut items = LineItems::new();
        items.insert("经营活动产生的现金流量净额".to_string(), Amount::new(900000, 0));
        let statement = FinancialStatement {
            stock_code: stock_code.to_string(),
            report_date: date,
            report_type: ReportType::CashflowStatement,
            items,
        };
        CashflowStatement {
            statement,
            operating_cashflow: Amount::new(900000, 0),
            investing_cashflow: Amount::new(-200000, 0),
            financing_cashflow: Amount::new(-100000, 0),
            free_cashflow: Amount::new(700000, 0),
        }
    }

    /// The days of [`mock_dates`] between two days.
    pub fn dates(start_date: ReportDate, end_date: ReportDate) -> (r: Vec<ReportDate>)
        ensures
            r@ == mock_dates(start_date, end_date),
    {
        let mut dates: Vec<ReportDate> = Vec::new();
        let mut current = start_date;
        let mut more = true;
        while more && !end_date.is_before(&current)
            invariant
                mock_dates(start_date, end_date) == dates@ + (if more {
                    mock_dates(current, end_date)
                } else {
                    Seq::<ReportDate>::empty()
                }),
            decreases (if more { 1int } else { 0int }) + i32::MAX - current.year,
        {
            let ghost before = dates@;
            dates.push(current);
            if current.year == i32::MAX {
                more = false;
                proof {
                    assert(before + seq![current] =~= dates@ + Seq::<ReportDate>::empty());
                }
            } else {
                let next = ReportDate::year_end(current.year + 1);
                proof {
                    assert(before + (seq![current] + mock_dates(next, end_date)) =~= dates@
                        + mock_dates(next, end_date));
                }
                current = next;
            }
        }
        proof {
            assert(dates@ + Seq::<ReportDate>::empty() =~= dates@);
        }
        dates
    }

    /// The fixed balance sheet for each day of [`mock_dates`].
    pub fn fetch_balance_sheet(
        &self,
        stock_code: &str,
        start_date: ReportDate,
        end_date: ReportDate,
    ) -> (r: Vec<BalanceSheet>)
        ensures
            r@.len() == mock_dates(start_date, end_date).len(),
            forall|i: int|
                0 <= i < r@.len() ==> (#[trigger] r@[i])@ == mock_balance_sheet(
                    stock_code@,
                    mock_dates(start_date, end_date)[i],
                ),
    {
        let dates = MockDataSource::dates(start_date, end_date);
        let mut sheets: Vec<BalanceSheet> = Vec::new();
        let mut i: usize = 0;
        while i < dates.len()
            invariant
                i <= dates@.len(),
                sheets@.len() == i,
                forall|j: int|
                    0 <= j < i ==> (#[trigger] sheets@[j])@ == mock_balance_sheet(
                        stock_code@,
                        dates@[j],
                    ),
            decreases dates@.len() - i,
        {
            sheets.push(self.create_mock_balance_sheet(stock_code, dates[i]));
            i += 1;
        }
        sheets
    }

    /// The fixed income statement for each day of [`mock_dates`].
    pub fn fetch_income_statement(
        &self,
        stock_code: &str,
        start_date: ReportDate,
        end_date: ReportDate,
    ) -> (r: Vec<IncomeStatement>)
        ensures
            r@.len() == mock_dates(start_date, end_date).len(),
            forall|i: int|
                0 <= i < r@.len() ==> (#[trigger] r@[i]).statement@ == mock_statement(
                    stock_code@,
                    mock_dates(start_date, end_date)[i],
                    ReportType::IncomeStatement,
                    mock_income_items(),
                ) && r@[i].figures() == mock_income_figures(),
    {
        let dates = MockDataSource::dates(start_date, end_date);
        let mut statements: Vec<IncomeStatement> = Vec::new();
        let mut i: usize = 0;
        while i < dates.len()
            invariant
                i <= dates@.len(),
                statements@.len() == i,
                forall|j: int|
                    0 <= j < i ==> (#[trigger] statements@[j]).statement@ == mock_statement(
                        stock_code@,
                        dates@[j],
                        ReportType::IncomeStatement,
                        mock_income_items(),
                    ) && statements@[j].figures() == mock_income_figures(),
            decreases dates@.len() - i,
        {
            statements.push(self.create_mock_income_statement(stock_code, dates[i]));
            i += 1;
        }
        statements
    }

    /// The fixed cashflow statement for each day of [`mock_dates`].
    pub fn fetch_cashflow_statement(
        &self,
        stock_code: &str,
        start_date: ReportDate,
        end_date: ReportDate,
    ) -> (r: Vec<CashflowStatement>)
        ensures
            r@.len() == mock_dates(start_date, end_date).len(),
            forall|i: int|
                0 <= i < r@.len() ==> (#[trigger] r@[i]).statement@ == mock_statement(
                    stock_code@,
                    mock_dates(start_date, end_date)[i],
                    ReportType::CashflowStatement,
                    mock_cashflow_items(),
                ) && r@[i].figures() == mock_cashflow_figures(),
    {
        let dates = MockDataSource::dates(start_date, end_date);
        let mut statements: Vec<CashflowStatement> = Vec::new();
        let mut i: usize = 0;
        while i < dates.len()
            invariant
                i <= dates@.len(),
                statements@.len() == i,
                forall|j: int|
                    0 <= j < i ==> (#[trigger] statements@[j]).statement@ == mock_statement(
                        stock_code@,
                        dates@[j],
                        ReportType::CashflowStatement,
                        mock_cashflow_items(),
                    ) && statements@[j].figures() == mock_cashflow_figures(),
            decreases dates@.len() - i,
        {
            statements.push(self.create_mock_cashflow_statement(stock_code, dates[i]));
            i += 1;
        }
        statements
    }
}

} // verus!
