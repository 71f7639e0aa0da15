//! The Tushare source: what it does with a table once it has been fetched.
//!
//! A table has named columns and rows of cells. Each row becomes a statement:
//! its numbers become line items under the names of their columns, and the
//! text in the column `end_date`, written as `20231231`, its day.

use vstd::prelude::*;
use crate::decimal::Amount;
use crate::domain::line_items::LineItems;
use crate::domain::models::{
    chrono_date, AssetGroup, BalanceSheet, CashflowStatement, FinancialStatement, GroupView,
    IncomeNames, IncomeStatement, LiabilityGroup, ReportDate, ReportType,
};
use crate::error::AnalyzerError;

verus! {

/// One cell of a table.
#[derive(Debug)]
pub enum Cell {
    Number(Amount),
    Text(String),
    Other,
}

/// A table as the source gives it.
#[derive(Debug)]
pub struct TushareData {
    pub fields: Vec<String>,
    pub items: Vec<Vec<Cell>>,
}

/// The names by which the figures of an income statement of this source are
/// read. Core profit is taken to be the net profit.
pub open spec fn tushare_income_names() -> IncomeNames {
    IncomeNames {
        revenue: "revenue"@,
        operating_cost: "oper_cost"@,
        cost_of_sales: "oper_cost"@,
        core_profit: "n_income"@,
        net_profit: "n_income"@,
    }
}

/// The line items that the first `n` columns of a row give: each number under
/// the name of its column, a later column taking the place of an earlier one
/// of the same name. Columns beyond the end of the row give nothing.
pub open spec fn row_items(fields: Seq<String>, row: Seq<Cell>, n: nat) -> Map<Seq<char>, Amount>
    decreases n,
{
    if n == 0 {
        Map::empty()
    } else {
        let before = row_items(fields, row, (n - 1) as nat);
        if n <= fields.len() && n <= row.len() {
            match row[n - 1] {
                Cell::Number(a) => before.insert(fields[n - 1]@, a),
                _ => before,
            }
        } else {
            before
        }
    }
}

/// The position of the first column from `from` on that is named `end_date`;
/// the number of columns where there is none.
pub open spec fn date_column_from(fields: Seq<String>, from: nat) -> nat
    decreases fields.len() - from,
{
    if from >= fields.len() {
        fields.len()
    } else if fields[from as int]@ == "end_date"@ {
        from
    } else {
        date_column_from(fields, from + 1)
    }
}

/// The position of the column that holds the day: the first that is named
/// `end_date`, and the first of all where none is.
pub open spec fn date_column(fields: Seq<String>) -> nat {
    if date_column_from(fields, 0) < fields.len() {
        date_column_from(fields, 0)
    } else {
        0
    }
}

/// The day of a row: what its cell in the date column reads as, where that
/// cell is a text. `None` where the row has no such cell or the text reads as
/// no day.
pub open spec fn row_date(fields: Seq<String>, row: Seq<Cell>) -> Option<ReportDate> {
    let column = date_column(fields);
    if column < row.len() {
        match row[column as int] {
            Cell::Text(t) => chrono_date(t@, "%Y%m%d"@),
            _ => None,
        }
    } else {
        None
    }
}

/// Some row of the table has no day.
pub open spec fn lacks_date(data: TushareData) -> bool {
    exists|i: int|
        0 <= i < data.items@.len() && row_date(data.fields@, (#[trigger] data.items@[i])@) is None
}

fn find_date_column(fields: &Vec<String>) -> (r: usize)
    ensures
        r == date_column(fields@),
{
    let mut i: usize = 0;
    while i < fields.len()
        invariant
            i <= fields@.len(),
            date_column_from(fields@, 0) == date_column_from(fields@, i as nat),
        decreases fields@.len() - i,
    {
        if *fields[i].as_str() == *"end_date" {
            return i;
        }
        i += 1;
    }
    0
}

fn date_of_row(fields: &Vec<String>, row: &Vec<Cell>) -> (r: Option<ReportDate>)
    ensures
        r == row_date(fields@, row@),
{
    let column = find_date_column(fields);
    if column < row.len() {
        match &row[column] {
            Cell::Text(t) => ReportDate::parse(t.as_str(), "%Y%m%d"),
            _ => None,
        }
    } else {
        None
    }
}

fn items_of_row(fields: &Vec<String>, row: &Vec<Cell>) -> (r: LineItems)
    ensures
        r@ == row_items(fields@, row@, fields@.len()),
{
    let mut items = LineItems::new();
    let mut i: usize = 0;
    while i < fields.len()
        invariant
            i <= fields@.len(),
            items@ == row_items(fields@, row@, i as nat),
        decreases fields@.len() - i,
    {
        if i < row.len() {
            match &row[i] {
                Cell::Number(a) => {
                    items.insert(fields[i].clone(), *a);
                },
                _ => {},
            }
        }
        i += 1;
    }
    items
}

/// The statement of a row, or an error where the row has no day.
fn statement_of_row(
    fields: &Vec<String>,
    row: &Vec<Cell>,
    stock_code: &str,
    kind: ReportType,
    with_items: bool,
) -> (r: Result<FinancialStatement, AnalyzerError>)
    ensures
        match r {
            Ok(s) => {
                &&& row_date(fields@, row@) == Some(s.report_date)
                &&& s.stock_code@ == stock_code@
                &&& s.report_type == kind
                &&& s.items@ == (if with_items {
                    row_items(fields@, row@, fields@.len())
                } else {
                    Map::<Seq<char>, Amount>::empty()
                })
            },
            Err(e) => e is DataSource && row_date(fields@, row@) is None,
        },
{
    let items = if with_items {
        items_of_row(fields, row)
    } else {
        LineItems::new()
    };
    match date_of_row(fields, row) {
        Some(report_date) => Ok(
            FinancialStatement {
                stock_code: stock_code.to_string(),
                report_date,
                report_type: kind,
                items,
            },
        ),
        None => Err(AnalyzerError::DataSource("缺少报告日期".to_string())),
    }
}

/// The balance sheets of a table, one for each row. The source does not say
/// which accounts are operating and which financial, so the groups are empty.
///
/// Fails with a data-source error where a row has no day.
pub fn parse_balance_sheet(data: &TushareData, stock_code: &str) -> (r: Result<
    Vec<BalanceSheet>,
    AnalyzerError,
>)
    ensures
        match r {
            Ok(sheets) => {
                &&& sheets@.len() == data.items@.len()
                &&& forall|i: int|
                    0 <= i < sheets@.len() ==> {
                        let sheet = #[trigger] sheets@[i];
                        &&& row_date(data.fields@, data.items@[i]@) == Some(
                            sheet.statement.report_date,
                        )
                        &&& sheet.statement.stock_code@ == stock_code@
                        &&& sheet.statement.report_type == ReportType::BalanceSheet
                        &&& sheet.statement.items@ == row_items(
                            data.fields@,
                            data.items@[i]@,
                            data.fields@.len(),
                        )
                        &&& sheet.operating_assets@ == GroupView::empty()
                        &&& sheet.financial_assets@ == GroupView::empty()
                        &&& sheet.operating_liabilities@ == GroupView::empty()
                        &&& sheet.financial_liabilities@ == GroupView::empty()
                    }
            },
            Err(e) => e is DataSource && lacks_date(*data),
        },
{
    let mut sheets: Vec<BalanceSheet> = Vec::new();
    let mut i: usize = 0;
    while i < data.items.len()
        invariant
            i <= data.items@.len(),
            sheets@.len() == i,
            forall|j: int|
                0 <= j < i ==> {
                    let sheet = #[trigger] sheets@[j];
                    &&& row_date(data.fields@, data.items@[j]@) == Some(
                        sheet.statement.report_date,
                    )
                    &&& sheet.statement.stock_code@ == stock_code@
                    &&& sheet.statement.report_type == ReportType::BalanceSheet
                    &&& sheet.statement.items@ == row_items(
                        data.fields@,
                        data.items@[j]@,
                        data.fields@.len(),
                    )
                    &&& sheet.operating_assets@ == GroupView::empty()
                    &&& sheet.financial_assets@ == GroupView::empty()
                    &&& sheet.operating_liabilities@ == GroupView::empty()
                    &&& sheet.financial_liabilities@ == GroupView::empty()
                },
        decreases data.items@.len() - i,
    {
        match statement_of_row(
            &data.fields,
            &data.items[i],
            stock_code,
            ReportType::BalanceSheet,
            true,
        ) {
            Ok(statement) => {
                sheets.push(
                    BalanceSheet {
                        statement,
                        operating_assets: AssetGroup::new(),
                        financial_assets: AssetGroup::new(),
                        operating_liabilities: LiabilityGroup::new(),
                        financial_liabilities: LiabilityGroup::new(),
                    },
                );
            },
            Err(e) => {
                return Err(e);
            },
        }
        i += 1;
    }
    Ok(sheets)
}

/// How the parsing of a table of income statements ends at a row: with a
/// statement whose figures are read by [`tushare_income_names`], or without
/// one where the row has no day or the gross profit does not fit.
pub open spec fn income_row_fails(fields: Seq<String>, row: Seq<Cell>) -> bool {
    row_date(fields, row) is None || IncomeStatement::figures_under(
        row_items(fields, row, fields.len()),
        tushare_income_names(),
    ) is None
}

/// The income statements of a table, one for each row.
///
/// Fails with a data-source error where a row has no day, and with a
/// calculation error where the gross profit of a row does not fit.
pub fn parse_income_statement(data: &TushareData, stock_code: &str) -> (r: Result<
    Vec<IncomeStatement>,
    AnalyzerError,
>)
    ensures
        match r {
            Ok(statements) => {
                &&& statements@.len() == data.items@.len()
                &&& forall|i: int|
                    0 <= i < statements@.len() ==> {
                        let income = #[trigger] statements@[i];
                        &&& row_date(data.fields@, data.items@[i]@) == Some(
                            income.statement.report_date,
                        )
                        &&& income.statement.stock_code@ == stock_code@
                        &&& income.statement.report_type == ReportType::IncomeStatement
                        &&& income.statement.items@ == row_items(
                            data.fields@,
                            data.items@[i]@,
                            data.fields@.len(),
                        )
                        &&& IncomeStatement::figures_under(
                            income.statement.items@,
                            tushare_income_names(),
                        ) == Some(income.figures())
                    }
            },
            Err(e) => (e is DataSource || e is Calculation) && exists|i: int|
                0 <= i < data.items@.len() && income_row_fails(
                    data.fields@,
                    (#[trigger] data.items@[i])@,
                ),
        },
{
    let mut statements: Vec<IncomeStatement> = Vec::new();
    let mut i: usize = 0;
    while i < data.items.len()
        invariant
            i <= data.items@.len(),
            statements@.len() == i,
            forall|j: int|
                0 <= j < i ==> {
                    let income = #[trigger] statements@[j];
                    &&& row_date(data.fields@, data.items@[j]@) == Some(
                        income.statement.report_date,
                    )
                    &&& income.statement.stock_code@ == stock_code@
                    &&& income.statement.report_type == ReportType::IncomeStatement
                    &&& income.statement.items@ == row_items(
                        data.fields@,
                        data.items@[j]@,
                        data.fields@.len(),
                    )
                    &&& IncomeStatement::figures_under(
                        income.statement.items@,
                        tushare_income_names(),
                    ) == Some(income.figures())
                },
        decreases data.items@.len() - i,
    {
        let statement = match statement_of_row(
            &data.fields,
            &data.items[i],
            stock_code,
            ReportType::IncomeStatement,
            true,
        ) {
            Ok(s) => s,
            Err(e) => {
                return Err(e);
            },
        };
        match IncomeStatement::derive(
            &statement,
            "revenue",
            "oper_cost",
            "oper_cost",
            "n_income",
            "n_income",
        ) {
            Some(income) => {
                statements.push(income);
            },
            None => {
                return Err(AnalyzerError::Calculation("利润表数据溢出".to_string()));
            },
        }
        i += 1;
    }
    Ok(statements)
}

/// The cashflow statements of a table, one for each row. Only the day of a
/// row is read: the statements hold no line items and all their figures are
/// zero.
///
/// Fails with a data-source error where a row has no day.
pub fn parse_cashflow_statement(data: &TushareData, stock_code: &str) -> (r: Result<
    Vec<CashflowStatement>,
    AnalyzerError,
>)
    ensures
        match r {
            Ok(statements) => {
                &&& statements@.len() == data.items@.len()
                &&& forall|i: int|
                    0 <= i < statements@.len() ==> {
                        let cashflow = #[trigger] statements@[i];
                        &&& row_date(data.fields@, data.items@[i]@) == Some(
                            cashflow.statement.report_date,
                        )
                        &&& cashflow.statement.stock_code@ == stock_code@
                        &&& cashflow.statement.report_type == ReportType::CashflowStatement
                        &&& cashflow.statement.items@ == Map::<Seq<char>, Amount>::empty()
                        &&& cashflow.operating_cashflow == Amount::zero_spec()
                        &&& cashflow.investing_cashflow == Amount::zero_spec()
                        &&& cashflow.financing_cashflow == Amount::zero_spec()
                        &&& cashflow.free_cashflow == Amount::zero_spec()
                    }
            },
            Err(e) => e is DataSource && lacks_date(*data),
        },
{
    let mut statements: Vec<CashflowStatement> = Vec::new();
    let mut i: usize = 0;
    while i < data.items.len()
        invariant
            i <= data.items@.len(),
            statements@.len() == i,
            forall|j: int|
                0 <= j < i ==> {
                    let cashflow = #[trigger] statements@[j];
                    &&& row_date(data.fields@, data.items@[j]@) == Some(
                        cashflow.statement.report_date,
                    )
                    &&& cashflow.statement.stock_code@ == stock_code@
                    &&& cashflow.statement.report_type == ReportType::CashflowStatement
                    &&& cashflow.statement.items@ == Map::<Seq<char>, Amount>::empty()
                    &&& cashflow.operating_cashflow == Amount::zero_spec()
                    &&& cashflow.investing_cashflow == Amount::zero_spec()
                    &&& cashflow.financing_cashflow == Amount::zero_spec()
                    &&& cashflow.free_cashflow == Amount::zero_spec()
                },
        decreases data.items@.len() - i,
    {
        match statement_of_row(
            &data.fields,
            &data.items[i],
            stock_code,
            ReportType::CashflowStatement,
            false,
        ) {
            Ok(statement) => {
                statements.push(
                    CashflowStatement {
                        statement,
                        operating_cashflow: Amount::zero(),
                        investing_cashflow: Amount::zero(),
                        financing_cashflow: Amount::zero(),
                        free_cashflow: Amount::zero(),
                    },
                );
            },
            Err(e) => {
                return Err(e);
            },
        }
        i += 1;
    }
    Ok(statements)
}

} // verus!
