//! The AKShare source: what it does with a report once it has been fetched.
//!
//! Only annual reports count, those of a 31 December, and only those within
//! the days asked for.

use vstd::prelude::*;
use crate::domain::models::{
    chrono_date, AssetGroup, BalanceSheet, CashflowStatement, FinancialStatement, GroupView,
    IncomeNames, IncomeStatement, LiabilityGroup, ReportDate,
};

verus! {

/// The names by which the figures of an income statement of this source are
/// read. Core profit is taken to be the net profit.
pub open spec fn akshare_income_names() -> IncomeNames {
    IncomeNames {
        revenue: "营业总收入"@,
        operating_cost: "营业总成本"@,
        cost_of_sales: "营业成本"@,
        core_profit: "净利润"@,
        net_profit: "净利润"@,
    }
}

/// The part of a stock code before its first dot; the whole code where it has
/// no dot.
pub open spec fn bare_code(code: Seq<char>) -> Seq<char>
    decreases code.len(),
{
    if code.len() == 0 || code[0] == '.' {
        Seq::empty()
    } else {
        seq![code[0]] + bare_code(code.drop_first())
    }
}

/// The symbol of a bare stock code at the exchange: `sh` before a code that
/// begins with `6`, `sz` before any other.
pub open spec fn sina_symbol_spec(code: Seq<char>) -> Seq<char> {
    if code.len() > 0 && code[0] == '6' {
        "sh"@ + code
    } else {
        "sz"@ + code
    }
}

/// The day of a report as this source writes it: `2023-12-31`, or `20231231`
/// where that does not read.
pub open spec fn report_date_spec(text: Seq<char>) -> Option<ReportDate> {
    match chrono_date(text, "%Y-%m-%d"@) {
        Some(d) => Some(d),
        None => chrono_date(text, "%Y%m%d"@),
    }
}

/// A report of this day counts: it is an annual report within the days asked
/// for.
pub open spec fn is_wanted_spec(date: ReportDate, start: ReportDate, end: ReportDate) -> bool {
    date.is_year_end_spec() && !date.before(start) && !end.before(date)
}

/// The AKShare source, which runs a Python interpreter.
#[derive(Debug)]
pub struct AkshareClient {
    python_path: String,
}

impl AkshareClient {
    /// The interpreter that the source runs.
    pub closed spec fn python_path_spec(&self) -> Seq<char> {
        self.python_path@
    }

    /// A source that runs `python3`.
    pub fn new() -> (r: Self)
        ensures
            r.python_path_spec() == "python3"@,
    {
        AkshareClient { python_path: "python3".to_string() }
    }

    /// The interpreter that the source runs.
    pub fn python_path(&self) -> (r: &str)
        ensures
            r@ == self.python_path_spec(),
    {
        self.python_path.as_str()
    }

    /// The name of the source.
    pub fn name(&self) -> (r: &'static str)
        ensures
            r@ == "akshare"@,
    {
        "akshare"
    }

    /// The part of a stock code before its first dot: `600519` of `600519.SH`.
    pub fn convert_stock_code(&self, code: &str) -> (r: String)
        ensures
            r@ == bare_code(code@),
    {
        let n = code.unicode_len();
        proof {
            assert(code@.skip(0) =~= code@);
            assert(code@.take(0) + bare_code(code@) =~= bare_code(code@));
        }
        let mut i: usize = 0;
        while i < n
            invariant
                n == code@.len(),
                i <= n,
                bare_code(code@) == code@.take(i as int) + bare_code(code@.skip(i as int)),
            decreases n - i,
        {
            proof {
                assert(code@.skip(i as int)[0] == code@[i as int]);
            }
            if code.get_char(i) == '.' {
                proof {
                    assert(code@.take(i as int) + Seq::<char>::empty() =~= code@.take(i as int));
                }
                return code.substring_char(0, i).to_owned();
            }
            proof {
                assert(code@.skip(i as int).drop_first() =~= code@.skip(i + 1));
                assert(code@.take(i as int) + (seq![code@[i as int]] + bare_code(
                    code@.skip(i + 1),
                )) =~= code@.take(i + 1) + bare_code(code@.skip(i + 1)));
            }
            i += 1;
        }
        proof {
            assert(code@.skip(i as int).len() == 0);
            assert(code@.take(i as int) + Seq::<char>::empty() =~= code@);
        }
        code.to_owned()
    }

    /// The symbol of a bare stock code at the exchange.
    pub fn sina_symbol(code: &str) -> (r: String)
        ensures
            r@ == sina_symbol_spec(code@),
    {
        if code.unicode_len() > 0 && code.get_char(0) == '6' {
            "sh".to_string().concat(code)
        } else {
            "sz".to_string().concat(code)
        }
    }

    /// Reads the day of a report.
    pub fn report_date(text: &str) -> (r: Option<ReportDate>)
        ensures
            r == report_date_spec(text@),
    {
        match ReportDate::parse(text, "%Y-%m-%d") {
            Some(d) => Some(d),
            None => ReportDate::parse(text, "%Y%m%d"),
        }
    }

    /// Whether a report of this day counts.
    pub fn is_wanted(date: &ReportDate, start_date: &ReportDate, end_date: &ReportDate) -> (r:
        bool)
        ensures
            r == is_wanted_spec(*date, *start_date, *end_date),
    {
        date.is_year_end() && date.is_within(start_date, end_date)
    }

    /// The balance sheet of a statement. This source does not say which
    /// accounts are operating and which financial, so the groups are empty.
    pub fn balance_sheet(statement: FinancialStatement) -> (r: BalanceSheet)
        ensures
            r.statement == statement,
            r.operating_assets@ == GroupView::empty(),
            r.financial_assets@ == GroupView::empty(),
            r.operating_liabilities@ == GroupView::empty(),
            r.financial_liabilities@ == GroupView::empty(),
    {
        BalanceSheet {
            statement,
            operating_assets: AssetGroup::new(),
            financial_assets: AssetGroup::new(),
            operating_liabilities: LiabilityGroup::new(),
            financial_liabilities: LiabilityGroup::new(),
        }
    }

    /// The income statement of a statement, its figures read by
    /// [`akshare_income_names`]. `None` where the gross profit does not fit.
    pub fn income_statement(statement: &FinancialStatement) -> (r: Option<IncomeStatement>)
        ensures
            match r {
                Some(income) => IncomeStatement::figures_under(
                    statement.items@,
                    akshare_income_names(),
                ) == Some(income.figures()) && income.statement@ == statement@,
                None => IncomeStatement::figures_under(statement.items@, akshare_income_names())
                    is None,
            },
    {
        IncomeStatement::derive(statement, "营业总收入", "营业总成本", "营业成本", "净利润", "净利润")
    }

    /// The cashflow statement of a statement; free cashflow is operating
    /// cashflow less capital expenditure. `None` where that does not fit.
    pub fn cashflow_statement(statement: &FinancialStatement) -> (r: Option<CashflowStatement>)
        ensures
            match r {
                Some(cashflow) => CashflowStatement::figures_of(statement.items@) == Some(
                    cashflow.figures(),
                ) && cashflow.statement@ == statement@,
                None => CashflowStatement::figures_of(statement.items@) is None,
            },
    {
        CashflowStatement::from_statement(statement)
    }
}

} // verus!
