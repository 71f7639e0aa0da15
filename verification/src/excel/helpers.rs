//! Figures by statement kind, year and account.

use vstd::prelude::*;
use crate::decimal::Amount;
use crate::domain::models::{statement_views, FinancialStatement, ReportType, StatementView};

verus! {

/// The statement number `n` of a kind in a series, counted from 0 among the
/// statements of that kind.
pub open spec fn nth_of_kind(statements: Seq<StatementView>, kind: ReportType, n: nat) -> Option<
    StatementView,
>
    decreases statements.len(),
{
    if statements.len() == 0 {
        None
    } else if statements[0].report_type == kind {
        if n == 0 {
            Some(statements[0])
        } else {
            nth_of_kind(statements.drop_first(), kind, (n - 1) as nat)
        }
    } else {
        nth_of_kind(statements.drop_first(), kind, n)
    }
}

/// The amount of an account in the statement number `n` of a kind, if there
/// is such a statement and it has the account.
pub open spec fn figure_of(
    statements: Seq<StatementView>,
    kind: ReportType,
    n: nat,
    account: Seq<char>,
) -> Option<Amount> {
    match nth_of_kind(statements, kind, n) {
        Some(s) => if s.items.contains_key(account) {
            Some(s.items[account])
        } else {
            None
        },
        None => None,
    }
}

/// The amount that stands for an absent figure: zero.
pub open spec fn or_zero(figure: Option<Amount>) -> Amount {
    match figure {
        Some(a) => a,
        None => Amount::zero_spec(),
    }
}

/// Looks figures up in the statements of an analysis.
pub struct DataHelper<'a> {
    statements: &'a [FinancialStatement],
}

impl<'a> DataHelper<'a> {
    /// What the statements say.
    pub closed spec fn views(&self) -> Seq<StatementView> {
        statement_views(self.statements@)
    }

    pub fn new(statements: &'a [FinancialStatement]) -> (r: Self)
        ensures
            r.views() == statement_views(statements@),
    {
        DataHelper { statements }
    }

    /// The amount of an account in the statement number `year_idx` of a kind.
    pub fn get(&self, kind: ReportType, year_idx: usize, account: &str) -> (r: Option<Amount>)
        ensures
            r == figure_of(self.views(), kind, year_idx as nat, account@),
    {
        let ghost views = self.views();
        let mut remaining: usize = year_idx;
        let mut i: usize = 0;
        proof {
            assert(views.skip(0) =~= views);
        }
        while i < self.statements.len()
            invariant
                i <= self.statements@.len(),
                views == statement_views(self.statements@),
                nth_of_kind(views, kind, year_idx as nat) == nth_of_kind(
                    views.skip(i as int),
                    kind,
                    remaining as nat,
                ),
            decreases self.statements@.len() - i,
        {
            proof {
                assert(views.skip(i as int)[0] == self.statements@[i as int]@);
                assert(views.skip(i as int).drop_first() =~= views.skip(i + 1));
            }
            if self.statements[i].report_type == kind {
                if remaining == 0 {
                    return self.statements[i].items.get(account);
                }
                remaining -= 1;
            }
            i += 1;
        }
        proof {
            assert(views.skip(i as int).len() == 0);
        }
        None
    }

    /// The amount of an account in the balance sheet number `year_idx`; zero
    /// where there is none.
    pub fn get_balance(&self, year_idx: usize, account: &str) -> (r: Amount)
        ensures
            r == or_zero(
                figure_of(self.views(), ReportType::BalanceSheet, year_idx as nat, account@),
            ),
    {
        match self.get(ReportType::BalanceSheet, year_idx, account) {
            Some(a) => a,
            None => Amount::zero(),
        }
    }

    /// The amount of an account in the income statement number `year_idx`;
    /// zero where there is none.
    pub fn get_income(&self, year_idx: usize, account: &str) -> (r: Amount)
        ensures
            r == or_zero(
                figure_of(self.views(), ReportType::IncomeStatement, year_idx as nat, account@),
            ),
    {
        match self.get(ReportType::IncomeStatement, year_idx, account) {
            Some(a) => a,
            None => Amount::zero(),
        }
    }

    /// The amount of an account in the cashflow statement number `year_idx`;
    /// zero where there is none.
    pub fn get_cashflow(&self, year_idx: usize, account: &str) -> (r: Amount)
        ensures
            r == or_zero(
                figure_of(self.views(), ReportType::CashflowStatement, year_idx as nat, account@),
            ),
    {
        match self.get(ReportType::CashflowStatement, year_idx, account) {
            Some(a) => a,
            None => Amount::zero(),
        }
    }

    /// The amount of an account in the balance sheet number `year_idx`.
    pub fn get_balance_opt(&self, year_idx: usize, account: &str) -> (r: Option<Amount>)
        ensures
            r == figure_of(self.views(), ReportType::BalanceSheet, year_idx as nat, account@),
    {
        self.get(ReportType::BalanceSheet, year_idx, account)
    }

    /// The amount of an account in the income statement number `year_idx`.
    pub fn get_income_opt(&self, year_idx: usize, account: &str) -> (r: Option<Amount>)
        ensures
            r == figure_of(self.views(), ReportType::IncomeStatement, year_idx as nat, account@),
    {
        self.get(ReportType::IncomeStatement, year_idx, account)
    }

    /// The amount of an account in the cashflow statement number `year_idx`.
    pub fn get_cashflow_opt(&self, year_idx: usize, account: &str) -> (r: Option<Amount>)
        ensures
            r == figure_of(self.views(), ReportType::CashflowStatement, year_idx as nat, account@),
    {
        self.get(ReportType::CashflowStatement, year_idx, account)
    }
}

} // verus!
