//! Checks on a statement: the accounting equation, required accounts, and
//! plausible values.

use vstd::prelude::*;
use crate::decimal::{decimal_difference, decimal_quotient, decimal_sum, decimal_text, Amount};
use crate::domain::line_items::{LineItem, LineItems};
use crate::domain::models::{BalanceSheet, IncomeStatement};
use crate::utils::config::ValidationRules;

verus! {

/// How grave a finding statement.
#[derive(Debug, Clone, Copy, PartialEq, Eq, Structural)]
pub enum Severity {
    Critical,
    High,
    Medium,
    Low,
}

/// What a validation error says, as values: the model of a [`ValidationError`].
pub struct ErrorView {
    pub field: Seq<char>,
    pub rule: Seq<char>,
    pub message: Seq<char>,
    pub severity: Severity,
}

/// A rule that a statement breaks.
#[derive(Debug, Clone)]
pub struct ValidationError {
    pub field: String,
    pub rule: String,
    pub message: String,
    pub severity: Severity,
}

impl View for ValidationError {
    type V = ErrorView;

    open spec fn view(&self) -> ErrorView {
        ErrorView {
            field: self.field@,
            rule: self.rule@,
            message: self.message@,
            severity: self.severity,
        }
    }
}

/// What a validation warning says, as values: the model of a
/// [`ValidationWarning`].
pub struct WarningView {
    pub field: Seq<char>,
    pub message: Seq<char>,
}

/// Something conspicuous that breaks no rule.
#[derive(Debug, Clone)]
pub struct ValidationWarning {
    pub field: String,
    pub message: String,
}

impl View for ValidationWarning {
    type V = WarningView;

    open spec fn view(&self) -> WarningView {
        WarningView { field: self.field@, message: self.message@ }
    }
}

/// What validation found in one statement.
#[derive(Debug, Clone)]
pub struct ValidationResult {
    pub is_valid: bool,
    pub errors: Vec<ValidationError>,
    pub warnings: Vec<ValidationWarning>,
    /// From 100 for a statement without findings down to 0.
    pub reliability_score: u32,
}

/// What a list of errors says.
pub open spec fn error_views(errors: Seq<ValidationError>) -> Seq<ErrorView> {
    Seq::new(errors.len(), |i: int| errors[i]@)
}

/// What a list of warnings says.
pub open spec fn warning_views(warnings: Seq<ValidationWarning>) -> Seq<WarningView> {
    Seq::new(warnings.len(), |i: int| warnings[i]@)
}

/// By how much assets may differ from liabilities and equity: 1000.
pub open spec fn tolerance() -> Amount {
    Amount::of(1000, 0)
}

/// The largest amount that is taken to be plausible: 1,000,000,000,000.
pub open spec fn largest_plausible() -> Amount {
    Amount::of(1_000_000_000_000, 0)
}

/// By how much the assets of a balance sheet differ from its liabilities and
/// equity, as a size. `None` where that does not fit.
pub open spec fn imbalance(items: Map<Seq<char>, Amount>) -> Option<Amount> {
    match decimal_sum(
        LineItems::value_or_zero(items, "负债合计"@),
        LineItems::value_or_zero(items, "所有者权益合计"@),
    ) {
        Some(claims) => match decimal_difference(
            LineItems::value_or_zero(items, "资产总计"@),
            claims,
        ) {
            Some(difference) => Some(difference.abs_spec()),
            None => None,
        },
        None => None,
    }
}

/// The text that reports an imbalance.
pub open spec fn imbalance_message(items: Map<Seq<char>, Amount>, difference: Amount) -> Seq<
    char,
> {
    "不平衡: 资产("@ + decimal_text(LineItems::value_or_zero(items, "资产总计"@)) + ") ≠ 负债("@
        + decimal_text(LineItems::value_or_zero(items, "负债合计"@)) + ") + 权益("@ + decimal_text(
        LineItems::value_or_zero(items, "所有者权益合计"@),
    ) + "), 差异: "@ + decimal_text(difference)
}

/// The error of a balance sheet against the accounting equation, if it has
/// one: assets differ from liabilities and equity by more than the tolerance,
/// or the difference does not fit.
pub open spec fn accounting_error(items: Map<Seq<char>, Amount>) -> Option<ErrorView> {
    match imbalance(items) {
        Some(difference) => if tolerance().lt_value(difference) {
            Some(
                ErrorView {
                    field: "会计恒等式"@,
                    rule: "资产 = 负债 + 所有者权益"@,
                    message: imbalance_message(items, difference),
                    severity: Severity::Critical,
                },
            )
        } else {
            None
        },
        None => Some(
            ErrorView {
                field: "会计恒等式"@,
                rule: "资产 = 负债 + 所有者权益"@,
                message: "数值溢出，无法核对"@,
                severity: Severity::Critical,
            },
        ),
    }
}

/// The error for a required account that is absent.
pub open spec fn missing_error(account: Seq<char>) -> ErrorView {
    ErrorView {
        field: account,
        rule: "必需科目"@,
        message: "缺少必需科目: "@ + account,
        severity: Severity::High,
    }
}

/// The errors for those of the first `n` required accounts that are absent,
/// in order.
pub open spec fn missing_errors(
    required: Seq<String>,
    items: Map<Seq<char>, Amount>,
    n: nat,
) -> Seq<ErrorView>
    decreases n,
{
    if n == 0 {
        Seq::empty()
    } else {
        let before = missing_errors(required, items, (n - 1) as nat);
        if n <= required.len() && !items.contains_key(required[n - 1]@) {
            before.push(missing_error(required[n - 1]@))
        } else {
            before
        }
    }
}

/// The error for an amount that is negative though its account allows none.
pub open spec fn negative_error(entry: LineItem) -> ErrorView {
    ErrorView {
        field: entry.name@,
        rule: "非负约束"@,
        message: entry.name@ + " 不应为负值: "@ + decimal_text(entry.amount),
        severity: Severity::High,
    }
}

/// The error for an amount that is larger than is plausible.
pub open spec fn large_error(entry: LineItem) -> ErrorView {
    ErrorView {
        field: entry.name@,
        rule: "数值范围"@,
        message: entry.name@ + " 数值异常大: "@ + decimal_text(entry.amount),
        severity: Severity::Medium,
    }
}

/// The errors of one line item: first for a negative amount that its account
/// does not allow, then for an implausibly large one.
pub open spec fn entry_errors(rules: ValidationRules, entry: LineItem) -> Seq<ErrorView> {
    let negative = if entry.amount.lt_value(Amount::zero_spec())
        && !rules.allow_negative.allows_spec(entry.name@) {
        seq![negative_error(entry)]
    } else {
        Seq::empty()
    };
    let large = if largest_plausible().lt_value(entry.amount.abs_spec()) {
        seq![large_error(entry)]
    } else {
        Seq::empty()
    };
    negative + large
}

/// The errors of the first `n` line items, in order.
pub open spec fn range_errors(rules: ValidationRules, entries: Seq<LineItem>, n: nat) -> Seq<
    ErrorView,
>
    decreases n,
{
    if n == 0 {
        Seq::empty()
    } else {
        let before = range_errors(rules, entries, (n - 1) as nat);
        if n <= entries.len() {
            before + entry_errors(rules, entries[n - 1])
        } else {
            before
        }
    }
}

/// What a finding of a severity takes off the reliability score.
pub open spec fn penalty(severity: Severity) -> int {
    match severity {
        Severity::Critical => 50,
        Severity::High => 20,
        Severity::Medium => 10,
        Severity::Low => 5,
    }
}

/// What a list of errors takes off the reliability score.
pub open spec fn total_penalty(errors: Seq<ErrorView>) -> int
    decreases errors.len(),
{
    if errors.len() == 0 {
        0
    } else {
        total_penalty(errors.drop_last()) + penalty(errors.last().severity)
    }
}

/// The reliability score: 100 less the penalties of the errors and 2 for each
/// warning, and 0 where that is negative.
pub open spec fn reliability(errors: Seq<ErrorView>, warnings: nat) -> int {
    let score = 100 - total_penalty(errors) - 2 * warnings;
    if score < 0 {
        0
    } else {
        score
    }
}

/// None of the errors is critical.
pub open spec fn none_critical(errors: Seq<ErrorView>) -> bool {
    forall|i: int| 0 <= i < errors.len() ==> (#[trigger] errors[i]).severity != Severity::Critical
}

/// The errors of a balance sheet under a set of rules: against the accounting
/// equation, then for absent accounts, then for implausible values.
pub open spec fn balance_sheet_errors(rules: ValidationRules, sheet: BalanceSheet) -> Seq<
    ErrorView,
> {
    let items = sheet.statement.items@;
    (match accounting_error(items) {
        Some(e) => seq![e],
        None => Seq::empty(),
    }) + missing_errors(
        rules.required_accounts.balance_sheet@,
        items,
        rules.required_accounts.balance_sheet@.len(),
    ) + range_errors(
        rules,
        sheet.statement.items.entries(),
        sheet.statement.items.entries().len(),
    )
}

/// The warning about the gross margin of an income statement, if it deserves
/// one: the margin lies outside its plausible range, or cannot be computed.
/// Without revenue there is no margin and no warning.
pub open spec fn margin_warning(rules: ValidationRules, statement: IncomeStatement) -> Option<
    WarningView,
> {
    if statement.revenue.is_zero_spec() {
        None
    } else {
        match decimal_quotient(statement.gross_profit, statement.revenue) {
            Some(margin) => if rules.ratio_ranges.gross_margin.excludes_spec(margin) {
                Some(
                    WarningView {
                        field: "毛利率"@,
                        message: "毛利率 "@ + decimal_text(margin) + " 超出合理范围"@,
                    },
                )
            } else {
                None
            },
            None => Some(WarningView { field: "毛利率"@, message: "毛利率无法计算"@ }),
        }
    }
}

/// The views of two lists of errors, one after the other, are the views of
/// the joined list.
proof fn lemma_error_views_add(a: Seq<ValidationError>, b: Seq<ValidationError>)
    ensures
        error_views(a + b) == error_views(a) + error_views(b),
{
    assert(error_views(a + b) =~= error_views(a) + error_views(b));
}

/// The penalty of a list with one more error.
proof fn lemma_total_penalty_push(errors: Seq<ErrorView>, e: ErrorView)
    ensures
        total_penalty(errors.push(e)) == total_penalty(errors) + penalty(e.severity),
{
    assert(errors.push(e).drop_last() =~= errors);
}

/// Validates statements against a set of rules.
#[derive(Debug, Clone)]
pub struct DataValidator {
    rules: ValidationRules,
}

impl DataValidator {
    /// The rules that the validator applies.
    pub closed spec fn rules(&self) -> ValidationRules {
        self.rules
    }

    pub fn new(rules: ValidationRules) -> (r: Self)
        ensures
            r.rules() == rules,
    {
        DataValidator { rules }
    }

    /// Validates a balance sheet: the accounting equation, the required
    /// accounts and the plausibility of each amount. The sheet is valid unless
    /// one of the errors is critical.
    pub fn validate_balance_sheet(&self, bs: &BalanceSheet) -> (r: ValidationResult)
        ensures
            error_views(r.errors@) == balance_sheet_errors(self.rules(), *bs),
            r.warnings@.len() == 0,
            r.is_valid == none_critical(error_views(r.errors@)),
            r.reliability_score == reliability(error_views(r.errors@), 0),
    {
        let mut errors: Vec<ValidationError> = Vec::new();
        match self.check_accounting_equation(bs) {
            Ok(_) => {},
            Err(e) => {
                errors.push(e);
            },
        }
        proof {
            assert(error_views(errors@) =~= (match accounting_error(bs.statement.items@) {
                Some(e) => seq![e],
                None => Seq::empty(),
            }));
        }
        let mut missing = self.check_required_accounts_balance(bs);
        proof {
            lemma_error_views_add(errors@, missing@);
        }
        errors.append(&mut missing);
        let mut ranges = self.check_value_ranges(bs);
        proof {
            lemma_error_views_add(errors@, ranges@);
        }
        errors.append(&mut ranges);
        let warnings: Vec<ValidationWarning> = Vec::new();
        let reliability_score = self.calculate_reliability_score(&errors, &warnings);
        let is_valid = DataValidator::has_no_critical(&errors);
        ValidationResult { is_valid, errors, warnings, reliability_score }
    }

    /// Validates an income statement: the required accounts, and the gross
    /// margin against its plausible range. The statement is valid unless one
    /// of the errors is critical.
    pub fn validate_income_statement(&self, statement: &IncomeStatement) -> (r: ValidationResult)
        ensures
            error_views(r.errors@) == missing_errors(
                self.rules().required_accounts.income_statement@,
                statement.statement.items@,
                self.rules().required_accounts.income_statement@.len(),
            ),
            warning_views(r.warnings@) == (match margin_warning(self.rules(), *statement) {
                Some(w) => seq![w],
                None => Seq::empty(),
            }),
            r.is_valid == none_critical(error_views(r.errors@)),
            r.reliability_score == reliability(error_views(r.errors@), r.warnings@.len()),
    {
        let errors = self.check_required_accounts_income(statement);
        let mut warnings: Vec<ValidationWarning> = Vec::new();
        if !statement.revenue.is_zero() {
            match statement.gross_profit.checked_div(statement.revenue) {
                Some(margin) => {
                    if self.rules.ratio_ranges.gross_margin.excludes(margin) {
                        warnings.push(
                            ValidationWarning {
                                field: "毛利率".to_string(),
                                message: "毛利率 ".to_string().concat(
                                    margin.to_text().as_str(),
                                ).concat(" 超出合理范围"),
                            },
                        );
                    }
                },
                None => {
                    warnings.push(
                        ValidationWarning {
                            field: "毛利率".to_string(),
                            message: "毛利率无法计算".to_string(),
                        },
                    );
                },
            }
        }
        proof {
            assert(warning_views(warnings@) =~= (match margin_warning(self.rules(), *statement) {
                Some(w) => seq![w],
                None => Seq::empty(),
            }));
        }
        let reliability_score = self.calculate_reliability_score(&errors, &warnings);
        let is_valid = DataValidator::has_no_critical(&errors);
        ValidationResult { is_valid, errors, warnings, reliability_score }
    }

    /// Whether none of the errors is critical.
    pub fn has_no_critical(errors: &Vec<ValidationError>) -> (r: bool)
        ensures
            r == none_critical(error_views(errors@)),
    {
        let mut i: usize = 0;
        while i < errors.len()
            invariant
                i <= errors@.len(),
                forall|j: int|
                    0 <= j < i ==> (#[trigger] error_views(errors@)[j]).severity
                        != Severity::Critical,
            decreases errors@.len() - i,
        {
            if errors[i].severity == Severity::Critical {
                proof {
                    assert(error_views(errors@)[i as int].severity == Severity::Critical);
                }
                return false;
            }
            i += 1;
        }
        true
    }

    /// Checks the accounting equation: assets are liabilities and equity, up
    /// to the tolerance.
    pub fn check_accounting_equation(&self, bs: &BalanceSheet) -> (r: Result<(), ValidationError>)
        ensures
            match r {
                Ok(_) => accounting_error(bs.statement.items@) is None,
                Err(e) => accounting_error(bs.statement.items@) == Some(e@),
            },
    {
        let total_assets = bs.statement.items.get_or_zero("资产总计");
        let total_liabilities = bs.statement.items.get_or_zero("负债合计");
        let total_equity = bs.statement.items.get_or_zero("所有者权益合计");
        let difference = match total_liabilities.checked_add(total_equity) {
            Some(claims) => total_assets.checked_sub(claims),
            None => None,
        };
        match difference {
            Some(d) => {
                let diff = d.abs();
                if diff.greater_than(&Amount::new(1000, 0)) {
                    let message = "不平衡: 资产(".to_string().concat(
                        total_assets.to_text().as_str(),
                    ).concat(") ≠ 负债(").concat(total_liabilities.to_text().as_str()).concat(
                        ") + 权益(",
                    ).concat(total_equity.to_text().as_str()).concat("), 差异: ").concat(
                        diff.to_text().as_str(),
                    );
                    Err(
                        ValidationError {
                            field: "会计恒等式".to_string(),
                            rule: "资产 = 负债 + 所有者权益".to_string(),
                            message,
                            severity: Severity::Critical,
                        },
                    )
                } else {
                    Ok(())
                }
            },
            None => Err(
                ValidationError {
                    field: "会计恒等式".to_string(),
                    rule: "资产 = 负债 + 所有者权益".to_string(),
                    message: "数值溢出，无法核对".to_string(),
                    severity: Severity::Critical,
                },
            ),
        }
    }

    fn check_required_accounts(required: &Vec<String>, items: &LineItems) -> (r: Vec<
        ValidationError,
    >)
        ensures
            error_views(r@) == missing_errors(required@, items@, required@.len()),
    {
        let mut errors: Vec<ValidationError> = Vec::new();
        let mut i: usize = 0;
        proof {
            assert(error_views(errors@) =~= missing_errors(required@, items@, 0));
        }
        while i < required.len()
            invariant
                i <= required@.len(),
                error_views(errors@) == missing_errors(required@, items@, i as nat),
            decreases required@.len() - i,
        {
            let account = &required[i];
            if !items.contains_key(account.as_str()) {
                let ghost before = errors@;
                errors.push(
                    ValidationError {
                        field: account.clone(),
                        rule: "必需科目".to_string(),
                        message: "缺少必需科目: ".to_string().concat(account.as_str()),
                        severity: Severity::High,
                    },
                );
                proof {
                    assert(error_views(errors@) =~= error_views(before).push(
                        missing_error(account@),
                    ));
                }
            }
            i += 1;
        }
        errors
    }

    /// An error for each account that a balance sheet must have and has not.
    pub fn check_required_accounts_balance(&self, bs: &BalanceSheet) -> (r: Vec<ValidationError>)
        ensures
            error_views(r@) == missing_errors(
                self.rules().required_accounts.balance_sheet@,
                bs.statement.items@,
                self.rules().required_accounts.balance_sheet@.len(),
            ),
    {
        DataValidator::check_required_accounts(
            &self.rules.required_accounts.balance_sheet,
            &bs.statement.items,
        )
    }

    /// An error for each account that an income statement must have and has
    /// not.
    pub fn check_required_accounts_income(&self, statement: &IncomeStatement) -> (r: Vec<
        ValidationError,
    >)
        ensures
            error_views(r@) == missing_errors(
                self.rules().required_accounts.income_statement@,
                statement.statement.items@,
                self.rules().required_accounts.income_statement@.len(),
            ),
    {
        DataValidator::check_required_accounts(
            &self.rules.required_accounts.income_statement,
            &statement.statement.items,
        )
    }

    /// The errors of each line item of a balance sheet, in the order of the
    /// line items: a negative amount that its account does not allow, an
    /// amount that is larger than is plausible.
    pub fn check_value_ranges(&self, bs: &BalanceSheet) -> (r: Vec<ValidationError>)
        ensures
            error_views(r@) == range_errors(
                self.rules(),
                bs.statement.items.entries(),
                bs.statement.items.entries().len(),
            ),
    {
        let items = &bs.statement.items;
        let mut errors: Vec<ValidationError> = Vec::new();
        let mut i: usize = 0;
        proof {
            assert(error_views(errors@) =~= range_errors(self.rules(), items.entries(), 0));
        }
        while i < items.len()
            invariant
                i <= items.entries().len(),
                error_views(errors@) == range_errors(self.rules(), items.entries(), i as nat),
            decreases items.entries().len() - i,
        {
            let entry = items.entry(i);
            let ghost before = error_views(errors@);
            let ghost mut found = Seq::<ErrorView>::empty();
            if entry.amount.less_than(&Amount::zero()) && !self.rules.allow_negative.allows(
                entry.name.as_str(),
            ) {
                let ghost old_errors = errors@;
                errors.push(
                    ValidationError {
                        field: entry.name.clone(),
                        rule: "非负约束".to_string(),
                        message: entry.name.clone().concat(" 不应为负值: ").concat(
                            entry.amount.to_text().as_str(),
                        ),
                        severity: Severity::High,
                    },
                );
                proof {
                    found = seq![negative_error(*entry)];
                    assert(error_views(errors@) =~= before + found);
                }
            }
            proof {
                assert(error_views(errors@) =~= before + found);
            }
            if entry.amount.abs().greater_than(&Amount::new(1_000_000_000_000, 0)) {
                errors.push(
                    ValidationError {
                        field: entry.name.clone(),
                        rule: "数值范围".to_string(),
                        message: entry.name.clone().concat(" 数值异常大: ").concat(
                            entry.amount.to_text().as_str(),
                        ),
                        severity: Severity::Medium,
                    },
                );
                proof {
                    assert(error_views(errors@) =~= before + (found + seq![large_error(*entry)]));
                }
            } else {
                proof {
                    assert(error_views(errors@) =~= before + (found + Seq::<ErrorView>::empty()));
                }
            }
            i += 1;
        }
        errors
    }

    /// The reliability score of a list of findings.
    pub fn calculate_reliability_score(
        &self,
        errors: &Vec<ValidationError>,
        warnings: &Vec<ValidationWarning>,
    ) -> (r: u32)
        ensures
            r == reliability(error_views(errors@), warnings@.len()),
    {
        let ghost views = error_views(errors@);
        let mut score: u32 = 100;
        let mut i: usize = 0;
        proof {
            assert(views.take(0) =~= Seq::<ErrorView>::empty());
        }
        while i < errors.len()
            invariant
                i <= errors@.len(),
                views == error_views(errors@),
                0 <= total_penalty(views.take(i as int)),
                score <= 100,
                score == (if 100 - total_penalty(views.take(i as int)) < 0 {
                    0
                } else {
                    100 - total_penalty(views.take(i as int))
                }),
            decreases errors@.len() - i,
        {
            let p: u32 = match errors[i].severity {
                Severity::Critical => 50,
                Severity::High => 20,
                Severity::Medium => 10,
                Severity::Low => 5,
            };
            proof {
                assert(views.take(i + 1) =~= views.take(i as int).push(views[i as int]));
                lemma_total_penalty_push(views.take(i as int), views[i as int]);
            }
            score = if score >= p {
                score - p
            } else {
                0
            };
            i += 1;
        }
        proof {
            assert(views.take(i as int) =~= views);
        }
        if warnings.len() >= 50 {
            0
        } else {
            let w: u32 = 2 * (warnings.len() as u32);
            if score >= w {
                score - w
            } else {
                0
            }
        }
    }
}

} // verus!
