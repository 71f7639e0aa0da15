use financial_analyzer::decimal::Amount;
use financial_analyzer::domain::{
    AssetGroup, BalanceSheet, FinancialStatement, IncomeStatement, LiabilityGroup, LineItems,
    ReportDate, ReportType,
};
use financial_analyzer::utils::{
    AccountMapping, AllowNegative, RangeLimit, RatioRanges, RequiredAccounts, ValidationRules,
    YoyThresholds,
};
use financial_analyzer::validation::{
    DataValidator, Severity, ValidationError, ValidationWarning,
};

fn rules() -> ValidationRules {
    let range = RangeLimit { min: Amount::zero(), max: Amount::one() };
    ValidationRules {
        allow_negative: AllowNegative { accounts: vec!["财务费用".to_string()] },
        required_accounts: RequiredAccounts {
            balance_sheet: vec!["资产总计".to_string(), "负债合计".to_string()],
            income_statement: vec!["营业收入".to_string(), "净利润".to_string()],
            cashflow_statement: vec![],
        },
        ratio_ranges: RatioRanges {
            current_ratio: range,
            debt_to_asset: range,
            gross_margin: RangeLimit { min: Amount::new(-5, 1), max: Amount::new(9, 1) },
            roe: range,
        },
        yoy_thresholds: YoyThresholds {
            revenue_change: Amount::new(5, 1),
            profit_change: Amount::new(5, 1),
            asset_change: Amount::new(5, 1),
        },
    }
}

fn sheet(entries: &[(&str, Amount)]) -> BalanceSheet {
    let mut items = LineItems::new();
    for (name, amount) in entries {
        items.insert(name.to_string(), *amount);
    }
    BalanceSheet {
        statement: FinancialStatement {
            stock_code: "600519.SH".to_string(),
            report_date: ReportDate::year_end(2023),
            report_type: ReportType::BalanceSheet,
            items,
        },
        operating_assets: AssetGroup::new(),
        financial_assets: AssetGroup::new(),
        operating_liabilities: LiabilityGroup::new(),
        financial_liabilities: LiabilityGroup::new(),
    }
}

fn income(entries: &[(&str, Amount)], revenue: i64, gross: i64) -> IncomeStatement {
    let mut items = LineItems::new();
    for (name, amount) in entries {
        items.insert(name.to_string(), *amount);
    }
    IncomeStatement {
        statement: FinancialStatement {
            stock_code: "600519.SH".to_string(),
            report_date: ReportDate::year_end(2023),
            report_type: ReportType::IncomeStatement,
            items,
        },
        revenue: Amount::new(revenue, 0),
        operating_cost: Amount::new(revenue - gross, 0),
        gross_profit: Amount::new(gross, 0),
        core_profit: Amount::zero(),
        net_profit: Amount::zero(),
    }
}

fn error(severity: Severity) -> ValidationError {
    ValidationError {
        field: "f".to_string(),
        rule: "r".to_string(),
        message: "m".to_string(),
        severity,
    }
}

fn warning() -> ValidationWarning {
    ValidationWarning { field: "f".to_string(), message: "m".to_string() }
}

#[test]
fn test_validator_creation() {
    let validator = DataValidator::new(rules());
    let result = validator.validate_balance_sheet(&sheet(&[
        ("资产总计", Amount::new(4_000_000, 0)),
        ("负债合计", Amount::new(1_500_000, 0)),
        ("所有者权益合计", Amount::new(2_500_000, 0)),
    ]));
    assert!(result.is_valid);
    assert!(true);
}

#[test]
fn balanced_sheet_has_no_findings() {
    let validator = DataValidator::new(rules());
    let result = validator.validate_balance_sheet(&sheet(&[
        ("资产总计", Amount::new(4_000_000, 0)),
        ("负债合计", Amount::new(1_500_000, 0)),
        ("所有者权益合计", Amount::new(2_499_000, 0)),
    ]));
    // A difference of exactly the tolerance passes.
    assert!(result.is_valid);
    assert!(result.errors.is_empty());
    assert!(result.warnings.is_empty());
    assert_eq!(result.reliability_score, 100);
}

#[test]
fn unbalanced_sheet_is_invalid() {
    let validator = DataValidator::new(rules());
    let s = sheet(&[
        ("资产总计", Amount::new(4_000_000, 0)),
        ("负债合计", Amount::new(1_500_000, 0)),
        ("所有者权益合计", Amount::new(2_498_999, 0)),
    ]);
    let e = validator.check_accounting_equation(&s).unwrap_err();
    assert_eq!(e.field, "会计恒等式");
    assert_eq!(e.rule, "资产 = 负债 + 所有者权益");
    assert_eq!(e.message, "不平衡: 资产(4000000) ≠ 负债(1500000) + 权益(2498999), 差异: 1001");
    assert_eq!(e.severity, Severity::Critical);
    let result = validator.validate_balance_sheet(&s);
    assert!(!result.is_valid);
    assert_eq!(result.errors.len(), 1);
    assert_eq!(result.errors[0].severity, Severity::Critical);
    assert_eq!(result.reliability_score, 50);
    // The same the other way round.
    let more = sheet(&[
        ("资产总计", Amount::new(1, 0)),
        ("负债合计", Amount::new(1_500_000, 0)),
    ]);
    let e = validator.check_accounting_equation(&more).unwrap_err();
    assert_eq!(e.message, "不平衡: 资产(1) ≠ 负债(1500000) + 权益(0), 差异: 1499999");
}

#[test]
fn accounting_equation_reports_an_overflow() {
    let validator = DataValidator::new(rules());
    let huge = Amount::from_parts(0xFFFF_FFFF_FFFF_FFFF_FFFF_FFFF, 0).unwrap();
    let s = sheet(&[("负债合计", huge), ("所有者权益合计", huge)]);
    let e = validator.check_accounting_equation(&s).unwrap_err();
    assert_eq!(e.field, "会计恒等式");
    assert_eq!(e.message, "数值溢出，无法核对");
    assert_eq!(e.severity, Severity::Critical);
}

#[test]
fn missing_accounts_are_reported_in_order() {
    let validator = DataValidator::new(rules());
    let s = sheet(&[("货币资金", Amount::new(1, 0))]);
    let errors = validator.check_required_accounts_balance(&s);
    assert_eq!(errors.len(), 2);
    assert_eq!(errors[0].field, "资产总计");
    assert_eq!(errors[0].rule, "必需科目");
    assert_eq!(errors[0].message, "缺少必需科目: 资产总计");
    assert_eq!(errors[0].severity, Severity::High);
    assert_eq!(errors[1].field, "负债合计");
    let result = validator.validate_balance_sheet(&s);
    assert!(result.is_valid);
    assert_eq!(result.errors.len(), 2);
    assert_eq!(result.reliability_score, 60);
    let one = sheet(&[("负债合计", Amount::new(1, 0))]);
    let errors = validator.check_required_accounts_balance(&one);
    assert_eq!(errors.len(), 1);
    assert_eq!(errors[0].field, "资产总计");
}

#[test]
fn implausible_values_are_reported() {
    let validator = DataValidator::new(rules());
    let s = sheet(&[
        ("货币资金", Amount::new(-5, 0)),
        ("财务费用", Amount::new(-7, 0)),
        ("存货", Amount::new(1_000_000_000_001, 0)),
        ("固定资产", Amount::new(1_000_000_000_000, 0)),
        ("应付账款", Amount::new(-2_000_000_000_000, 0)),
    ]);
    let errors = validator.check_value_ranges(&s);
    assert_eq!(errors.len(), 4);
    assert_eq!(errors[0].field, "货币资金");
    assert_eq!(errors[0].rule, "非负约束");
    assert_eq!(errors[0].message, "货币资金 不应为负值: -5");
    assert_eq!(errors[0].severity, Severity::High);
    assert_eq!(errors[1].field, "存货");
    assert_eq!(errors[1].rule, "数值范围");
    assert_eq!(errors[1].message, "存货 数值异常大: 1000000000001");
    assert_eq!(errors[1].severity, Severity::Medium);
    assert_eq!(errors[2].field, "应付账款");
    assert_eq!(errors[2].rule, "非负约束");
    assert_eq!(errors[3].field, "应付账款");
    assert_eq!(errors[3].rule, "数值范围");
    assert_eq!(errors[3].message, "应付账款 数值异常大: -2000000000000");
}

#[test]
fn balance_sheet_errors_come_in_three_groups() {
    let validator = DataValidator::new(rules());
    let s = sheet(&[
        ("资产总计", Amount::new(4_000_000, 0)),
        ("货币资金", Amount::new(-5, 0)),
    ]);
    let result = validator.validate_balance_sheet(&s);
    assert_eq!(result.errors.len(), 3);
    assert_eq!(result.errors[0].field, "会计恒等式");
    assert_eq!(result.errors[1].field, "负债合计");
    assert_eq!(result.errors[2].field, "货币资金");
    assert!(!result.is_valid);
    assert_eq!(result.reliability_score, 10);
}

#[test]
fn income_statement_with_plausible_margin() {
    let validator = DataValidator::new(rules());
    let result = validator.validate_income_statement(&income(
        &[("营业收入", Amount::new(100, 0)), ("净利润", Amount::new(10, 0))],
        100,
        40,
    ));
    assert!(result.is_valid);
    assert!(result.errors.is_empty());
    assert!(result.warnings.is_empty());
    assert_eq!(result.reliability_score, 100);
}

#[test]
fn income_statement_with_implausible_margin() {
    let validator = DataValidator::new(rules());
    let high = validator.validate_income_statement(&income(&[], 100, 95));
    assert!(high.is_valid);
    assert_eq!(high.errors.len(), 2);
    assert_eq!(high.errors[0].field, "营业收入");
    assert_eq!(high.errors[1].field, "净利润");
    assert_eq!(high.warnings.len(), 1);
    assert_eq!(high.warnings[0].field, "毛利率");
    assert_eq!(high.warnings[0].message, "毛利率 0.95 超出合理范围");
    assert_eq!(high.reliability_score, 58);
    let low = validator.validate_income_statement(&income(&[], 100, -60));
    assert_eq!(low.warnings.len(), 1);
    assert_eq!(low.warnings[0].message, "毛利率 -0.60 超出合理范围");
    // The ends of the range are within it.
    let at_max = validator.validate_income_statement(&income(&[], 100, 90));
    assert!(at_max.warnings.is_empty());
    let at_min = validator.validate_income_statement(&income(&[], 100, -50));
    assert!(at_min.warnings.is_empty());
    // Without revenue there is no margin.
    let none = validator.validate_income_statement(&income(&[], 0, 95));
    assert!(none.warnings.is_empty());
}

#[test]
fn income_statement_whose_margin_overflows() {
    let validator = DataValidator::new(rules());
    let mut statement = income(&[], 1, 1);
    statement.revenue = Amount::new(1, 28);
    statement.gross_profit = Amount::from_parts(0xFFFF_FFFF_FFFF_FFFF_FFFF_FFFF, 0).unwrap();
    let result = validator.validate_income_statement(&statement);
    assert_eq!(result.warnings.len(), 1);
    assert_eq!(result.warnings[0].field, "毛利率");
    assert_eq!(result.warnings[0].message, "毛利率无法计算");
}

#[test]
fn reliability_score_takes_penalties_off_a_hundred() {
    let validator = DataValidator::new(rules());
    assert_eq!(validator.calculate_reliability_score(&vec![], &vec![]), 100);
    assert_eq!(validator.calculate_reliability_score(&vec![error(Severity::Critical)], &vec![]), 50);
    assert_eq!(validator.calculate_reliability_score(&vec![error(Severity::High)], &vec![]), 80);
    assert_eq!(validator.calculate_reliability_score(&vec![error(Severity::Medium)], &vec![]), 90);
    assert_eq!(validator.calculate_reliability_score(&vec![error(Severity::Low)], &vec![]), 95);
    assert_eq!(
        validator.calculate_reliability_score(
            &vec![error(Severity::High), error(Severity::Low)],
            &vec![warning(), warning(), warning()]
        ),
        69
    );
    assert_eq!(
        validator.calculate_reliability_score(
            &vec![error(Severity::Critical), error(Severity::Critical), error(Severity::Low)],
            &vec![]
        ),
        0
    );
    let many: Vec<ValidationWarning> = (0..60).map(|_| warning()).collect();
    assert_eq!(validator.calculate_reliability_score(&vec![], &many), 0);
    let some: Vec<ValidationWarning> = (0..49).map(|_| warning()).collect();
    assert_eq!(validator.calculate_reliability_score(&vec![], &some), 2);
}

#[test]
fn validity_depends_on_critical_errors_only() {
    assert!(DataValidator::has_no_critical(&vec![]));
    assert!(DataValidator::has_no_critical(&vec![error(Severity::High), error(Severity::Low)]));
    assert!(!DataValidator::has_no_critical(&vec![error(Severity::High), error(Severity::Critical)]));
}

#[test]
fn allow_negative_looks_the_account_up() {
    let allow = AllowNegative { accounts: vec!["财务费用".to_string(), "投资收益".to_string()] };
    assert!(allow.allows("财务费用"));
    assert!(allow.allows("投资收益"));
    assert!(!allow.allows("存货"));
    assert!(!allow.allows(""));
    assert!(!AllowNegative { accounts: vec![] }.allows("财务费用"));
}

#[test]
fn range_limit_excludes_what_lies_outside() {
    let range = RangeLimit { min: Amount::new(-5, 1), max: Amount::new(9, 1) };
    assert!(!range.excludes(Amount::zero()));
    assert!(!range.excludes(Amount::new(-50, 2)));
    assert!(!range.excludes(Amount::new(90, 2)));
    assert!(range.excludes(Amount::new(-51, 2)));
    assert!(range.excludes(Amount::new(91, 2)));
}

#[test]
fn default_paths_of_the_configuration() {
    assert_eq!(AccountMapping::default_path(), "config/account_mapping.toml");
    assert_eq!(ValidationRules::default_path(), "config/validation_rules.toml");
}
