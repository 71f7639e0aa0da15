use financial_analyzer::decimal::Amount;
use financial_analyzer::domain::{FinancialStatement, LineItems, ReportDate, ReportType};
use financial_analyzer::excel::{DataHelper, IndicatorDescriptions};
use financial_analyzer::AnalyzerError;

fn statement(kind: ReportType, year: i32, name: &str, amount: i64) -> FinancialStatement {
    let mut items = LineItems::new();
    items.insert(name.to_string(), Amount::new(amount, 0));
    FinancialStatement {
        stock_code: "600519.SH".to_string(),
        report_date: ReportDate::year_end(year),
        report_type: kind,
        items,
    }
}

fn statements() -> Vec<FinancialStatement> {
    vec![
        statement(ReportType::BalanceSheet, 2023, "货币资金", 10),
        statement(ReportType::IncomeStatement, 2023, "净利润", 20),
        statement(ReportType::BalanceSheet, 2022, "货币资金", 30),
        statement(ReportType::CashflowStatement, 2023, "经营活动产生的现金流量净额", 40),
        statement(ReportType::IncomeStatement, 2022, "净利润", 50),
        statement(ReportType::BalanceSheet, 2021, "存货", 60),
    ]
}

#[test]
fn indicator_descriptions_lookup() {
    let descriptions = IndicatorDescriptions::new();
    assert_eq!(descriptions.get("货币资金"), "企业可随时支配的现金");
    assert_eq!(descriptions.get("营业收入"), "主营业务收入");
    assert_eq!(descriptions.get("营业总收入"), "主营业务收入");
    assert_eq!(descriptions.get("自由现金流"), "经营现金流-资本支出");
    assert_eq!(descriptions.get("ROE"), "股东回报率");
    assert_eq!(descriptions.get("经营杠杆DOL"), ">1表示正向放大");
    assert_eq!(descriptions.get("唐朝高估价"), "乐观卖出价");
    assert_eq!(descriptions.get("不存在"), "");
    assert_eq!(descriptions.get(""), "");
    assert_eq!(descriptions.get("roe"), "");
}

#[test]
fn data_helper_counts_statements_by_kind() {
    let all = statements();
    let data = DataHelper::new(&all);
    assert_eq!(data.get_balance(0, "货币资金"), Amount::new(10, 0));
    assert_eq!(data.get_balance(1, "货币资金"), Amount::new(30, 0));
    assert!(data.get_balance(2, "货币资金").is_zero());
    assert_eq!(data.get_balance(2, "存货"), Amount::new(60, 0));
    assert!(data.get_balance(3, "存货").is_zero());
    assert_eq!(data.get_income(0, "净利润"), Amount::new(20, 0));
    assert_eq!(data.get_income(1, "净利润"), Amount::new(50, 0));
    assert!(data.get_income(2, "净利润").is_zero());
    assert_eq!(data.get_cashflow(0, "经营活动产生的现金流量净额"), Amount::new(40, 0));
    assert!(data.get_cashflow(1, "经营活动产生的现金流量净额").is_zero());
}

#[test]
fn data_helper_tells_absent_from_zero() {
    let all = statements();
    let data = DataHelper::new(&all);
    assert_eq!(data.get_balance_opt(0, "货币资金"), Some(Amount::new(10, 0)));
    assert_eq!(data.get_balance_opt(0, "存货"), None);
    assert_eq!(data.get_balance_opt(5, "货币资金"), None);
    assert_eq!(data.get_income_opt(1, "净利润"), Some(Amount::new(50, 0)));
    assert_eq!(data.get_income_opt(1, "营业收入"), None);
    assert_eq!(data.get_cashflow_opt(0, "经营活动产生的现金流量净额"), Some(Amount::new(40, 0)));
    assert_eq!(data.get_cashflow_opt(1, "经营活动产生的现金流量净额"), None);
    assert_eq!(data.get(ReportType::IncomeStatement, 0, "净利润"), Some(Amount::new(20, 0)));
    let none = DataHelper::new(&[]);
    assert_eq!(none.get_balance_opt(0, "货币资金"), None);
    assert!(none.get_income(0, "净利润").is_zero());
}

#[test]
fn errors_describe_themselves() {
    assert_eq!(AnalyzerError::DataSource("超时".to_string()).describe(), "数据源错误: 超时");
    assert_eq!(AnalyzerError::Validation("不平衡".to_string()).describe(), "验证错误: 不平衡");
    assert_eq!(AnalyzerError::Calculation("溢出".to_string()).describe(), "计算错误: 溢出");
    assert_eq!(AnalyzerError::Excel("x".to_string()).describe(), "Excel生成错误: x");
    assert_eq!(AnalyzerError::Config("y".to_string()).describe(), "配置错误: y");
    assert_eq!(AnalyzerError::Parameter("z".to_string()).describe(), "参数错误: z");
    assert_eq!(AnalyzerError::Other("".to_string()).describe(), "错误: ");
    let io = std::io::Error::new(std::io::ErrorKind::NotFound, "no such file");
    assert_eq!(AnalyzerError::Io(io).describe(), "IO错误: no such file");
}

#[test]
fn errors_come_from_outside_errors() {
    let io = std::io::Error::new(std::io::ErrorKind::NotFound, "gone");
    assert!(matches!(AnalyzerError::from(io), AnalyzerError::Io(_)));
    let xlsx = rust_xlsxwriter::XlsxError::ParameterError("bad column".to_string());
    let text = xlsx.to_string();
    match AnalyzerError::from(xlsx) {
        AnalyzerError::Excel(m) => assert_eq!(m, text),
        other => panic!("{:?}", other),
    }
    let toml_error = toml::from_str::<toml::Value>("a = ").unwrap_err();
    let text = toml_error.to_string();
    match AnalyzerError::from(toml_error) {
        AnalyzerError::Config(m) => assert_eq!(m, text),
        other => panic!("{:?}", other),
    }
}
