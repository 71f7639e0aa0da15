use financial_analyzer::data_source::tushare::{
    parse_balance_sheet, parse_cashflow_statement, parse_income_statement, Cell, TushareData,
};
use financial_analyzer::data_source::{AkshareClient, MockDataSource};
use financial_analyzer::decimal::Amount;
use financial_analyzer::domain::{FinancialStatement, LineItems, ReportDate, ReportType};
use financial_analyzer::AnalyzerError;

fn statement_with(kind: ReportType, entries: &[(&str, Amount)]) -> FinancialStatement {
    let mut items = LineItems::new();
    for (name, amount) in entries {
        items.insert(name.to_string(), *amount);
    }
    FinancialStatement {
        stock_code: "000001.SZ".to_string(),
        report_date: ReportDate::year_end(2023),
        report_type: kind,
        items,
    }
}

fn table(rows: Vec<Vec<Cell>>) -> TushareData {
    TushareData {
        fields: vec![
            "ts_code".to_string(),
            "end_date".to_string(),
            "revenue".to_string(),
            "oper_cost".to_string(),
            "n_income".to_string(),
        ],
        items: rows,
    }
}

fn row(date: &str, revenue: i64, cost: i64, income: i64) -> Vec<Cell> {
    vec![
        Cell::Text("000001.SZ".to_string()),
        Cell::Text(date.to_string()),
        Cell::Number(Amount::new(revenue, 0)),
        Cell::Number(Amount::new(cost, 0)),
        Cell::Number(Amount::new(income, 0)),
    ]
}

#[test]
fn mock_source_creation() {
    let source = MockDataSource::new();
    assert_eq!(source.name(), "mock");
}

#[test]
fn mock_balance_sheet_is_fixed() {
    let source = MockDataSource::new();
    let sheet = source.create_mock_balance_sheet("600519.SH", ReportDate::year_end(2023));
    assert_eq!(sheet.statement.stock_code, "600519.SH");
    assert_eq!(sheet.statement.report_date, ReportDate::year_end(2023));
    assert_eq!(sheet.statement.report_type, ReportType::BalanceSheet);
    assert_eq!(sheet.statement.items.len(), 9);
    assert_eq!(sheet.statement.items.get("资产总计"), Some(Amount::new(4_000_000, 0)));
    assert_eq!(sheet.statement.items.get("负债合计"), Some(Amount::new(1_500_000, 0)));
    assert_eq!(sheet.statement.items.get("所有者权益合计"), Some(Amount::new(2_500_000, 0)));
    assert_eq!(sheet.operating_assets.total, Amount::new(3_800_000, 0));
    assert_eq!(sheet.operating_assets.items.len(), 4);
    assert!(sheet.financial_assets.total.is_zero());
    assert_eq!(sheet.financial_assets.items.len(), 0);
    assert_eq!(sheet.operating_liabilities.total, Amount::new(400_000, 0));
    assert_eq!(sheet.financial_liabilities.total, Amount::new(600_000, 0));
    assert_eq!(sheet.financial_liabilities.items.get("短期借款"), Some(Amount::new(600_000, 0)));
}

#[test]
fn mock_income_and_cashflow_are_fixed() {
    let source = MockDataSource::new();
    let income = source.create_mock_income_statement("600519.SH", ReportDate::year_end(2022));
    assert_eq!(income.statement.report_type, ReportType::IncomeStatement);
    assert_eq!(income.statement.items.len(), 9);
    assert_eq!(income.statement.items.get("财务费用"), Some(Amount::new(50_000, 0)));
    assert_eq!(income.revenue, Amount::new(5_000_000, 0));
    assert_eq!(income.operating_cost, Amount::new(3_000_000, 0));
    assert_eq!(income.gross_profit, Amount::new(2_000_000, 0));
    assert_eq!(income.core_profit, Amount::new(1_250_000, 0));
    assert_eq!(income.net_profit, Amount::new(1_000_000, 0));
    let cashflow = source.create_mock_cashflow_statement("600519.SH", ReportDate::year_end(2022));
    assert_eq!(cashflow.statement.report_type, ReportType::CashflowStatement);
    assert_eq!(cashflow.statement.items.len(), 1);
    assert_eq!(cashflow.operating_cashflow, Amount::new(900_000, 0));
    assert_eq!(cashflow.investing_cashflow, Amount::new(-200_000, 0));
    assert_eq!(cashflow.financing_cashflow, Amount::new(-100_000, 0));
    assert_eq!(cashflow.free_cashflow, Amount::new(700_000, 0));
}

#[test]
fn mock_dates_step_by_year_ends() {
    let dates = MockDataSource::dates(ReportDate::year_end(2021), ReportDate::year_end(2023));
    assert_eq!(
        dates,
        vec![ReportDate::year_end(2021), ReportDate::year_end(2022), ReportDate::year_end(2023)]
    );
    let odd = MockDataSource::dates(ReportDate::new(2021, 6, 30), ReportDate::new(2023, 6, 30));
    // After the first day comes the last day of the next year.
    assert_eq!(odd, vec![ReportDate::new(2021, 6, 30), ReportDate::year_end(2022)]);
    assert!(MockDataSource::dates(ReportDate::year_end(2023), ReportDate::year_end(2022)).is_empty());
    assert_eq!(
        MockDataSource::dates(ReportDate::year_end(2023), ReportDate::year_end(2023)),
        vec![ReportDate::year_end(2023)]
    );
    let last = MockDataSource::dates(
        ReportDate::new(i32::MAX, 1, 1),
        ReportDate::new(i32::MAX, 12, 31),
    );
    assert_eq!(last, vec![ReportDate::new(i32::MAX, 1, 1)]);
}

#[test]
fn mock_fetch_gives_a_statement_for_each_date() {
    let source = MockDataSource::new();
    let start = ReportDate::year_end(2022);
    let end = ReportDate::year_end(2023);
    let sheets = source.fetch_balance_sheet("600519.SH", start, end);
    let incomes = source.fetch_income_statement("600519.SH", start, end);
    let cashflows = source.fetch_cashflow_statement("600519.SH", start, end);
    assert_eq!(sheets.len(), 2);
    assert_eq!(incomes.len(), 2);
    assert_eq!(cashflows.len(), 2);
    assert_eq!(sheets[0].statement.report_date, start);
    assert_eq!(sheets[1].statement.report_date, end);
    assert_eq!(incomes[1].statement.report_date, end);
    assert_eq!(cashflows[0].statement.report_date, start);
    assert_eq!(incomes[0].net_profit, Amount::new(1_000_000, 0));
    assert_eq!(cashflows[1].free_cashflow, Amount::new(700_000, 0));
    assert!(source.fetch_balance_sheet("600519.SH", end, start).is_empty());
}

#[test]
fn akshare_client_creation() {
    let client = AkshareClient::new();
    assert_eq!(client.python_path(), "python3");
    assert_eq!(client.name(), "akshare");
}

#[test]
fn akshare_converts_stock_codes() {
    let client = AkshareClient::new();
    assert_eq!(client.convert_stock_code("600519.SH"), "600519");
    assert_eq!(client.convert_stock_code("000001"), "000001");
    assert_eq!(client.convert_stock_code(".SH"), "");
    assert_eq!(client.convert_stock_code("a.b.c"), "a");
    assert_eq!(client.convert_stock_code(""), "");
    assert_eq!(client.convert_stock_code("贵州茅台.SH"), "贵州茅台");
}

#[test]
fn akshare_picks_the_exchange() {
    assert_eq!(AkshareClient::sina_symbol("600519"), "sh600519");
    assert_eq!(AkshareClient::sina_symbol("000001"), "sz000001");
    assert_eq!(AkshareClient::sina_symbol("300750"), "sz300750");
    assert_eq!(AkshareClient::sina_symbol(""), "sz");
}

#[test]
fn akshare_reads_both_date_forms() {
    assert_eq!(AkshareClient::report_date("2023-12-31"), Some(ReportDate::year_end(2023)));
    assert_eq!(AkshareClient::report_date("20231231"), Some(ReportDate::year_end(2023)));
    assert_eq!(AkshareClient::report_date("2023-06-30"), Some(ReportDate::new(2023, 6, 30)));
    assert_eq!(AkshareClient::report_date("2023/12/31"), None);
    assert_eq!(AkshareClient::report_date("报告日"), None);
}

#[test]
fn akshare_wants_annual_reports_in_range() {
    let start = ReportDate::year_end(2021);
    let end = ReportDate::year_end(2023);
    assert!(AkshareClient::is_wanted(&ReportDate::year_end(2021), &start, &end));
    assert!(AkshareClient::is_wanted(&ReportDate::year_end(2022), &start, &end));
    assert!(AkshareClient::is_wanted(&ReportDate::year_end(2023), &start, &end));
    assert!(!AkshareClient::is_wanted(&ReportDate::year_end(2020), &start, &end));
    assert!(!AkshareClient::is_wanted(&ReportDate::year_end(2024), &start, &end));
    assert!(!AkshareClient::is_wanted(&ReportDate::new(2022, 6, 30), &start, &end));
    assert!(!AkshareClient::is_wanted(&ReportDate::new(2022, 12, 30), &start, &end));
}

#[test]
fn akshare_builds_statements() {
    let sheet = AkshareClient::balance_sheet(statement_with(
        ReportType::BalanceSheet,
        &[("资产总计", Amount::new(10, 0))],
    ));
    assert_eq!(sheet.statement.items.get("资产总计"), Some(Amount::new(10, 0)));
    assert!(sheet.operating_assets.total.is_zero());
    assert_eq!(sheet.operating_assets.items.len(), 0);
    assert!(sheet.financial_liabilities.total.is_zero());
    let income = AkshareClient::income_statement(&statement_with(
        ReportType::IncomeStatement,
        &[
            ("营业总收入", Amount::new(100, 0)),
            ("营业总成本", Amount::new(80, 0)),
            ("营业成本", Amount::new(60, 0)),
            ("营业利润", Amount::new(15, 0)),
            ("净利润", Amount::new(12, 0)),
        ],
    ))
    .unwrap();
    assert_eq!(income.revenue, Amount::new(100, 0));
    assert_eq!(income.operating_cost, Amount::new(80, 0));
    assert_eq!(income.gross_profit, Amount::new(40, 0));
    assert_eq!(income.core_profit, Amount::new(12, 0));
    assert_eq!(income.net_profit, Amount::new(12, 0));
    let cashflow = AkshareClient::cashflow_statement(&statement_with(
        ReportType::CashflowStatement,
        &[
            ("经营活动产生的现金流量净额", Amount::new(90, 0)),
            ("投资活动产生的现金流量净额", Amount::new(-20, 0)),
            ("购建固定资产、无形资产和其他长期资产支付的现金", Amount::new(30, 0)),
        ],
    ))
    .unwrap();
    assert_eq!(cashflow.operating_cashflow, Amount::new(90, 0));
    assert_eq!(cashflow.investing_cashflow, Amount::new(-20, 0));
    assert!(cashflow.financing_cashflow.is_zero());
    assert_eq!(cashflow.free_cashflow, Amount::new(60, 0));
}

#[test]
fn tushare_parses_balance_sheets() {
    let data = table(vec![row("20231231", 100, 60, 10), row("20221231", 90, 50, 8)]);
    let sheets = parse_balance_sheet(&data, "000001.SZ").unwrap();
    assert_eq!(sheets.len(), 2);
    assert_eq!(sheets[0].statement.report_date, ReportDate::year_end(2023));
    assert_eq!(sheets[1].statement.report_date, ReportDate::year_end(2022));
    assert_eq!(sheets[0].statement.stock_code, "000001.SZ");
    assert_eq!(sheets[0].statement.report_type, ReportType::BalanceSheet);
    assert_eq!(sheets[0].statement.items.len(), 3);
    assert_eq!(sheets[0].statement.items.get("revenue"), Some(Amount::new(100, 0)));
    assert_eq!(sheets[0].statement.items.get("end_date"), None);
    assert!(sheets[0].operating_assets.total.is_zero());
    assert_eq!(sheets[1].operating_liabilities.items.len(), 0);
}

#[test]
fn tushare_parses_income_statements() {
    let data = table(vec![row("20231231", 100, 60, 10)]);
    let statements = parse_income_statement(&data, "000001.SZ").unwrap();
    assert_eq!(statements.len(), 1);
    let income = &statements[0];
    assert_eq!(income.statement.report_type, ReportType::IncomeStatement);
    assert_eq!(income.revenue, Amount::new(100, 0));
    assert_eq!(income.operating_cost, Amount::new(60, 0));
    assert_eq!(income.gross_profit, Amount::new(40, 0));
    assert_eq!(income.core_profit, Amount::new(10, 0));
    assert_eq!(income.net_profit, Amount::new(10, 0));
}

#[test]
fn tushare_parses_cashflow_statements_as_dates_only() {
    let data = table(vec![row("20231231", 100, 60, 10)]);
    let statements = parse_cashflow_statement(&data, "000001.SZ").unwrap();
    assert_eq!(statements.len(), 1);
    assert_eq!(statements[0].statement.report_date, ReportDate::year_end(2023));
    assert_eq!(statements[0].statement.report_type, ReportType::CashflowStatement);
    assert_eq!(statements[0].statement.items.len(), 0);
    assert!(statements[0].operating_cashflow.is_zero());
    assert!(statements[0].free_cashflow.is_zero());
}

#[test]
fn tushare_fails_on_a_row_without_a_date() {
    let short = table(vec![row("20231231", 1, 1, 1), vec![Cell::Text("000001.SZ".to_string())]]);
    assert!(matches!(parse_balance_sheet(&short, "000001.SZ"), Err(AnalyzerError::DataSource(_))));
    assert!(matches!(parse_income_statement(&short, "000001.SZ"), Err(AnalyzerError::DataSource(_))));
    assert!(matches!(
        parse_cashflow_statement(&short, "000001.SZ"),
        Err(AnalyzerError::DataSource(_))
    ));
    let unreadable = table(vec![row("2023-12-31", 1, 1, 1)]);
    assert!(matches!(parse_balance_sheet(&unreadable, "x"), Err(AnalyzerError::DataSource(_))));
    let number = table(vec![vec![
        Cell::Text("000001.SZ".to_string()),
        Cell::Number(Amount::new(20231231, 0)),
    ]]);
    assert!(matches!(parse_balance_sheet(&number, "x"), Err(AnalyzerError::DataSource(_))));
    let other = table(vec![vec![Cell::Other, Cell::Other]]);
    assert!(matches!(parse_cashflow_statement(&other, "x"), Err(AnalyzerError::DataSource(_))));
}

#[test]
fn tushare_reads_the_first_column_where_none_is_the_date() {
    let data = TushareData {
        fields: vec!["day".to_string(), "revenue".to_string()],
        items: vec![vec![Cell::Text("20211231".to_string()), Cell::Number(Amount::new(5, 0))]],
    };
    let sheets = parse_balance_sheet(&data, "x").unwrap();
    assert_eq!(sheets[0].statement.report_date, ReportDate::year_end(2021));
    assert_eq!(sheets[0].statement.items.get("revenue"), Some(Amount::new(5, 0)));
    let empty = TushareData { fields: vec![], items: vec![] };
    assert!(parse_balance_sheet(&empty, "x").unwrap().is_empty());
    assert!(parse_income_statement(&empty, "x").unwrap().is_empty());
}

#[test]
fn tushare_later_column_replaces_an_earlier_one() {
    let data = TushareData {
        fields: vec!["end_date".to_string(), "a".to_string(), "a".to_string(), "b".to_string()],
        items: vec![vec![
            Cell::Text("20211231".to_string()),
            Cell::Number(Amount::new(1, 0)),
            Cell::Number(Amount::new(2, 0)),
        ]],
    };
    let sheets = parse_balance_sheet(&data, "x").unwrap();
    assert_eq!(sheets[0].statement.items.len(), 1);
    assert_eq!(sheets[0].statement.items.get("a"), Some(Amount::new(2, 0)));
    assert_eq!(sheets[0].statement.items.get("b"), None);
}

#[test]
fn tushare_income_fails_where_gross_profit_overflows() {
    let huge = Amount::from_parts(0xFFFF_FFFF_FFFF_FFFF_FFFF_FFFF, 0).unwrap();
    let data = table(vec![vec![
        Cell::Text("000001.SZ".to_string()),
        Cell::Text("20231231".to_string()),
        Cell::Number(huge),
        Cell::Number(Amount::new(-1, 0)),
        Cell::Number(Amount::new(1, 0)),
    ]]);
    assert!(matches!(parse_income_statement(&data, "x"), Err(AnalyzerError::Calculation(_))));
}
