//! The statements that an analysis reads and the results that it gives.

pub mod line_items;
pub mod models;

pub use line_items::{LineItem, LineItems};
pub use models::{
    statement_views, AnalysisResult, AssetGroup, AssetStructureAnalysis, BalanceSheet,
    BalanceSheetView, CashflowFigures, CashflowStatement, FinancialStatement, GroupView,
    IncomeFigures, IncomeNames, IncomeStatement, LeverageAnalysis, LiabilityGroup, ProfitAnalysis,
    ReportDate, ReportType, StatementView,
};
