//! The errors of the analysis.

use vstd::prelude::*;
use vstd::string::to_string_from_display_ensures;

verus! {

/// `std::io::Error`, carried through unchanged.
#[verifier::external_type_specification]
#[verifier::external_body]
pub struct ExIoError(std::io::Error);

/// `rust_xlsxwriter::XlsxError`, read only through its `Display`.
#[verifier::external_type_specification]
#[verifier::external_body]
pub struct ExXlsxError(rust_xlsxwriter::XlsxError);

/// `toml::de::Error`, read only through its `Display`.
#[verifier::external_type_specification]
#[verifier::external_body]
pub struct ExTomlError(toml::de::Error);

/// What can go wrong in an analysis.
#[derive(Debug)]
pub enum AnalyzerError {
    /// A data source failed: a request, or the parsing of what came back.
    DataSource(String),
    /// The data did not pass validation.
    Validation(String),
    /// A computation failed: an overflow or a division by zero.
    Calculation(String),
    /// The spreadsheet could not be written.
    Excel(String),
    /// The configuration could not be read.
    Config(String),
    /// Valuation parameters that admit no valuation.
    Parameter(String),
    /// An I/O error.
    Io(std::io::Error),
    /// Anything else.
    Other(String),
}

impl AnalyzerError {
    /// The heading under which an error of this kind is reported.
    pub open spec fn heading(&self) -> Seq<char> {
        match self {
            AnalyzerError::DataSource(_) => "数据源错误: "@,
            AnalyzerError::Validation(_) => "验证错误: "@,
            AnalyzerError::Calculation(_) => "计算错误: "@,
            AnalyzerError::Excel(_) => "Excel生成错误: "@,
            AnalyzerError::Config(_) => "配置错误: "@,
            AnalyzerError::Parameter(_) => "参数错误: "@,
            AnalyzerError::Io(_) => "IO错误: "@,
            AnalyzerError::Other(_) => "错误: "@,
        }
    }

    /// Whether `text` is the detail that follows the heading.
    pub open spec fn has_detail(&self, text: Seq<char>) -> bool {
        match self {
            AnalyzerError::DataSource(m) => text == m@,
            AnalyzerError::Validation(m) => text == m@,
            AnalyzerError::Calculation(m) => text == m@,
            AnalyzerError::Excel(m) => text == m@,
            AnalyzerError::Config(m) => text == m@,
            AnalyzerError::Parameter(m) => text == m@,
            AnalyzerError::Io(e) => exists|s: String|
                #[trigger] to_string_from_display_ensures(e, s) && text == s@,
            AnalyzerError::Other(m) => text == m@,
        }
    }

    /// The error as one line of text: the heading of its kind, then the detail.
    pub fn describe(&self) -> (r: String)
        ensures
            exists|detail: Seq<char>| #[trigger]
                self.has_detail(detail) && r@ == self.heading() + detail,
    {
        match self {
            AnalyzerError::DataSource(m) => {
                let r = "数据源错误: ".to_string().concat(m.as_str());
                assert(self.has_detail(m@));
                r
            },
            AnalyzerError::Validation(m) => {
                let r = "验证错误: ".to_string().concat(m.as_str());
                assert(self.has_detail(m@));
                r
            },
            AnalyzerError::Calculation(m) => {
                let r = "计算错误: ".to_string().concat(m.as_str());
                assert(self.has_detail(m@));
                r
            },
            AnalyzerError::Excel(m) => {
                let r = "Excel生成错误: ".to_string().concat(m.as_str());
                assert(self.has_detail(m@));
                r
            },
            AnalyzerError::Config(m) => {
                let r = "配置错误: ".to_string().concat(m.as_str());
                assert(self.has_detail(m@));
                r
            },
            AnalyzerError::Parameter(m) => {
                let r = "参数错误: ".to_string().concat(m.as_str());
                assert(self.has_detail(m@));
                r
            },
            AnalyzerError::Io(e) => {
                let s = e.to_string();
                let r = "IO错误: ".to_string().concat(s.as_str());
                assert(self.has_detail(s@));
                r
            },
            AnalyzerError::Other(m) => {
                let r = "错误: ".to_string().concat(m.as_str());
                assert(self.has_detail(m@));
                r
            },
        }
    }
}

impl From<std::io::Error> for AnalyzerError {
    fn from(err: std::io::Error) -> (r: Self) {
        AnalyzerError::Io(err)
    }
}

impl vstd::std_specs::convert::FromSpecImpl<std::io::Error> for AnalyzerError {
    open spec fn obeys_from_spec() -> bool {
        true
    }

    open spec fn from_spec(err: std::io::Error) -> Self {
        AnalyzerError::Io(err)
    }
}

impl From<rust_xlsxwriter::XlsxError> for AnalyzerError {
    /// A spreadsheet error becomes an `Excel` error that holds its text.
    fn from(err: rust_xlsxwriter::XlsxError) -> (r: Self)
        ensures
            r matches AnalyzerError::Excel(m) && to_string_from_display_ensures(&err, m),
    {
        AnalyzerError::Excel(err.to_string())
    }
}

impl vstd::std_specs::convert::FromSpecImpl<rust_xlsxwriter::XlsxError> for AnalyzerError {
    open spec fn obeys_from_spec() -> bool {
        false
    }

    open spec fn from_spec(err: rust_xlsxwriter::XlsxError) -> Self {
        arbitrary()
    }
}

impl From<toml::de::Error> for AnalyzerError {
    /// A TOML error becomes a `Config` error that holds its text.
    fn from(err: toml::de::Error) -> (r: Self)
        ensures
            r matches AnalyzerError::Config(m) && to_string_from_display_ensures(&err, m),
    {
        AnalyzerError::Config(err.to_string())
    }
}

impl vstd::std_specs::convert::FromSpecImpl<toml::de::Error> for AnalyzerError {
    open spec fn obeys_from_spec() -> bool {
        false
    }

    open spec fn from_spec(err: toml::de::Error) -> Self {
        arbitrary()
    }
}

} // verus!
