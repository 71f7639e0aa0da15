use financial_analyzer::analyzer::{
    DCFParams, SensitivityParams, TangchaoParams, ValuationParams, Valuator,
};
use financial_analyzer::decimal::Amount;
use financial_analyzer::domain::{
    CashflowStatement, FinancialStatement, IncomeStatement, LineItems, ReportDate, ReportType,
};
use financial_analyzer::AnalyzerError;

fn blank(kind: ReportType, year: i32) -> FinancialStatement {
    FinancialStatement {
        stock_code: "000001.SZ".to_string(),
        report_date: ReportDate::year_end(year),
        report_type: kind,
        items: LineItems::new(),
    }
}

fn cashflow(year: i32, free_cashflow: Amount) -> CashflowStatement {
    CashflowStatement {
        statement: blank(ReportType::CashflowStatement, year),
        operating_cashflow: Amount::zero(),
        investing_cashflow: Amount::zero(),
        financing_cashflow: Amount::zero(),
        free_cashflow,
    }
}

fn profit(year: i32, net_profit: Amount) -> IncomeStatement {
    IncomeStatement {
        statement: blank(ReportType::IncomeStatement, year),
        revenue: Amount::zero(),
        operating_cost: Amount::zero(),
        gross_profit: Amount::zero(),
        core_profit: Amount::zero(),
        net_profit,
    }
}

fn params(discount: Amount, perpetual: Amount) -> ValuationParams {
    ValuationParams {
        dcf: DCFParams {
            discount_rate: discount,
            perpetual_growth_rate: perpetual,
            fcf_growth_rate: Amount::new(10, 2),
        },
        tangchao: TangchaoParams {
            net_profit_growth_rate: Amount::new(10, 2),
            low_risk_free_rate: Amount::new(4, 2),
            high_risk_free_rate: Amount::new(2, 2),
            safety_margin: Amount::new(7, 1),
        },
        total_shares: Amount::new(100_000_000, 0),
    }
}

fn close_to(a: Amount, b: Amount, tolerance: Amount) -> bool {
    a.checked_sub(b).unwrap().abs().less_than(&tolerance)
}

#[test]
fn default_valuation_params() {
    let p = ValuationParams::default();
    assert_eq!(p.dcf.discount_rate, Amount::new(8, 2));
    assert_eq!(p.dcf.perpetual_growth_rate, Amount::new(3, 2));
    assert_eq!(p.dcf.fcf_growth_rate, Amount::new(1, 1));
    assert_eq!(p.tangchao.net_profit_growth_rate, Amount::new(1, 1));
    assert_eq!(p.tangchao.low_risk_free_rate, Amount::new(4, 2));
    assert_eq!(p.tangchao.high_risk_free_rate, Amount::new(2, 2));
    assert_eq!(p.tangchao.safety_margin, Amount::new(7, 1));
    assert_eq!(p.total_shares, Amount::new(100_000_000, 0));
    assert_eq!(Valuator::with_default().params.total_shares, Amount::new(100_000_000, 0));
}

#[test]
fn default_sensitivity_params() {
    let p = SensitivityParams::default();
    assert_eq!(p.discount_rate, Amount::new(8, 2));
    assert_eq!(p.perpetual_growth_rate, Amount::new(4, 2));
    assert_eq!(p.fcf_growth_rate, Amount::new(-1, 1));
    assert_eq!(p.net_profit_growth_rate, Amount::new(1, 1));
    assert_eq!(p.low_risk_free_rate, Amount::new(4, 2));
    assert_eq!(p.high_risk_free_rate, Amount::new(2, 2));
}

#[test]
fn sensitivity_params_make_fresh_valuation_params() {
    let s = SensitivityParams::default();
    let p = s.to_valuation_params(Amount::new(250, 0));
    assert_eq!(p.dcf.discount_rate, s.discount_rate);
    assert_eq!(p.dcf.perpetual_growth_rate, s.perpetual_growth_rate);
    assert_eq!(p.dcf.fcf_growth_rate, s.fcf_growth_rate);
    assert_eq!(p.tangchao.net_profit_growth_rate, s.net_profit_growth_rate);
    assert_eq!(p.tangchao.low_risk_free_rate, s.low_risk_free_rate);
    assert_eq!(p.tangchao.high_risk_free_rate, s.high_risk_free_rate);
    assert_eq!(p.tangchao.safety_margin, Amount::new(7, 1));
    assert_eq!(p.total_shares, Amount::new(250, 0));
}

#[test]
fn dcf_of_a_sample_cashflow() {
    let valuator = Valuator::new(params(Amount::new(8, 2), Amount::new(4, 2)));
    let cashflows = vec![cashflow(2023, Amount::new(700_000, 0)), cashflow(2022, Amount::new(1, 0))];
    let v = valuator.calculate_dcf(&cashflows).unwrap();
    // 700,000 * (1.1/1.08 + (1.1/1.08)^2 + (1.1/1.08)^3)
    //   + 700,000 * 1.1^3 * 1.04 / 0.04 / 1.08^3 = 21,408,693.4156378600823...
    let expected = Amount::from_parts(21_408_693_415_637_860_082_304_526_749, 21).unwrap();
    assert!(close_to(v.enterprise_value, expected, Amount::new(1, 15)));
    assert_eq!(
        v.price_per_share,
        v.enterprise_value.checked_div(Amount::new(100_000_000, 0)).unwrap()
    );
    assert!(close_to(
        v.price_per_share,
        Amount::from_parts(2_140_869_341_563_786_008_230_452_675, 28).unwrap(),
        Amount::new(1, 23)
    ));
    println!("{} {}", v.enterprise_value.to_text(), v.price_per_share.to_text());
    assert_eq!(v.enterprise_value.to_text(), "21408693.415637860082304526749");
    assert_eq!(v.price_per_share.to_text(), "0.2140869341563786008230452675");
}

#[test]
fn dcf_with_a_single_forecast_step_by_hand() {
    // With no growth and a free cashflow of 108, each forecast year is worth
    // 108 / 1.08^year, and the terminal value 108 * 1 / 0.08 / 1.08^3.
    let p = ValuationParams {
        dcf: DCFParams {
            discount_rate: Amount::new(8, 2),
            perpetual_growth_rate: Amount::zero(),
            fcf_growth_rate: Amount::zero(),
        },
        ..params(Amount::new(8, 2), Amount::zero())
    };
    let valuator = Valuator::new(p);
    let v = valuator.dcf_value(Amount::new(108, 0)).unwrap();
    let d = Amount::new(108, 2);
    let d2 = d.checked_mul(d).unwrap();
    let d3 = d2.checked_mul(d).unwrap();
    let base = Amount::new(108, 0);
    let y1 = base.checked_div(d).unwrap();
    let y2 = base.checked_div(d2).unwrap();
    let y3 = base.checked_div(d3).unwrap();
    let explicit = y1.checked_add(y2).unwrap().checked_add(y3).unwrap();
    let terminal = base.checked_div(Amount::new(8, 2)).unwrap().checked_div(d3).unwrap();
    assert_eq!(y1, Amount::new(100, 0));
    assert_eq!(v.enterprise_value, explicit.checked_add(terminal).unwrap());
}

#[test]
fn dcf_rejects_rates_that_admit_no_perpetuity() {
    let cashflows = vec![cashflow(2023, Amount::new(700_000, 0))];
    let equal = Valuator::new(params(Amount::new(4, 2), Amount::new(40, 3)));
    assert!(matches!(equal.calculate_dcf(&cashflows), Err(AnalyzerError::Parameter(_))));
    let below = Valuator::new(params(Amount::new(3, 2), Amount::new(4, 2)));
    assert!(matches!(below.calculate_dcf(&cashflows), Err(AnalyzerError::Parameter(_))));
    assert!(matches!(below.calculate_dcf(&[]), Err(AnalyzerError::Parameter(_))));
    assert!(matches!(
        below.calculate(&[profit(2023, Amount::new(1, 0))], &cashflows),
        Err(AnalyzerError::Parameter(_))
    ));
    let above = Valuator::new(params(Amount::new(4001, 5), Amount::new(4, 2)));
    assert!(above.calculate_dcf(&cashflows).is_ok());
}

#[test]
fn dcf_of_no_cashflow_is_zero() {
    let valuator = Valuator::new(params(Amount::new(8, 2), Amount::new(4, 2)));
    let v = valuator.calculate_dcf(&[]).unwrap();
    assert!(v.enterprise_value.is_zero());
    assert!(v.price_per_share.is_zero());
    assert_eq!(v.enterprise_value.scale(), 0);
    assert_eq!(v.price_per_share.scale(), 0);
}

#[test]
fn dcf_of_a_negative_cashflow_is_computed() {
    let valuator = Valuator::new(params(Amount::new(8, 2), Amount::new(4, 2)));
    let positive = valuator.calculate_dcf(&[cashflow(2023, Amount::new(700_000, 0))]).unwrap();
    let negative = valuator.calculate_dcf(&[cashflow(2023, Amount::new(-700_000, 0))]).unwrap();
    assert!(negative.enterprise_value.less_than(&Amount::zero()));
    assert!(close_to(
        negative.enterprise_value.abs(),
        positive.enterprise_value,
        Amount::new(1, 15)
    ));
    assert!(Valuator::fcf_is_unreliable(&[cashflow(2023, Amount::new(-700_000, 0))]));
    assert!(Valuator::fcf_is_unreliable(&[cashflow(2023, Amount::zero())]));
    assert!(!Valuator::fcf_is_unreliable(&[cashflow(2023, Amount::new(1, 0))]));
    assert!(!Valuator::fcf_is_unreliable(&[]));
}

#[test]
fn dcf_fails_without_shares() {
    let mut p = params(Amount::new(8, 2), Amount::new(4, 2));
    p.total_shares = Amount::zero();
    let r = Valuator::new(p).calculate_dcf(&[cashflow(2023, Amount::new(700_000, 0))]);
    assert!(matches!(r, Err(AnalyzerError::Calculation(_))));
}

#[test]
fn dcf_fails_on_overflow() {
    let valuator = Valuator::new(params(Amount::new(8, 2), Amount::new(4, 2)));
    let huge = Amount::from_parts(0xFFFF_FFFF_FFFF_FFFF_FFFF_FFFF, 0).unwrap();
    let r = valuator.calculate_dcf(&[cashflow(2023, huge)]);
    assert!(matches!(r, Err(AnalyzerError::Calculation(_))));
    assert!(valuator.dcf_value(huge).is_none());
}

#[test]
fn dcf_is_repeatable() {
    let valuator = Valuator::new(params(Amount::new(8, 2), Amount::new(4, 2)));
    let cashflows = vec![cashflow(2023, Amount::new(712_345, 1)), cashflow(2022, Amount::new(5, 0))];
    let first = valuator.calculate_dcf(&cashflows).unwrap();
    let second = valuator.calculate_dcf(&cashflows).unwrap();
    assert_eq!(first.enterprise_value.mantissa(), second.enterprise_value.mantissa());
    assert_eq!(first.enterprise_value.scale(), second.enterprise_value.scale());
    assert_eq!(first.price_per_share.mantissa(), second.price_per_share.mantissa());
    assert_eq!(first.price_per_share.scale(), second.price_per_share.scale());
    // Only the most recent year counts.
    let other = valuator.calculate_dcf(&[cashflow(2020, Amount::new(712_345, 1))]).unwrap();
    assert_eq!(first.enterprise_value.mantissa(), other.enterprise_value.mantissa());
    assert_eq!(first.enterprise_value.scale(), other.enterprise_value.scale());
}

#[test]
fn tangchao_of_a_sample_profit() {
    let valuator = Valuator::new(params(Amount::new(8, 2), Amount::new(4, 2)));
    let statements = vec![profit(2023, Amount::new(1_000_000, 0)), profit(2022, Amount::new(3, 0))];
    let v = valuator.calculate_tangchao(&statements).unwrap();
    assert_eq!(v.low_estimate, Amount::new(33_275, 5));
    assert_eq!(v.high_estimate, Amount::new(6_655, 4));
    assert_eq!(v.safety_margin_price, Amount::new(232_925, 6));
    assert!(v.low_estimate.same_value(&Amount::new(33_275, 5)));
    assert!(v.high_estimate.same_value(&Amount::new(6_655, 4)));
    assert!(v.safety_margin_price.same_value(&Amount::new(232_925, 6)));
    // The profit after three years of growth, before the multiples.
    let g = Amount::new(11, 1);
    let future = Amount::new(1_000_000, 0)
        .checked_mul(g)
        .unwrap()
        .checked_mul(g)
        .unwrap()
        .checked_mul(g)
        .unwrap();
    assert_eq!(future, Amount::new(1_331_000, 0));
    assert!(v.low_estimate.less_than(&v.high_estimate));
}

#[test]
fn tangchao_of_no_profit_is_zero() {
    let valuator = Valuator::with_default();
    let v = valuator.calculate_tangchao(&[]).unwrap();
    assert!(v.low_estimate.is_zero());
    assert!(v.high_estimate.is_zero());
    assert!(v.safety_margin_price.is_zero());
}

#[test]
fn tangchao_fails_on_a_zero_yield() {
    let mut p = params(Amount::new(8, 2), Amount::new(4, 2));
    p.tangchao.high_risk_free_rate = Amount::zero();
    let r = Valuator::new(p).calculate_tangchao(&[profit(2023, Amount::new(1_000_000, 0))]);
    assert!(matches!(r, Err(AnalyzerError::Calculation(_))));
    assert!(Valuator::new(p).tangchao_value(Amount::new(1, 0)).is_none());
}

#[test]
fn tangchao_is_repeatable() {
    let valuator = Valuator::with_default();
    let statements = vec![profit(2023, Amount::new(987_654_321, 2))];
    let first = valuator.calculate_tangchao(&statements).unwrap();
    let second = valuator.calculate_tangchao(&statements).unwrap();
    assert_eq!(first.low_estimate.mantissa(), second.low_estimate.mantissa());
    assert_eq!(first.low_estimate.scale(), second.low_estimate.scale());
    assert_eq!(first.high_estimate.mantissa(), second.high_estimate.mantissa());
    assert_eq!(first.high_estimate.scale(), second.high_estimate.scale());
    assert_eq!(first.safety_margin_price.mantissa(), second.safety_margin_price.mantissa());
    assert_eq!(first.safety_margin_price.scale(), second.safety_margin_price.scale());
}

#[test]
fn calculate_gives_both_valuations() {
    let valuator = Valuator::new(params(Amount::new(8, 2), Amount::new(4, 2)));
    let incomes = vec![profit(2023, Amount::new(1_000_000, 0))];
    let cashflows = vec![cashflow(2023, Amount::new(700_000, 0))];
    let both = valuator.calculate(&incomes, &cashflows).unwrap();
    let dcf = valuator.calculate_dcf(&cashflows).unwrap();
    let tangchao = valuator.calculate_tangchao(&incomes).unwrap();
    assert_eq!(both.dcf.enterprise_value, dcf.enterprise_value);
    assert_eq!(both.dcf.price_per_share, dcf.price_per_share);
    assert_eq!(both.tangchao.low_estimate, tangchao.low_estimate);
    assert_eq!(both.tangchao.high_estimate, tangchao.high_estimate);
    assert_eq!(both.tangchao.safety_margin_price, tangchao.safety_margin_price);
    let empty = valuator.calculate(&[], &[]).unwrap();
    assert!(empty.dcf.enterprise_value.is_zero());
    assert!(empty.tangchao.low_estimate.is_zero());
}
