// Output-length and empty-output scenarios of the indicators, checked on the
// library's length plans with the same inputs as the indicator scenarios.

use polars_ta_core::ma::ma_output_len;
use polars_ta_core::macd::{macd_plan, macdext_plan, macdfix_plan, MacdextPlan};
use polars_ta_core::rolling::rolling_output_len;
use polars_ta_core::statistic::{beta_output_len, correl_output_len};
use polars_ta_core::trend::{
    adx_output_len, mama_output_len, mavp_output_len, midprice_output_len, sar_output_len,
};
use polars_ta_core::volatility::{atr_output_len, trange_output_len};
use polars_ta_core::volume::{ad_output_len, adosc_output_len, obv_output_len};

fn ramp(lo: i32, hi: i32) -> Vec<f64> {
    (lo..=hi).map(|x| x as f64).collect()
}

fn macdext_len(n: usize, f: usize, ft: usize, s: usize, st: usize, g: usize, gt: usize) -> usize {
    match macdext_plan(n, f, ft, s, st, g, gt) {
        MacdextPlan::Empty => 0,
        MacdextPlan::AllEma => macd_plan(n, f, s, g).map(|p| p.out_len).unwrap_or(0),
        MacdextPlan::Aligned { out_len, .. } => out_len,
    }
}

#[test]
fn beta_boundary_short() {
    let data = vec![1.0, 2.0, 3.0];
    assert_eq!(beta_output_len(data.len(), data.len(), 3), 0);
}

#[test]
fn beta_period_zero() {
    let data = vec![1.0, 2.0, 3.0];
    assert_eq!(beta_output_len(data.len(), data.len(), 0), 0);
}

#[test]
fn correl_boundary_short() {
    let data = vec![1.0, 2.0];
    assert_eq!(correl_output_len(data.len(), data.len(), 3), 0);
}

#[test]
fn correl_period_zero() {
    let data = vec![1.0, 2.0, 3.0];
    assert_eq!(correl_output_len(data.len(), data.len(), 0), 0);
}

#[test]
fn linearreg_boundary_short() {
    assert_eq!(rolling_output_len([1.0, 2.0].len(), 3), 0);
}

#[test]
fn stddev_boundary_short() {
    assert_eq!(rolling_output_len([1.0, 2.0].len(), 3), 0);
}

#[test]
fn var_boundary_short() {
    assert_eq!(rolling_output_len([1.0, 2.0].len(), 3), 0);
}

#[test]
fn adx_output_length() {
    let period = 14;
    let n = 100;
    assert_eq!(adx_output_len(n, n, n, period), n - (2 * period - 1));
}

#[test]
fn adx_boundary_exact() {
    let period = 5;
    let n = 2 * period;
    assert_eq!(adx_output_len(n, n, n, period), 1);
}

#[test]
fn adx_too_short() {
    let period = 5;
    let n = 2 * period - 1;
    assert_eq!(adx_output_len(n, n, n, period), 0);
}

#[test]
fn adx_period_zero() {
    assert_eq!(adx_output_len(50, 50, 50, 0), 0);
}

#[test]
fn adx_lookback() {
    let period = 14;
    let n = 150;
    assert_eq!(adx_output_len(n, n, n, period), n - (2 * period - 1));
}

#[test]
fn bbands_output_length() {
    let data = ramp(1, 20);
    assert_eq!(rolling_output_len(data.len(), 5), 20 - 4);
}

#[test]
fn bbands_boundary_short() {
    assert_eq!(rolling_output_len(2, 3), 0);
}

#[test]
fn bbands_period_zero() {
    assert_eq!(rolling_output_len(3, 0), 0);
}

#[test]
fn dema_output_length() {
    let period = 3;
    let data = ramp(1, 20);
    assert_eq!(ma_output_len(data.len(), period, 3), 20 - 2 * (period - 1));
}

#[test]
fn dema_lookback14() {
    assert_eq!(ma_output_len(100, 14, 3), 100 - 2 * 13);
}

#[test]
fn dema_boundary_short() {
    assert_eq!(ma_output_len(3, 3, 3), 0);
}

#[test]
fn dema_period_zero() {
    assert_eq!(ma_output_len(3, 0, 3), 0);
}

#[test]
fn dema_empty_input() {
    assert_eq!(ma_output_len(0, 5, 3), 0);
}

#[test]
fn dema_single_output() {
    assert_eq!(ma_output_len(5, 3, 3), 1);
}

#[test]
fn ema_boundary_short() {
    assert_eq!(ma_output_len(2, 3, 1), 0);
}

#[test]
fn ema_empty_input() {
    assert_eq!(ma_output_len(0, 3, 1), 0);
}

#[test]
fn ema_period_zero() {
    assert_eq!(ma_output_len(2, 0, 1), 0);
}

#[test]
fn ema_lookback() {
    let period = 14;
    assert_eq!(ma_output_len(100, period, 1), 100 - (period - 1));
}

#[test]
fn kama_output_length() {
    let data = ramp(1, 50);
    assert_eq!(ma_output_len(data.len(), 10, 6), 40);
}

#[test]
fn kama_boundary_short() {
    assert_eq!(ma_output_len(10, 10, 6), 0);
}

#[test]
fn kama_period_zero() {
    assert_eq!(ma_output_len(3, 0, 6), 0);
}

#[test]
fn kama_empty_input() {
    assert_eq!(ma_output_len(0, 10, 6), 0);
}

#[test]
fn ma_sma_output_length() {
    let data = ramp(1, 50);
    assert_eq!(ma_output_len(data.len(), 10, 0), 41);
}

#[test]
fn ma_ema_output_length() {
    let data = ramp(1, 50);
    assert_eq!(ma_output_len(data.len(), 10, 1), 41);
}

#[test]
fn ma_wma_output_length() {
    let data = ramp(1, 50);
    assert_eq!(ma_output_len(data.len(), 10, 2), 41);
}

#[test]
fn ma_unknown_type_falls_back_to_ema() {
    let data = ramp(1, 50);
    assert_eq!(ma_output_len(data.len(), 10, 99), ma_output_len(data.len(), 10, 1));
}

#[test]
fn ma_period_1_returns_full_length() {
    let data = vec![1.0, 2.0, 3.0];
    assert_eq!(ma_output_len(data.len(), 1, 0), 3);
    assert_eq!(ma_output_len(data.len(), 1, 1), 3);
}

#[test]
fn macd_output_length() {
    let plan = macd_plan(50, 3, 5, 3).unwrap();
    assert_eq!(plan.out_len, 50 - (5 + 3 - 2));
    assert_eq!(plan.line_len - plan.signal_trim, plan.out_len);
}

#[test]
fn macd_standard_params() {
    assert_eq!(macd_plan(100, 12, 26, 9).unwrap().out_len, 100 - (26 + 9 - 2));
}

#[test]
fn macd_too_short() {
    assert!(macd_plan(5, 3, 5, 3).is_none());
}

#[test]
fn macd_zero_period() {
    assert!(macd_plan(50, 0, 26, 9).is_none());
    assert!(macd_plan(50, 12, 0, 9).is_none());
    assert!(macd_plan(50, 12, 26, 0).is_none());
}

#[test]
fn macdext_output_length() {
    assert_eq!(macdext_len(100, 12, 1, 26, 1, 9, 1), 100 - (26 + 9 - 2));
}

#[test]
fn macdext_sma_output_length() {
    assert_eq!(macdext_len(100, 12, 0, 26, 0, 9, 0), 100 - (26 - 1) - (9 - 1));
}

#[test]
fn macdext_too_short() {
    assert_eq!(macdext_len(10, 12, 1, 26, 1, 9, 1), 0);
}

#[test]
fn macdext_zero_period() {
    assert_eq!(macdext_plan(50, 0, 1, 26, 1, 9, 1), MacdextPlan::Empty);
}

#[test]
fn macdfix_output_length() {
    assert_eq!(macdfix_plan(100, 9).unwrap().out_len, 100 - (26 + 9 - 2));
}

#[test]
fn macdfix_too_short() {
    assert!(macdfix_plan(33, 9).is_none());
}

#[test]
fn macdfix_zero_signal() {
    assert!(macdfix_plan(50, 0).is_none());
}

#[test]
fn mama_output_length() {
    assert_eq!(mama_output_len(100), 100 - 32);
}

#[test]
fn mama_too_short() {
    assert_eq!(mama_output_len(32), 0);
}

#[test]
fn mavp_output_length() {
    assert_eq!(mavp_output_len(100, 100, 2, 30), 71);
}

#[test]
fn mavp_too_short() {
    assert_eq!(mavp_output_len(29, 29, 2, 30), 0);
}

#[test]
fn mavp_boundary_exact() {
    assert_eq!(mavp_output_len(30, 30, 2, 30), 1);
}

#[test]
fn mavp_mismatched_lengths() {
    assert_eq!(mavp_output_len(50, 40, 2, 30), 0);
}

#[test]
fn midpoint_output_length() {
    let data = ramp(1, 20);
    assert_eq!(rolling_output_len(data.len(), 5), 16);
}

#[test]
fn midpoint_boundary_short() {
    assert_eq!(rolling_output_len(3, 5), 0);
}

#[test]
fn midprice_output_length() {
    assert_eq!(midprice_output_len(20, 20, 5), 16);
}

#[test]
fn midprice_boundary_short() {
    assert_eq!(midprice_output_len(3, 3, 5), 0);
}

#[test]
fn midprice_mismatched_lengths() {
    assert_eq!(midprice_output_len(3, 2, 2), 0);
}

#[test]
fn midprice_period_zero() {
    assert_eq!(midprice_output_len(3, 3, 0), 0);
}

#[test]
fn midprice_empty_input() {
    assert_eq!(midprice_output_len(0, 0, 5), 0);
}

#[test]
fn sar_output_length() {
    assert_eq!(sar_output_len(5, 5), 4);
}

#[test]
fn sar_too_short() {
    assert_eq!(sar_output_len(1, 1), 0);
    assert_eq!(sar_output_len(0, 0), 0);
}

#[test]
fn sar_exactly_two_bars() {
    assert_eq!(sar_output_len(2, 2), 1);
}

#[test]
fn sarext_output_length() {
    assert_eq!(sar_output_len(5, 5), 4);
}

#[test]
fn sarext_too_short() {
    assert_eq!(sar_output_len(1, 1), 0);
    assert_eq!(sar_output_len(0, 0), 0);
}

#[test]
fn sma_boundary_short() {
    assert_eq!(ma_output_len(2, 3, 0), 0);
}

#[test]
fn sma_empty_input() {
    assert_eq!(ma_output_len(0, 5, 0), 0);
}

#[test]
fn sma_period_zero() {
    assert_eq!(ma_output_len(3, 0, 0), 0);
}

#[test]
fn sma_lookback_period() {
    let period = 14;
    let lookback = period - 1;
    assert_eq!(ma_output_len(100, period, 0), 100 - lookback);
}

#[test]
fn t3_output_length() {
    assert_eq!(ma_output_len(100, 5, 8), 76);
}

#[test]
fn t3_boundary_short() {
    assert_eq!(ma_output_len(24, 5, 8), 0);
}

#[test]
fn t3_period_zero() {
    assert_eq!(ma_output_len(2, 0, 8), 0);
}

#[test]
fn t3_empty_input() {
    assert_eq!(ma_output_len(0, 5, 8), 0);
}

#[test]
fn tema_output_length() {
    let period = 3;
    assert_eq!(ma_output_len(30, period, 4), 30 - 3 * (period - 1));
}

#[test]
fn tema_lookback14() {
    assert_eq!(ma_output_len(200, 14, 4), 200 - 3 * 13);
}

#[test]
fn tema_boundary_short() {
    assert_eq!(ma_output_len(6, 3, 4), 0);
}

#[test]
fn tema_period_zero() {
    assert_eq!(ma_output_len(3, 0, 4), 0);
}

#[test]
fn tema_empty_input() {
    assert_eq!(ma_output_len(0, 5, 4), 0);
}

#[test]
fn tema_single_output() {
    assert_eq!(ma_output_len(7, 3, 4), 1);
}

#[test]
fn trima_output_length_odd_period() {
    assert_eq!(ma_output_len(20, 5, 5), 16);
}

#[test]
fn trima_output_length_even_period() {
    assert_eq!(ma_output_len(20, 4, 5), 17);
}

#[test]
fn trima_boundary_short() {
    assert_eq!(ma_output_len(3, 5, 5), 0);
}

#[test]
fn trima_period_zero() {
    assert_eq!(ma_output_len(3, 0, 5), 0);
}

#[test]
fn trima_empty_input() {
    assert_eq!(ma_output_len(0, 5, 5), 0);
}

#[test]
fn wma_boundary_short() {
    assert_eq!(ma_output_len(2, 3, 2), 0);
}

#[test]
fn wma_empty() {
    assert_eq!(ma_output_len(0, 3, 2), 0);
}

#[test]
fn wma_period_zero() {
    assert_eq!(ma_output_len(2, 0, 2), 0);
}

#[test]
fn wma_lookback() {
    let period = 14;
    assert_eq!(ma_output_len(100, period, 2), 100 - (period - 1));
}

#[test]
fn atr_output_length() {
    let n = 20;
    assert_eq!(atr_output_len(n, n, n, 14), n - 14);
}

#[test]
fn atr_too_short() {
    assert_eq!(atr_output_len(3, 3, 3, 3), 0);
    assert_eq!(atr_output_len(3, 3, 3, 14), 0);
}

#[test]
fn atr_period_zero() {
    assert_eq!(atr_output_len(20, 20, 20, 0), 0);
}

#[test]
fn natr_output_length() {
    let n = 20;
    assert_eq!(atr_output_len(n, n, n, 14), n - 14);
}

#[test]
fn natr_too_short() {
    assert_eq!(atr_output_len(5, 5, 5, 5), 0);
    assert_eq!(atr_output_len(5, 5, 5, 14), 0);
}

#[test]
fn natr_period_zero() {
    assert_eq!(atr_output_len(20, 20, 20, 0), 0);
}

#[test]
fn trange_too_short() {
    assert_eq!(trange_output_len(1, 1, 1), 0);
    assert_eq!(trange_output_len(0, 0, 0), 0);
}

#[test]
fn trange_length_mismatch() {
    assert_eq!(trange_output_len(2, 1, 2), 0);
}

#[test]
fn trange_output_length() {
    let n = 50;
    assert_eq!(trange_output_len(n, n, n), n - 1);
}

#[test]
fn ad_empty() {
    assert_eq!(ad_output_len(0, 0, 0, 0), 0);
}

#[test]
fn ad_length_mismatch() {
    assert_eq!(ad_output_len(2, 1, 2, 2), 0);
}

#[test]
fn ad_output_length_equals_input() {
    assert_eq!(ad_output_len(30, 30, 30, 30), 30);
}

#[test]
fn adosc_output_length() {
    let n = 20;
    assert_eq!(adosc_output_len(n, n, n, n, 3, 10), n - 9);
}

#[test]
fn adosc_too_short() {
    assert_eq!(adosc_output_len(5, 5, 5, 5, 3, 10), 0);
}

#[test]
fn adosc_period_zero() {
    assert_eq!(adosc_output_len(20, 20, 20, 20, 0, 10), 0);
    assert_eq!(adosc_output_len(20, 20, 20, 20, 3, 0), 0);
}

#[test]
fn adosc_length_mismatch() {
    assert_eq!(adosc_output_len(20, 19, 20, 20, 3, 10), 0);
}

#[test]
fn adosc_exact_lookback() {
    assert_eq!(adosc_output_len(10, 10, 10, 10, 3, 10), 1);
}

#[test]
fn obv_empty() {
    assert_eq!(obv_output_len(0, 0), 0);
}

#[test]
fn obv_length_mismatch() {
    assert_eq!(obv_output_len(2, 1), 0);
}

#[test]
fn obv_output_length_equals_input() {
    assert_eq!(obv_output_len(50, 50), 50);
}
