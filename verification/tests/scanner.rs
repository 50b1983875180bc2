//! Tests of the tooltip markup scanner and of the exact decimal type.

use stardata::common::Temperature;
use stardata::decimal::Decimal;
use stardata::tooltips::{create_tooltip_content, ToolTipsContent};

fn dec(mant: i128, scale: u32) -> Decimal {
    Decimal { mant, scale }
}

#[test]
fn plain_text_is_one_span() {
    let r = create_tooltip_content("hello".to_string());
    assert_eq!(r, vec![ToolTipsContent::String("hello".to_string())]);
}

#[test]
fn backtick_spans_become_terms() {
    let r = create_tooltip_content("see `iron` here".to_string());
    assert_eq!(r, vec![
        ToolTipsContent::String("see ".to_string()),
        ToolTipsContent::Term("iron".to_string()),
        ToolTipsContent::String(" here".to_string()),
    ]);
}

#[test]
fn tilde_spans_become_highlights() {
    let r = create_tooltip_content("a ~hot~ world".to_string());
    assert_eq!(r, vec![
        ToolTipsContent::String("a ".to_string()),
        ToolTipsContent::Highlight("hot".to_string()),
        ToolTipsContent::String(" world".to_string()),
    ]);
}

#[test]
fn empty_leading_span_is_kept() {
    let r = create_tooltip_content("`t`".to_string());
    assert_eq!(r, vec![
        ToolTipsContent::String(String::new()),
        ToolTipsContent::Term("t".to_string()),
    ]);
}

#[test]
fn unclosed_tilde_keeps_trailing_text() {
    let r = create_tooltip_content("a ~tail".to_string());
    assert_eq!(r, vec![
        ToolTipsContent::String("a ".to_string()),
        ToolTipsContent::String("tail".to_string()),
    ]);
}

#[test]
fn exact_decimals_compare_numerically_across_scales() {
    assert!(dec(25, 1).eq_num(&dec(250, 2)));
    assert!(dec(25, 1).lt_num(&dec(3, 0)));
    assert!(!dec(3, 0).lt_num(&dec(25, 1)));
    assert_ne!(dec(25, 1), dec(250, 2));
}

#[test]
fn checked_addition_is_exact() {
    let a = dec(15, 1);
    let b = dec(25, 2);
    assert_eq!(a.checked_add(&b), Some(dec(175, 2)));
    let big = dec(999_999_999_999_999_999, 0);
    assert_eq!(big.checked_add(&dec(1, 0)), None);
}

#[test]
fn temperature_conversions_are_exact() {
    let t = Temperature::from_celsius(dec(2685, 2));
    assert_eq!(t.kelvin_exact, dec(30000, 2));
    assert_eq!(t.kelvin(), dec(30000, 2));
    assert_eq!(t.celsius(), dec(2685, 2));
    let k = Temperature::from_kelvin(dec(300, 0));
    assert_eq!(k.celsius(), dec(2685, 2));
}

#[test]
fn truncation_goes_toward_zero() {
    assert_eq!(dec(-12345, 3).trunc_with_scale(2), dec(-1234, 2));
    assert_eq!(dec(12399, 2).trunc_with_scale(2), dec(12399, 2));
}
