use rule_parser::discrete::DiscreteRule;
use rule_parser::dispatch::{Rule, Scalar};
use rule_parser::float::Float;
use rule_parser::rule::{text_equals, ContinuousRule, Range, RuleError, RuleType};
use rule_parser::table::{Column, ColumnValues, Table};

fn fl(x: f64) -> Float {
    Float::from_bits(x.to_bits())
}

fn fl32(x: f32) -> Float {
    Float::from_bits(f64::from(x).to_bits())
}

fn range(min: f32, max: f32) -> Range {
    Range { min: fl32(min), max: fl32(max) }
}

fn continuous(ranges: Vec<Range>) -> ContinuousRule {
    ContinuousRule { name: "a".to_string(), rule_type: RuleType::Continuous, ranges }
}

fn discrete<T>(valid: Vec<T>, invalid: Vec<T>, space: Vec<T>) -> DiscreteRule<T> {
    DiscreteRule { name: "a".to_string(), rule_type: RuleType::Discrete, valid, invalid, space }
}

fn table(values: ColumnValues) -> Table {
    Table::new(vec![Column { name: "a".to_string(), values }])
}

fn floats(xs: &[f64]) -> Vec<Float> {
    xs.iter().map(|x| fl(*x)).collect()
}

#[test]
fn test_continuous_rule_check() {
    let rule = continuous(vec![range(0.0, 1.0), range(1.0, 2.0)]);
    assert_eq!(rule.check(fl32(0.5)), true);
    assert_eq!(rule.check(fl32(1.5)), true);
    assert_eq!(rule.check(fl32(2.5)), false);
}

#[test]
fn test_continuous_rule_predict() {
    let rule = continuous(vec![range(f32::NEG_INFINITY, 1.0), range(1.0, 2.0)]);
    let df = table(ColumnValues::Float64(floats(&[0.5, 1.5, 2.5])));
    let b = rule.predict(&df);
    assert_eq!(b, Ok(vec![true, true, false]));
}

#[test]
fn test_discrete_rule_check() {
    let rule = discrete(vec![1, 2, 3], vec![4, 5, 6], vec![7, 8, 9]);
    assert_eq!(rule.check(&1), true);
    assert_eq!(rule.check(&4), false);
    assert_eq!(rule.check(&7), false);
}

#[test]
fn test_discrete_rule_predict() {
    let rule = discrete(vec![1, 2, 3], vec![4, 5, 6], vec![1, 2, 3, 4, 5, 6, 7]);
    let df = table(ColumnValues::Int32(vec![1, 4, 7]));
    let b = rule.predict(&df);
    assert_eq!(b, Ok(vec![true, false, false]));
}

#[test]
fn continuous_check_excludes_minimum_and_predict_includes_it() {
    let rule = continuous(vec![range(1.0, 2.0)]);
    assert_eq!(rule.check(fl32(1.0)), false);
    assert_eq!(rule.check(fl32(2.0)), true);
    let df = table(ColumnValues::Float32(vec![fl32(1.0), fl32(2.0)]));
    assert_eq!(rule.predict(&df), Ok(vec![true, true]));
}

#[test]
fn continuous_predict_agrees_with_check_off_boundaries() {
    let rule = continuous(vec![range(f32::NEG_INFINITY, 1.0), range(1.0, 2.0)]);
    let xs = [0.5, 1.5, 2.5];
    let mask = rule.predict(&table(ColumnValues::Float64(floats(&xs)))).unwrap();
    for (x, m) in xs.iter().zip(mask.iter()) {
        assert_eq!(rule.check(fl(*x)), *m);
    }
}

#[test]
fn continuous_uncovered_value_fails() {
    let rule = continuous(vec![range(0.0, 1.0), range(5.0, 6.0)]);
    assert_eq!(rule.check(fl(3.0)), false);
    assert_eq!(rule.check(fl(-1.0)), false);
    assert_eq!(rule.check(fl(f64::INFINITY)), false);
}

#[test]
fn continuous_overlapping_ranges_union() {
    let rule = continuous(vec![range(0.0, 3.0), range(2.0, 5.0)]);
    assert_eq!(rule.check(fl(2.5)), true);
    assert_eq!(rule.check(fl(4.0)), true);
    assert_eq!(rule.check(fl(5.5)), false);
}

#[test]
fn continuous_nan_never_passes() {
    let rule = continuous(vec![range(f32::NEG_INFINITY, f32::INFINITY)]);
    assert_eq!(rule.check(fl(f64::NAN)), false);
    let df = table(ColumnValues::Float64(floats(&[f64::NAN, 0.0])));
    assert_eq!(rule.predict(&df), Ok(vec![false, true]));
}

#[test]
fn continuous_negative_zero_equals_zero() {
    let rule = continuous(vec![range(-1.0, 0.0)]);
    assert_eq!(rule.check(fl(-0.0)), true);
    let rule = continuous(vec![range(0.0, 1.0)]);
    assert_eq!(rule.check(fl(-0.0)), false);
}

#[test]
fn continuous_predict_on_empty_column() {
    let rule = continuous(vec![range(0.0, 1.0)]);
    assert_eq!(rule.predict(&table(ColumnValues::Float64(vec![]))), Ok(vec![]));
}

#[test]
fn continuous_predict_type_mismatch() {
    let rule = continuous(vec![range(0.0, 1.0)]);
    assert_eq!(rule.predict(&table(ColumnValues::Int32(vec![1]))), Err(RuleError::TypeMismatch));
    let strs = ColumnValues::Str(vec!["0.5".to_string()]);
    assert_eq!(rule.predict(&table(strs)), Err(RuleError::TypeMismatch));
}

#[test]
fn predict_missing_column() {
    let rule = continuous(vec![range(0.0, 1.0)]);
    let df = Table::new(vec![Column { name: "b".to_string(), values: ColumnValues::Float64(vec![]) }]);
    assert_eq!(rule.predict(&df), Err(RuleError::MissingColumn));
    let rule = discrete(vec![1], vec![], vec![]);
    assert_eq!(rule.predict(&df), Err(RuleError::MissingColumn));
}

#[test]
fn predict_uses_first_column_of_a_name() {
    let rule = continuous(vec![range(0.0, 1.0)]);
    let df = Table::new(vec![
        Column { name: "b".to_string(), values: ColumnValues::Float64(floats(&[9.0])) },
        Column { name: "a".to_string(), values: ColumnValues::Float64(floats(&[0.5, 3.0])) },
        Column { name: "a".to_string(), values: ColumnValues::Int32(vec![1]) },
    ]);
    assert_eq!(rule.predict(&df), Ok(vec![true, false]));
}

#[test]
fn discrete_predict_type_mismatch() {
    let ints = discrete(vec![1], vec![], vec![]);
    assert_eq!(ints.predict(&table(ColumnValues::Float64(floats(&[1.0])))), Err(RuleError::TypeMismatch));
    let floats_rule = discrete(vec![fl(1.0)], vec![], vec![]);
    let f64_col = table(ColumnValues::Float64(floats(&[1.0])));
    assert_eq!(floats_rule.predict(&f64_col), Err(RuleError::TypeMismatch));
    let strs = discrete(vec!["x".to_string()], vec![], vec![]);
    assert_eq!(strs.predict(&table(ColumnValues::Int64(vec![1]))), Err(RuleError::TypeMismatch));
}

#[test]
fn discrete_invalid_overrides_valid_in_predict_only() {
    let rule = discrete(vec![1, 2], vec![2], vec![]);
    assert_eq!(rule.check(&2), true);
    assert_eq!(rule.predict(&table(ColumnValues::Int32(vec![1, 2, 3]))), Ok(vec![true, false, false]));
}

#[test]
fn discrete_check_and_predict_agree_without_invalid() {
    let rule = discrete(vec![10, -3], vec![], vec![1, 2]);
    let rows = vec![10, 1, -3, 0, 2];
    let mask = rule.predict(&table(ColumnValues::Int32(rows.clone()))).unwrap();
    assert_eq!(mask, vec![true, false, true, false, false]);
    for (v, m) in rows.iter().zip(mask.iter()) {
        assert_eq!(rule.check(v), *m);
    }
}

#[test]
fn discrete_int_rule_on_every_int_width() {
    let rule = discrete(vec![7], vec![], vec![]);
    assert_eq!(rule.predict(&table(ColumnValues::Int8(vec![7, 8]))), Ok(vec![true, false]));
    assert_eq!(rule.predict(&table(ColumnValues::Int16(vec![8, 7]))), Ok(vec![false, true]));
    let wide = ColumnValues::Int64(vec![7, 7 + (1i64 << 32)]);
    assert_eq!(rule.predict(&table(wide)), Ok(vec![true, false]));
}

#[test]
fn discrete_string_rule() {
    let rule = discrete(vec!["KH".to_string(), "VN".to_string()], vec!["US".to_string()], vec![]);
    assert_eq!(rule.check(&"VN".to_string()), true);
    assert_eq!(rule.check(&"US".to_string()), false);
    let col = ColumnValues::Str(vec!["VN".to_string(), "US".to_string(), "kh".to_string()]);
    assert_eq!(rule.predict(&table(col)), Ok(vec![true, false, false]));
}

#[test]
fn discrete_float_rule() {
    let rule = discrete(vec![fl32(0.5), fl32(f32::NAN)], vec![], vec![]);
    assert_eq!(rule.check(&fl32(0.5)), true);
    assert_eq!(rule.check(&fl32(f32::NAN)), false);
    let col = ColumnValues::Float32(vec![fl32(0.5), fl32(f32::NAN), fl32(0.25)]);
    assert_eq!(rule.predict(&table(col)), Ok(vec![true, false, false]));
}

#[test]
fn discrete_empty_valid_selects_nothing() {
    let rule = discrete(vec![], vec![], vec![1]);
    assert_eq!(rule.check(&1), false);
    assert_eq!(rule.predict(&table(ColumnValues::Int32(vec![1]))), Ok(vec![false]));
}

#[test]
fn construction_succeeds_on_a_good_definition() {
    let rule = ContinuousRule::new("a".to_string(), "Continuous", vec![range(0.0, 1.0)]).ok().unwrap();
    assert_eq!(rule.name, "a");
    assert_eq!(rule.rule_type, RuleType::Continuous);
    assert_eq!(rule.ranges.len(), 1);
    let rule = DiscreteRule::new("a".to_string(), "Discrete", vec![1], vec![2], vec![3]).ok().unwrap();
    assert_eq!(rule.valid, vec![1]);
    assert_eq!(rule.rule_type, RuleType::Discrete);
}

#[test]
fn construction_fails_on_empty_ranges() {
    let r = ContinuousRule::new("a".to_string(), "Continuous", vec![]);
    assert!(matches!(r, Err(RuleError::NoRanges)));
}

#[test]
fn construction_fails_on_unknown_rule_type() {
    let r = ContinuousRule::new("a".to_string(), "Ordinal", vec![range(0.0, 1.0)]);
    assert!(matches!(r, Err(RuleError::UnknownRuleType)));
    let r = DiscreteRule::new("a".to_string(), "discrete", vec![1], vec![], vec![]);
    assert!(matches!(r, Err(RuleError::UnknownRuleType)));
}

#[test]
fn construction_fails_on_empty_name_or_other_kind() {
    let r = ContinuousRule::new(String::new(), "Continuous", vec![range(0.0, 1.0)]);
    assert!(matches!(r, Err(RuleError::EmptyName)));
    let r = ContinuousRule::new("a".to_string(), "Discrete", vec![range(0.0, 1.0)]);
    assert!(matches!(r, Err(RuleError::KindMismatch)));
    let r = DiscreteRule::new("a".to_string(), "Continuous", vec![1], vec![], vec![]);
    assert!(matches!(r, Err(RuleError::KindMismatch)));
}

#[test]
fn rule_type_parse() {
    assert_eq!(RuleType::parse("Continuous"), Some(RuleType::Continuous));
    assert_eq!(RuleType::parse("Discrete"), Some(RuleType::Discrete));
    assert_eq!(RuleType::parse("Continuou"), None);
    assert_eq!(RuleType::parse(""), None);
}

#[test]
fn text_equals_compares_characters() {
    assert!(text_equals("abc", "abc"));
    assert!(!text_equals("abc", "abd"));
    assert!(!text_equals("ab", "abc"));
    assert!(text_equals("", ""));
}

#[test]
fn float_comparisons_follow_ieee() {
    assert!(fl(1.0).lt(&fl(2.0)));
    assert!(fl(-2.0).lt(&fl(-1.0)));
    assert!(fl(f64::NEG_INFINITY).lt(&fl(-1e300)));
    assert!(fl(-0.0).le(&fl(0.0)) && fl(0.0).le(&fl(-0.0)));
    assert!(fl(-0.0).eq_value(&fl(0.0)));
    assert!(!fl(f64::NAN).eq_value(&fl(f64::NAN)));
    assert!(!fl(f64::NAN).le(&fl(1.0)));
    assert!(!fl(1.0).lt(&fl(f64::NAN)));
    assert!(fl(f64::NAN).is_nan());
    assert!(!fl(f64::INFINITY).is_nan());
    assert_eq!(fl(2.5).to_bits(), 2.5f64.to_bits());
}

#[test]
fn dispatch_check_and_predict() {
    let rule = Rule::Continuous(continuous(vec![range(0.0, 1.0)]));
    assert_eq!(rule.check(&Scalar::Float(fl(0.5))), Ok(true));
    assert_eq!(rule.check(&Scalar::Int(1)), Err(RuleError::TypeMismatch));
    assert_eq!(rule.rule_type(), RuleType::Continuous);
    assert_eq!(rule.name(), "a");
    let rule = Rule::DiscreteInt(discrete(vec![1], vec![], vec![]));
    assert_eq!(rule.check(&Scalar::Int(1)), Ok(true));
    assert_eq!(rule.check(&Scalar::Str("1".to_string())), Err(RuleError::TypeMismatch));
    assert_eq!(rule.predict(&table(ColumnValues::Int32(vec![1, 2]))), Ok(vec![true, false]));
    assert_eq!(rule.rule_type(), RuleType::Discrete);
    let rule = Rule::DiscreteStr(discrete(vec!["x".to_string()], vec![], vec![]));
    assert_eq!(rule.check(&Scalar::Str("x".to_string())), Ok(true));
    let rule = Rule::DiscreteFloat(discrete(vec![fl(1.0)], vec![], vec![]));
    assert_eq!(rule.check(&Scalar::Float(fl(1.0))), Ok(true));
    assert_eq!(rule.predict(&table(ColumnValues::Float64(floats(&[1.0])))), Err(RuleError::TypeMismatch));
}

#[test]
fn column_values_access() {
    let ints = ColumnValues::Int16(vec![-5, 6]);
    assert_eq!(ints.len(), 2);
    assert_eq!(ints.int_at(0), -5);
    let fs = ColumnValues::Float32(vec![fl32(0.5)]);
    assert_eq!(fs.float_at(0).to_bits(), 0.5f64.to_bits());
    assert_eq!(ColumnValues::Boolean(vec![true, false, true]).len(), 3);
}
