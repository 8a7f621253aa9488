use trader_exec::filters::{parse_expression, AutoTradeFilter, FilterError, Registry, Relation, Signals};
use trader_exec::numeric::Binary64;

fn number(x: f64) -> Binary64 {
    Binary64::from_bits(x.to_bits())
}

fn signals(values: &[(&str, f64)]) -> Signals {
    let mut signals = Signals::new();
    for (name, value) in values {
        signals.insert(name.to_string(), number(*value));
    }
    signals
}

fn evaluate(expr: &str, values: &[(&str, f64)]) -> Result<bool, FilterError> {
    let parsed = parse_expression(expr)?;
    let threshold = parsed.threshold.parse::<f64>().ok().map(number);
    parsed.evaluate(threshold, &signals(values))
}

#[test]
fn parse_less_than() {
    let map = [("rsi", 25.0)];
    assert!(evaluate("rsi<30", &map).unwrap());
    assert!(!evaluate("rsi<20", &map).unwrap());
}

#[test]
fn parse_greater_than() {
    let map = [("rsi", 25.0)];
    assert!(evaluate("rsi>20", &map).unwrap());
    assert!(!evaluate("rsi>30", &map).unwrap());
    assert!(!evaluate("rsi>25", &map).unwrap());
    assert!(!evaluate("rsi<25", &map).unwrap());
}

#[test]
fn expression_is_trimmed_and_lowercased() {
    let parsed = parse_expression("  RSI  <  30.5 ").unwrap();
    assert_eq!(parsed.indicator, "rsi");
    assert_eq!(parsed.relation, Relation::Below);
    assert_eq!(parsed.threshold, "30.5");
    assert!(evaluate("  RSI  <  30.5 ", &[("rsi", 30.25)]).unwrap());
}

#[test]
fn expression_without_operator_is_invalid() {
    assert_eq!(evaluate("rsi=30", &[("rsi", 25.0)]), Err(FilterError::InvalidExpression));
    assert_eq!(parse_expression("rsi=30"), Err(FilterError::InvalidExpression));
    assert_eq!(parse_expression(""), Err(FilterError::InvalidExpression));
}

#[test]
fn expression_with_two_operators_is_invalid() {
    assert_eq!(parse_expression("rsi<30<40"), Err(FilterError::InvalidExpression));
    assert_eq!(parse_expression("rsi<>30"), Err(FilterError::InvalidExpression));
    assert_eq!(parse_expression("rsi>30<20"), Err(FilterError::InvalidExpression));
    assert_eq!(parse_expression("rsi<=30"), Ok(trader_exec::filters::Expression {
        indicator: "rsi".to_string(),
        relation: Relation::Below,
        threshold: "=30".to_string(),
    }));
    assert_eq!(evaluate("rsi<=30", &[("rsi", 25.0)]), Err(FilterError::InvalidExpression));
}

#[test]
fn unparsable_threshold_is_invalid() {
    assert_eq!(evaluate("rsi<abc", &[("rsi", 25.0)]), Err(FilterError::InvalidExpression));
    assert_eq!(evaluate("rsi<", &[("rsi", 25.0)]), Err(FilterError::InvalidExpression));
}

#[test]
fn missing_indicator_is_reported() {
    assert_eq!(
        evaluate("macd<30", &[("rsi", 25.0)]),
        Err(FilterError::IndicatorMissing("macd".to_string()))
    );
    assert_eq!(
        FilterError::IndicatorMissing("macd".to_string()).message(),
        "indicator macd missing"
    );
    assert_eq!(FilterError::InvalidExpression.message(), "invalid expression");
}

#[test]
fn threshold_is_checked_before_the_indicator() {
    assert_eq!(evaluate("macd<abc", &[("rsi", 25.0)]), Err(FilterError::InvalidExpression));
}

#[test]
fn filter_evaluates_its_expression() {
    let filter = AutoTradeFilter { expression: "rsi<30".to_string(), interval: "5m".to_string() };
    let values = signals(&[("rsi", 25.0)]);
    assert_eq!(filter.parse().unwrap().threshold, "30");
    assert_eq!(filter.evaluate(Some(number(30.0)), &values), Ok(true));
    assert_eq!(filter.evaluate(Some(number(20.0)), &values), Ok(false));
    assert_eq!(filter.evaluate(None, &values), Err(FilterError::InvalidExpression));
}

#[test]
fn registry_set_then_get() {
    let mut registry = Registry::new();
    assert_eq!(registry.get("alice"), None);
    let filter = AutoTradeFilter { expression: "rsi<30".to_string(), interval: "5m".to_string() };
    registry.set("alice".to_string(), filter.clone());
    assert_eq!(registry.get("alice"), Some(filter));
    let other = AutoTradeFilter { expression: "rsi>70".to_string(), interval: "1m".to_string() };
    registry.set("alice".to_string(), other.clone());
    assert_eq!(registry.get("alice"), Some(other));
}

#[test]
fn registry_clear_then_get() {
    let mut registry = Registry::new();
    let filter = AutoTradeFilter { expression: "rsi<30".to_string(), interval: "5m".to_string() };
    registry.set("alice".to_string(), filter);
    registry.clear("alice");
    assert_eq!(registry.get("alice"), None);
    registry.clear("alice");
    assert_eq!(registry.get("alice"), None);
}

#[test]
fn registry_principals_are_independent() {
    let mut registry = Registry::new();
    let a = AutoTradeFilter { expression: "rsi<30".to_string(), interval: "5m".to_string() };
    let b = AutoTradeFilter { expression: "rsi>70".to_string(), interval: "1h".to_string() };
    registry.set("a".to_string(), a.clone());
    registry.set("b".to_string(), b.clone());
    assert_eq!(registry.get("a"), Some(a));
    registry.clear("a");
    assert_eq!(registry.get("b"), Some(b));
}
