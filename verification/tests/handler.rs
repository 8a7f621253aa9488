use trader_exec::clock::Timestamp;
use trader_exec::config::Config;
use trader_exec::filters::{AutoTradeFilter, FilterError, Registry, Signals};
use trader_exec::handler::{
    decide, dispatch, gate_trade, handle_action, handle_intent, handle_trade, ActionOutcome,
    Decision, PendingTrade, Progress, TradeProgress,
};
use trader_exec::job::{Field, Intent, TradeError, TradeRequest};
use trader_exec::numeric::{Binary64, Number};
use trader_exec::payload::Payload;
use trader_exec::signer::{Address, KeyRecord, MemoryKeystore, SignerError, Ticket};

fn number(x: f64) -> Binary64 {
    Binary64::from_bits(x.to_bits())
}

fn text(s: &str) -> Payload {
    Payload::Text(s.to_string())
}

fn object(members: Vec<(&str, Payload)>) -> Payload {
    Payload::Object(members.into_iter().map(|(k, v)| (k.to_string(), v)).collect())
}

fn rsi(value: f64) -> Signals {
    let mut signals = Signals::new();
    signals.insert("rsi".to_string(), number(value));
    signals
}

fn threshold_of(pending: &PendingTrade) -> Option<Binary64> {
    pending.threshold_text().and_then(|t| t.parse::<f64>().ok()).map(number)
}

fn config(dry_run: bool) -> Config {
    let mut cfg = Config::default(1);
    cfg.dry_run = dry_run;
    cfg
}

fn intent(principal: &str, payload: Payload) -> Intent {
    Intent {
        id: "i-1".to_string(),
        principal: principal.to_string(),
        payload,
        created_at: Timestamp { seconds: 1_700_000_000, nanos: 0 },
    }
}

fn trade_payload(token: &str, force: Option<bool>) -> Payload {
    let mut members = vec![
        ("mode", text("market")),
        ("token", text(token)),
        ("size", Payload::Number(Number::PosInt(1))),
        ("slippage_bps", Payload::Number(Number::PosInt(50))),
        ("side", text("buy")),
        ("trigger", text("signal")),
        ("paper_trading", Payload::Bool(false)),
    ];
    if let Some(flag) = force {
        members.push(("force", Payload::Bool(flag)));
    }
    object(members)
}

fn trade(force: Option<bool>) -> TradeRequest {
    intent("alice", trade_payload("ETH/USDC", force)).parse_trade().unwrap()
}

fn filter(expression: &str, interval: &str) -> AutoTradeFilter {
    AutoTradeFilter { expression: expression.to_string(), interval: interval.to_string() }
}

fn registry_with(principal: &str, expression: &str) -> Registry {
    let mut registry = Registry::new();
    registry.set(principal.to_string(), filter(expression, "5m"));
    registry
}

fn keystore() -> MemoryKeystore {
    MemoryKeystore::from_keys(vec![(
        "hot".to_string(),
        KeyRecord { address: Address { bytes: [0x11; 20] }, chain_id: Some(5) },
    )])
}

#[test]
fn set_filter_action_sets_the_filter() {
    let mut registry = Registry::new();
    let body = object(vec![("expression", text("rsi<30")), ("interval", text("5m"))]);
    let i = intent("alice", Payload::Null);
    let outcome = handle_action(&i, "set-autotrade-filter", &body, &mut registry);
    assert_eq!(outcome, ActionOutcome::FilterSet);
    assert_eq!(registry.get("alice"), Some(filter("rsi<30", "5m")));
}

#[test]
fn set_filter_action_defaults_the_interval() {
    let mut registry = Registry::new();
    let body = object(vec![("expression", text("rsi>70")), ("enabled", Payload::Bool(true))]);
    let i = intent("alice", Payload::Null);
    assert_eq!(
        handle_action(&i, "set-autotrade-filter", &body, &mut registry),
        ActionOutcome::FilterSet
    );
    assert_eq!(registry.get("alice"), Some(filter("rsi>70", "1m")));
    let body = object(vec![("expression", text("rsi>80")), ("interval", Payload::Bool(true))]);
    handle_action(&i, "set-autotrade-filter", &body, &mut registry);
    assert_eq!(registry.get("alice"), Some(filter("rsi>80", "1m")));
}

#[test]
fn disabled_filter_is_cleared() {
    let mut registry = registry_with("alice", "rsi<30");
    let body = object(vec![("enabled", Payload::Bool(false)), ("expression", text("rsi<40"))]);
    let i = intent("alice", Payload::Null);
    assert_eq!(
        handle_action(&i, "set-autotrade-filter", &body, &mut registry),
        ActionOutcome::FilterCleared
    );
    assert_eq!(registry.get("alice"), None);
}

#[test]
fn empty_expression_clears_the_filter() {
    let i = intent("alice", Payload::Null);
    for body in [
        Payload::empty_object(),
        object(vec![("expression", text(""))]),
        object(vec![("expression", Payload::Bool(true)), ("interval", text("5m"))]),
        Payload::Null,
    ] {
        let mut registry = registry_with("alice", "rsi<30");
        assert_eq!(
            handle_action(&i, "set-autotrade-filter", &body, &mut registry),
            ActionOutcome::FilterCleared
        );
        assert_eq!(registry.get("alice"), None);
    }
}

#[test]
fn enabled_counts_only_as_a_flag() {
    let mut registry = Registry::new();
    let body = object(vec![("enabled", text("false")), ("expression", text("rsi<30"))]);
    let i = intent("alice", Payload::Null);
    assert_eq!(
        handle_action(&i, "set-autotrade-filter", &body, &mut registry),
        ActionOutcome::FilterSet
    );
}

#[test]
fn other_actions_change_nothing() {
    let mut registry = registry_with("alice", "rsi<30");
    let body = object(vec![("enabled", Payload::Bool(false))]);
    let i = intent("alice", Payload::Null);
    assert_eq!(handle_action(&i, "ping", &body, &mut registry), ActionOutcome::Unrecognized);
    assert_eq!(
        handle_action(&i, "SET-AUTOTRADE-FILTER", &body, &mut registry),
        ActionOutcome::Unrecognized
    );
    assert_eq!(registry.get("alice"), Some(filter("rsi<30", "5m")));
}

#[test]
fn action_touches_only_its_principal() {
    let mut registry = registry_with("bob", "rsi>70");
    let body = object(vec![("expression", text("rsi<30"))]);
    handle_action(&intent("alice", Payload::Null), "set-autotrade-filter", &body, &mut registry);
    assert_eq!(registry.get("bob"), Some(filter("rsi>70", "5m")));
    handle_action(
        &intent("alice", Payload::Null),
        "set-autotrade-filter",
        &Payload::empty_object(),
        &mut registry,
    );
    assert_eq!(registry.get("bob"), Some(filter("rsi>70", "5m")));
}

#[test]
fn decision_table() {
    assert_eq!(decide(None, false), Decision::Proceed);
    assert_eq!(decide(None, true), Decision::SkipDryRun);
    assert_eq!(decide(Some(true), false), Decision::Proceed);
    assert_eq!(decide(Some(true), true), Decision::SkipDryRun);
    assert_eq!(decide(Some(false), false), Decision::SkipBlocked);
    assert_eq!(decide(Some(false), true), Decision::SkipBlocked);
}

#[test]
fn trade_without_filter_is_decided_at_once() {
    let registry = Registry::new();
    let i = intent("alice", Payload::Null);
    assert_eq!(
        handle_trade(&config(true), &i, &trade(None), &registry),
        TradeProgress::Decided(Decision::SkipDryRun)
    );
    assert_eq!(
        handle_trade(&config(false), &i, &trade(None), &registry),
        TradeProgress::Decided(Decision::Proceed)
    );
}

#[test]
fn trade_with_filter_waits_for_signals() {
    let registry = registry_with("alice", "rsi<30");
    let i = intent("alice", Payload::Null);
    let progress = handle_trade(&config(false), &i, &trade(None), &registry);
    assert_eq!(
        progress,
        TradeProgress::AwaitSignals(PendingTrade {
            pair: "ETH/USDC".to_string(),
            filter: filter("rsi<30", "5m"),
        })
    );
    assert_eq!(
        handle_trade(&config(false), &i, &trade(Some(false)), &registry),
        progress
    );
    assert_eq!(
        handle_trade(&config(false), &intent("bob", Payload::Null), &trade(None), &registry),
        TradeProgress::Decided(Decision::Proceed)
    );
}

#[test]
fn forced_trade_bypasses_the_filter_but_not_the_dry_run() {
    let registry = registry_with("alice", "rsi<30");
    let i = intent("alice", Payload::Null);
    assert_eq!(
        handle_trade(&config(false), &i, &trade(Some(true)), &registry),
        TradeProgress::Decided(Decision::Proceed)
    );
    assert_eq!(
        handle_trade(&config(true), &i, &trade(Some(true)), &registry),
        TradeProgress::Decided(Decision::SkipDryRun)
    );
    let broken = registry_with("alice", "rsi=30");
    assert_eq!(
        gate_trade(&config(false), &i, &trade(Some(true)), &broken, None, &Signals::new()),
        Ok(Decision::Proceed)
    );
    assert_eq!(
        gate_trade(&config(true), &i, &trade(Some(true)), &registry, Some(number(30.0)), &rsi(40.0)),
        Ok(Decision::SkipDryRun)
    );
}

#[test]
fn pending_trade_resumes_with_the_signals() {
    let pending = PendingTrade { pair: "ETH/USDC".to_string(), filter: filter("rsi<30", "5m") };
    assert_eq!(pending.threshold_text(), Some("30".to_string()));
    let threshold = threshold_of(&pending);
    assert_eq!(pending.resume(&config(false), threshold, &rsi(40.0)), Ok(Decision::SkipBlocked));
    assert_eq!(pending.resume(&config(false), threshold, &rsi(20.0)), Ok(Decision::Proceed));
    assert_eq!(pending.resume(&config(true), threshold, &rsi(40.0)), Ok(Decision::SkipBlocked));
    assert_eq!(pending.resume(&config(true), threshold, &rsi(20.0)), Ok(Decision::SkipDryRun));
}

#[test]
fn failed_evaluation_is_an_error_of_the_gate() {
    let pending = PendingTrade { pair: "ETH/USDC".to_string(), filter: filter("rsi=30", "5m") };
    assert_eq!(pending.threshold_text(), None);
    assert_eq!(
        pending.resume(&config(true), threshold_of(&pending), &rsi(40.0)),
        Err(FilterError::InvalidExpression)
    );
    let pending = PendingTrade { pair: "ETH/USDC".to_string(), filter: filter("macd<0", "5m") };
    assert_eq!(
        pending.resume(&config(false), threshold_of(&pending), &rsi(40.0)),
        Err(FilterError::IndicatorMissing("macd".to_string()))
    );
    let pending = PendingTrade { pair: "ETH/USDC".to_string(), filter: filter("rsi<low", "5m") };
    assert_eq!(pending.threshold_text(), Some("low".to_string()));
    assert_eq!(
        pending.resume(&config(false), threshold_of(&pending), &rsi(40.0)),
        Err(FilterError::InvalidExpression)
    );
}

#[test]
fn gate_in_one_step() {
    let registry = registry_with("alice", "rsi<30");
    let i = intent("alice", Payload::Null);
    let limit = Some(number(30.0));
    assert_eq!(
        gate_trade(&config(false), &i, &trade(None), &registry, limit, &rsi(40.0)),
        Ok(Decision::SkipBlocked)
    );
    assert_eq!(
        gate_trade(&config(false), &i, &trade(None), &registry, limit, &rsi(20.0)),
        Ok(Decision::Proceed)
    );
    assert_eq!(
        gate_trade(&config(true), &i, &trade(None), &registry, limit, &rsi(20.0)),
        Ok(Decision::SkipDryRun)
    );
    assert_eq!(
        gate_trade(&config(true), &i, &trade(None), &registry, limit, &rsi(40.0)),
        Ok(Decision::SkipBlocked)
    );
    assert_eq!(
        gate_trade(&config(false), &i, &trade(None), &registry, limit, &Signals::new()),
        Err(FilterError::IndicatorMissing("rsi".to_string()))
    );
}

#[test]
fn intent_with_action_changes_the_registry() {
    let mut registry = Registry::new();
    let body = object(vec![("expression", text("rsi<30")), ("interval", text("5m"))]);
    let i = intent("alice", object(vec![("action", text("set-autotrade-filter")), ("payload", body)]));
    assert_eq!(
        handle_intent(&config(true), &i, &mut registry),
        Ok(Progress::Action(ActionOutcome::FilterSet))
    );
    assert_eq!(registry.get("alice"), Some(filter("rsi<30", "5m")));
    let i = intent("alice", object(vec![("action", text("set-autotrade-filter"))]));
    assert_eq!(
        handle_intent(&config(true), &i, &mut registry),
        Ok(Progress::Action(ActionOutcome::FilterCleared))
    );
    assert_eq!(registry.get("alice"), None);
    let i = intent("alice", object(vec![("action", text("ping"))]));
    assert_eq!(
        handle_intent(&config(true), &i, &mut registry),
        Ok(Progress::Action(ActionOutcome::Unrecognized))
    );
}

#[test]
fn intent_with_trade_goes_to_the_gate() {
    let mut registry = registry_with("alice", "rsi<30");
    let i = intent("alice", trade_payload("ETH/USDC", None));
    assert_eq!(
        handle_intent(&config(false), &i, &mut registry),
        Ok(Progress::Trade(TradeProgress::AwaitSignals(PendingTrade {
            pair: "ETH/USDC".to_string(),
            filter: filter("rsi<30", "5m"),
        })))
    );
    let i = intent("bob", trade_payload("ETH/USDC", None));
    assert_eq!(
        handle_intent(&config(false), &i, &mut registry),
        Ok(Progress::Trade(TradeProgress::Decided(Decision::Proceed)))
    );
    assert_eq!(registry.get("alice"), Some(filter("rsi<30", "5m")));
}

#[test]
fn intent_that_is_neither_is_an_error() {
    let mut registry = registry_with("alice", "rsi<30");
    let i = intent("alice", object(vec![("token", text("ETH"))]));
    assert_eq!(
        handle_intent(&config(false), &i, &mut registry),
        Err(TradeError::Field(Field::Mode))
    );
    let i = intent("alice", Payload::Null);
    assert_eq!(handle_intent(&config(false), &i, &mut registry), Err(TradeError::NotAStructure));
    assert_eq!(registry.get("alice"), Some(filter("rsi<30", "5m")));
}

#[test]
fn only_a_trade_that_proceeds_is_given_a_nonce() {
    let mut store = keystore();
    let address = Address { bytes: [0x11; 20] };
    assert_eq!(dispatch(Decision::SkipBlocked, &mut store, "hot"), None);
    assert_eq!(dispatch(Decision::SkipDryRun, &mut store, "hot"), None);
    assert_eq!(store.next_nonce(&address), 0);
    assert_eq!(
        dispatch(Decision::Proceed, &mut store, "hot"),
        Some(Ok(Ticket { address, chain_id: 5, nonce: 0 }))
    );
    assert_eq!(store.next_nonce(&address), 1);
    assert_eq!(
        dispatch(Decision::Proceed, &mut store, "cold"),
        Some(Err(SignerError::MissingKey("cold".to_string())))
    );
    assert_eq!(store.next_nonce(&address), 1);
}

#[test]
fn filter_set_by_action_gates_the_next_trade() {
    let cfg = config(false);
    let mut registry = Registry::new();
    let mut store = keystore();
    let address = Address { bytes: [0x11; 20] };

    let body = object(vec![("expression", text("rsi<30")), ("interval", text("5m"))]);
    let action =
        intent("alice", object(vec![("action", text("set-autotrade-filter")), ("payload", body)]));
    assert_eq!(
        handle_intent(&cfg, &action, &mut registry),
        Ok(Progress::Action(ActionOutcome::FilterSet))
    );

    let request = intent("alice", trade_payload("ETH/USDC", None));
    let pending = match handle_intent(&cfg, &request, &mut registry) {
        Ok(Progress::Trade(TradeProgress::AwaitSignals(pending))) => pending,
        other => panic!("the trade should wait for signals: {:?}", other),
    };
    assert_eq!(pending.pair, "ETH/USDC");
    assert_eq!(pending.filter.interval, "5m");

    let blocked = pending.resume(&cfg, threshold_of(&pending), &rsi(40.0)).unwrap();
    assert_eq!(blocked, Decision::SkipBlocked);
    assert_eq!(dispatch(blocked, &mut store, "hot"), None);
    assert_eq!(store.next_nonce(&address), 0);

    let allowed = pending.resume(&cfg, threshold_of(&pending), &rsi(20.0)).unwrap();
    assert_eq!(allowed, Decision::Proceed);
    assert_eq!(
        dispatch(allowed, &mut store, "hot"),
        Some(Ok(Ticket { address, chain_id: 5, nonce: 0 }))
    );
    assert_eq!(store.next_nonce(&address), 1);
}
