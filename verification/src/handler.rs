//! What is done with an intent: a control action changes the filter registry,
//! a trade request passes the execution gate.

use vstd::prelude::*;
use crate::config::Config;
use crate::filters::{
    after_clear,
    after_set,
    evaluation,
    filter_of,
    parsed,
    normalized,
    AutoTradeFilter,
    FilterError,
    FilterErrorModel,
    FilterModel,
    Registry,
    Signals,
};
use crate::job::{action_of, trade_of, Intent, TradeError, TradeModel, TradeRequest};
use crate::numeric::Binary64;
use crate::payload::{Payload, PayloadModel};
use crate::signer::{nonces_after, ticket_for, ticket_view, MemoryKeystore, SignerError, Ticket};
use crate::text::same_text;

verus! {

/// What a control action did.
#[derive(Clone, Copy, Debug, PartialEq, Eq, Structural)]
pub enum ActionOutcome {
    /// The principal's filter was set or replaced.
    FilterSet,
    /// The principal's filter was removed, if it had one.
    FilterCleared,
    /// The action is none that the orchestrator knows; nothing was changed.
    Unrecognized,
}

/// The verdict of the execution gate on a trade request.
#[derive(Clone, Copy, Debug, PartialEq, Eq, Structural)]
pub enum Decision {
    /// The trade goes on to signing and execution.
    Proceed,
    /// The principal's filter evaluated to false: the trade is dropped.
    SkipBlocked,
    /// The orchestrator runs dry: the trade is logged and goes no further.
    SkipDryRun,
}

/// The filter that the payload of a `set-autotrade-filter` action asks for,
/// or nothing where it asks to clear the filter: `enabled` is false (it is
/// true where the payload does not say), or `expression` is empty (as it is
/// where the payload gives none). The interval is `1m` where none is given.
pub open spec fn requested_filter(body: PayloadModel) -> Option<FilterModel> {
    let enabled = match body.flag_member("enabled"@) {
        Some(flag) => flag,
        None => true,
    };
    let expression = match body.text_member("expression"@) {
        Some(text) => text,
        None => Seq::<char>::empty(),
    };
    let interval = match body.text_member("interval"@) {
        Some(text) => text,
        None => "1m"@,
    };
    if !enabled || expression.len() == 0 {
        None
    } else {
        Some(FilterModel { expression, interval })
    }
}

/// What the action named `action` does, given its payload.
pub open spec fn action_outcome(action: Seq<char>, body: PayloadModel) -> ActionOutcome {
    if action != "set-autotrade-filter"@ {
        ActionOutcome::Unrecognized
    } else if requested_filter(body) is Some {
        ActionOutcome::FilterSet
    } else {
        ActionOutcome::FilterCleared
    }
}

/// The registry after `principal` has sent the action named `action`.
pub open spec fn action_effect(
    filters: Map<Seq<char>, FilterModel>,
    principal: Seq<char>,
    action: Seq<char>,
    body: PayloadModel,
) -> Map<Seq<char>, FilterModel> {
    if action != "set-autotrade-filter"@ {
        filters
    } else {
        match requested_filter(body) {
            Some(filter) => after_set(filters, principal, filter),
            None => after_clear(filters, principal),
        }
    }
}

/// Applies the control action of an intent to the registry.
pub fn handle_action(
    intent: &Intent,
    action: &str,
    payload: &Payload,
    registry: &mut Registry,
) -> (outcome: ActionOutcome)
    ensures
        outcome == action_outcome(action@, payload@),
        final(registry)@ == action_effect(old(registry)@, intent.principal@, action@, payload@),
{
    if !same_text(action, "set-autotrade-filter") {
        return ActionOutcome::Unrecognized;
    }
    let enabled: bool = match payload.get_bool("enabled") {
        Some(flag) => flag,
        None => true,
    };
    if !enabled {
        registry.clear(intent.principal.as_str());
        return ActionOutcome::FilterCleared;
    }
    let expression: String = match payload.get_str("expression") {
        Some(text) => String::from_str(text),
        None => String::new(),
    };
    let interval: String = match payload.get_str("interval") {
        Some(text) => String::from_str(text),
        None => String::from_str("1m"),
    };
    if expression.as_str().is_empty() {
        registry.clear(intent.principal.as_str());
        return ActionOutcome::FilterCleared;
    }
    registry.set(intent.principal.clone(), AutoTradeFilter { expression, interval });
    ActionOutcome::FilterSet
}

/// The last step of the execution gate: a trade that was not blocked proceeds unless
/// the orchestrator runs dry.
pub open spec fn unless_dry_run(dry_run: bool) -> Decision {
    if dry_run {
        Decision::SkipDryRun
    } else {
        Decision::Proceed
    }
}

/// The decision on a trade, given what its filter evaluated to (nothing where
/// no filter was evaluated).
pub open spec fn decision(verdict: Option<bool>, dry_run: bool) -> Decision {
    if verdict == Some(false) {
        Decision::SkipBlocked
    } else {
        unless_dry_run(dry_run)
    }
}

/// The filter that has to be evaluated for a trade: the principal's, unless
/// the trade is forced.
pub open spec fn filter_to_check(forced: bool, filter: Option<FilterModel>) -> Option<FilterModel> {
    if forced {
        None
    } else {
        filter
    }
}

/// The execution gate as a whole: a forced trade and a trade of a principal without a
/// filter are not evaluated at all; the failure of an evaluation is the
/// failure of the execution gate; a filter that evaluates to false blocks the trade;
/// the dry run is looked at last.
pub open spec fn gate(
    dry_run: bool,
    forced: bool,
    filter: Option<FilterModel>,
    threshold: Option<Binary64>,
    values: Map<Seq<char>, Binary64>,
) -> Result<Decision, FilterErrorModel> {
    match filter_to_check(forced, filter) {
        None => Ok(decision(None, dry_run)),
        Some(f) => match evaluation(f.expression, threshold, values) {
            Ok(verdict) => Ok(decision(Some(verdict), dry_run)),
            Err(e) => Err(e),
        },
    }
}

/// The views of a gate result.
pub open spec fn decision_view(r: Result<Decision, FilterError>) -> Result<
    Decision,
    FilterErrorModel,
> {
    match r {
        Ok(d) => Ok(d),
        Err(e) => Err(e@),
    }
}

/// The decision on a trade whose filter, if any, has been evaluated.
pub fn decide(verdict: Option<bool>, dry_run: bool) -> (d: Decision)
    ensures
        d == decision(verdict, dry_run),
{
    match verdict {
        Some(false) => Decision::SkipBlocked,
        _ => if dry_run {
            Decision::SkipDryRun
        } else {
            Decision::Proceed
        },
    }
}

/// A trade that waits for the signals of its pair: the filter to evaluate and
/// the pair whose signals are to be read at the filter's interval.
#[derive(Debug, PartialEq, Eq)]
pub struct PendingTrade {
    pub pair: String,
    pub filter: AutoTradeFilter,
}

/// How far a trade has come through the execution gate.
#[derive(Debug, PartialEq, Eq)]
pub enum TradeProgress {
    /// The execution gate has decided.
    Decided(Decision),
    /// The principal's filter has to be evaluated first.
    AwaitSignals(PendingTrade),
}

/// What `TradeProgress` holds.
pub enum TradeProgressModel {
    Decided(Decision),
    AwaitSignals { pair: Seq<char>, filter: FilterModel },
}

impl View for TradeProgress {
    type V = TradeProgressModel;

    open spec fn view(&self) -> TradeProgressModel {
        match self {
            TradeProgress::Decided(d) => TradeProgressModel::Decided(*d),
            TradeProgress::AwaitSignals(pending) => TradeProgressModel::AwaitSignals {
                pair: pending.pair@,
                filter: pending.filter@,
            },
        }
    }
}

/// The first half of the execution gate: the decision where no filter has to be
/// evaluated, and else the filter with the pair to read the signals of.
pub open spec fn trade_progress(
    dry_run: bool,
    trade: TradeModel,
    filter: Option<FilterModel>,
) -> TradeProgressModel {
    match filter_to_check(trade.forced(), filter) {
        None => TradeProgressModel::Decided(decision(None, dry_run)),
        Some(f) => TradeProgressModel::AwaitSignals { pair: trade.token, filter: f },
    }
}

impl PendingTrade {
    /// The text of the threshold of the filter's expression, which the
    /// caller reads as a number; nothing where the expression does not parse.
    pub fn threshold_text(&self) -> (r: Option<String>)
        ensures
            match r {
                Some(text) => parsed(normalized(self.filter@.expression)) matches Ok(x)
                    && x.threshold == text@,
                None => parsed(normalized(self.filter@.expression)) is Err,
            },
    {
        match self.filter.parse() {
            Ok(x) => Some(x.threshold),
            Err(_) => None,
        }
    }

    /// The second half of the execution gate: the filter is evaluated against the
    /// signals, and its verdict decides.
    pub fn resume(&self, cfg: &Config, threshold: Option<Binary64>, signals: &Signals) -> (r: Result<
        Decision,
        FilterError,
    >)
        ensures
            decision_view(r) == gate(
                cfg.dry_run,
                false,
                Some(self.filter@),
                threshold,
                signals@,
            ),
    {
        match self.filter.evaluate(threshold, signals) {
            Ok(verdict) => Ok(decide(Some(verdict), cfg.dry_run)),
            Err(e) => Err(e),
        }
    }
}

/// Takes a trade request to the execution gate.
pub fn handle_trade(
    cfg: &Config,
    intent: &Intent,
    trade: &TradeRequest,
    registry: &Registry,
) -> (r: TradeProgress)
    ensures
        r@ == trade_progress(cfg.dry_run, trade@, filter_of(registry@, intent.principal@)),
{
    if !trade.force() {
        match registry.get(intent.principal.as_str()) {
            Some(filter) => {
                return TradeProgress::AwaitSignals(
                    PendingTrade { pair: trade.token.clone(), filter },
                );
            },
            None => {},
        }
    }
    TradeProgress::Decided(decide(None, cfg.dry_run))
}

/// The execution gate in one step, for a caller that holds the signals already.
pub fn gate_trade(
    cfg: &Config,
    intent: &Intent,
    trade: &TradeRequest,
    registry: &Registry,
    threshold: Option<Binary64>,
    signals: &Signals,
) -> (r: Result<Decision, FilterError>)
    ensures
        decision_view(r) == gate(
            cfg.dry_run,
            trade@.forced(),
            filter_of(registry@, intent.principal@),
            threshold,
            signals@,
        ),
{
    match handle_trade(cfg, intent, trade, registry) {
        TradeProgress::Decided(d) => Ok(d),
        TradeProgress::AwaitSignals(pending) => pending.resume(cfg, threshold, signals),
    }
}

/// How far an intent has come.
#[derive(Debug, PartialEq, Eq)]
pub enum Progress {
    /// The intent was a control action, and it has been applied.
    Action(ActionOutcome),
    /// The intent was a trade request, and it has come this far.
    Trade(TradeProgress),
}

/// What `Progress` holds.
pub enum ProgressModel {
    Action(ActionOutcome),
    Trade(TradeProgressModel),
}

impl View for Progress {
    type V = ProgressModel;

    open spec fn view(&self) -> ProgressModel {
        match self {
            Progress::Action(outcome) => ProgressModel::Action(*outcome),
            Progress::Trade(progress) => ProgressModel::Trade(progress@),
        }
    }
}

/// The views of the result of handling an intent.
pub open spec fn progress_view(r: Result<Progress, TradeError>) -> Result<ProgressModel, TradeError> {
    match r {
        Ok(progress) => Ok(progress@),
        Err(e) => Err(e),
    }
}

/// What handling an intent yields: a payload with a text member `action` is
/// a control action; any other payload has to be a trade request.
pub open spec fn intent_progress(
    dry_run: bool,
    principal: Seq<char>,
    payload: PayloadModel,
    filters: Map<Seq<char>, FilterModel>,
) -> Result<ProgressModel, TradeError> {
    match action_of(payload) {
        Some((action, body)) => Ok(ProgressModel::Action(action_outcome(action, body))),
        None => match trade_of(payload) {
            Ok(trade) => Ok(
                ProgressModel::Trade(trade_progress(dry_run, trade, filter_of(filters, principal))),
            ),
            Err(e) => Err(e),
        },
    }
}

/// The registry after an intent has been handled: only a control action
/// changes it.
pub open spec fn intent_effect(
    principal: Seq<char>,
    payload: PayloadModel,
    filters: Map<Seq<char>, FilterModel>,
) -> Map<Seq<char>, FilterModel> {
    match action_of(payload) {
        Some((action, body)) => action_effect(filters, principal, action, body),
        None => filters,
    }
}

/// Handles an intent as far as it goes without the signals of a pair.
pub fn handle_intent(cfg: &Config, intent: &Intent, registry: &mut Registry) -> (r: Result<
    Progress,
    TradeError,
>)
    ensures
        progress_view(r) == intent_progress(
            cfg.dry_run,
            intent.principal@,
            intent.payload@,
            old(registry)@,
        ),
        final(registry)@ == intent_effect(intent.principal@, intent.payload@, old(registry)@),
{
    match intent.parse_action() {
        Some((action, body)) => {
            let outcome: ActionOutcome = handle_action(intent, action.as_str(), &body, registry);
            Ok(Progress::Action(outcome))
        },
        None => match intent.parse_trade() {
            Ok(trade) => Ok(Progress::Trade(handle_trade(cfg, intent, &trade, registry))),
            Err(e) => Err(e),
        },
    }
}

/// What follows the decision of the execution gate: a trade that proceeds is
/// taken to the signing coordinator, which gives its transaction a chain id
/// and a nonce under the alias of its key; for any other decision the
/// coordinator is not called and no nonce is consumed.
pub fn dispatch(decision: Decision, keystore: &mut MemoryKeystore, alias: &str) -> (r: Option<
    Result<Ticket, SignerError>,
>)
    requires
        old(keystore).has_room(alias@),
    ensures
        final(keystore).keys() == old(keystore).keys(),
        decision == Decision::Proceed ==> r is Some && ticket_view(r->0) == ticket_for(
            old(keystore).keys(),
            old(keystore).nonces(),
            alias@,
        ) && final(keystore).nonces() == nonces_after(
            old(keystore).keys(),
            old(keystore).nonces(),
            alias@,
        ),
        decision != Decision::Proceed ==> r is None && final(keystore).nonces() == old(
            keystore,
        ).nonces(),
{
    match decision {
        Decision::Proceed => Some(keystore.allocate(alias)),
        _ => None,
    }
}

/// A forced trade is never held up by a filter: whatever filter the
/// principal has and whatever it would evaluate to, the dry run alone decides.
pub proof fn law_force_bypasses_filter(
    dry_run: bool,
    filter: Option<FilterModel>,
    threshold: Option<Binary64>,
    values: Map<Seq<char>, Binary64>,
)
    ensures
        gate(dry_run, true, filter, threshold, values) == Ok::<Decision, FilterErrorModel>(
            unless_dry_run(dry_run),
        ),
{
}

/// In a dry run no trade proceeds: a trade that passes the execution gate without
/// being blocked is skipped as a dry run, forced or not.
pub proof fn law_dry_run_never_proceeds(
    forced: bool,
    filter: Option<FilterModel>,
    threshold: Option<Binary64>,
    values: Map<Seq<char>, Binary64>,
)
    ensures
        gate(true, forced, filter, threshold, values) matches Ok(d) ==> d == Decision::SkipDryRun
            || d == Decision::SkipBlocked,
{
}

/// A filter that evaluates to false blocks a trade that is not forced,
/// in a dry run as in a live one; and nothing else blocks a trade.
pub proof fn law_false_filter_blocks(
    dry_run: bool,
    forced: bool,
    filter: Option<FilterModel>,
    threshold: Option<Binary64>,
    values: Map<Seq<char>, Binary64>,
)
    ensures
        gate(dry_run, forced, filter, threshold, values) == Ok::<Decision, FilterErrorModel>(
            Decision::SkipBlocked,
        ) <==> !forced && filter is Some && evaluation(filter->0.expression, threshold, values)
            == Ok::<bool, FilterErrorModel>(false),
{
}

} // verus!
