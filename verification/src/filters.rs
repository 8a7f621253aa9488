//! Auto-trade filters: the expression a principal sets, its evaluation against
//! the signals of a pair, and the registry that holds one filter per principal.

use vstd::prelude::*;
use vstd::hash_map::StringHashMap;
use crate::numeric::Binary64;
use crate::text::{
    chars_of,
    find_char,
    first_index,
    lemma_first_index,
    lemma_first_index_bounds,
    lowercase_of,
    to_lowercase,
    trim,
    trimmed,
};

verus! {

/// The comparison an expression makes between an indicator and its threshold.
#[derive(Clone, Copy, Debug, PartialEq, Eq, Structural)]
pub enum Relation {
    /// `indicator<threshold`: the value is strictly less than the threshold.
    Below,
    /// `indicator>threshold`: the value is strictly greater than the threshold.
    Above,
}

/// Why a filter could not be evaluated.
#[derive(Debug, PartialEq, Eq)]
pub enum FilterError {
    /// The expression is not of the shape `<indicator><op><threshold>`, or its
    /// threshold is no number.
    InvalidExpression,
    /// The signals hold no value for the named indicator.
    IndicatorMissing(String),
}

/// What a `FilterError` holds.
pub enum FilterErrorModel {
    InvalidExpression,
    IndicatorMissing(Seq<char>),
}

impl View for FilterError {
    type V = FilterErrorModel;

    open spec fn view(&self) -> FilterErrorModel {
        match self {
            FilterError::InvalidExpression => FilterErrorModel::InvalidExpression,
            FilterError::IndicatorMissing(name) => FilterErrorModel::IndicatorMissing(name@),
        }
    }
}

impl FilterError {
    /// The text of the error as it is logged.
    pub fn message(&self) -> (text: String)
        ensures
            text@ == match self@ {
                FilterErrorModel::InvalidExpression => "invalid expression"@,
                FilterErrorModel::IndicatorMissing(name) => "indicator "@ + name + " missing"@,
            },
    {
        match self {
            FilterError::InvalidExpression => String::from_str("invalid expression"),
            FilterError::IndicatorMissing(name) => String::from_str("indicator ").concat(
                name.as_str(),
            ).concat(" missing"),
        }
    }
}

/// A parsed filter expression. The threshold is kept as the text that stood
/// behind the operator, without the white space around it; the number it
/// denotes is supplied when the expression is evaluated.
#[derive(Debug, PartialEq, Eq)]
pub struct Expression {
    pub indicator: String,
    pub relation: Relation,
    pub threshold: String,
}

/// What an `Expression` holds.
pub struct ExpressionModel {
    pub indicator: Seq<char>,
    pub relation: Relation,
    pub threshold: Seq<char>,
}

impl View for Expression {
    type V = ExpressionModel;

    open spec fn view(&self) -> ExpressionModel {
        ExpressionModel {
            indicator: self.indicator@,
            relation: self.relation,
            threshold: self.threshold@,
        }
    }
}

/// The views of a parse result.
pub open spec fn parse_view(r: Result<Expression, FilterError>) -> Result<
    ExpressionModel,
    FilterErrorModel,
> {
    match r {
        Ok(x) => Ok(x@),
        Err(e) => Err(e@),
    }
}

/// The views of an evaluation result.
pub open spec fn verdict_view(r: Result<bool, FilterError>) -> Result<bool, FilterErrorModel> {
    match r {
        Ok(b) => Ok(b),
        Err(e) => Err(e@),
    }
}

/// The position of the first `<` or `>` in `text`, or its length where it
/// holds neither.
pub open spec fn first_operator(text: Seq<char>) -> int {
    if first_index(text, '<') <= first_index(text, '>') {
        first_index(text, '<')
    } else {
        first_index(text, '>')
    }
}

/// Whether `text` holds no `<` and no `>`.
pub open spec fn operator_free(text: Seq<char>) -> bool {
    first_operator(text) == text.len()
}

/// The form in which an expression is read: without the white space around
/// it, in lowercase.
pub open spec fn normalized(expr: Seq<char>) -> Seq<char> {
    lowercase_of(trimmed(expr))
}

/// What a normalized text parses to. It must hold exactly one operator; the
/// indicator is what stands before it and the threshold what stands behind
/// it, each without the white space around it.
pub open spec fn parsed(text: Seq<char>) -> Result<ExpressionModel, FilterErrorModel> {
    let k = first_operator(text);
    if k < text.len() && operator_free(text.skip(k + 1)) {
        Ok(
            ExpressionModel {
                indicator: trimmed(text.take(k)),
                relation: if text[k] == '<' {
                    Relation::Below
                } else {
                    Relation::Above
                },
                threshold: trimmed(text.skip(k + 1)),
            },
        )
    } else {
        Err(FilterErrorModel::InvalidExpression)
    }
}

/// What an expression evaluates to, given the number its threshold denotes
/// (none where the text is no number) and the signals of the pair.
pub open spec fn outcome(
    x: ExpressionModel,
    threshold: Option<Binary64>,
    values: Map<Seq<char>, Binary64>,
) -> Result<bool, FilterErrorModel> {
    match threshold {
        None => Err(FilterErrorModel::InvalidExpression),
        Some(limit) => if !values.contains_key(x.indicator) {
            Err(FilterErrorModel::IndicatorMissing(x.indicator))
        } else {
            Ok(
                match x.relation {
                    Relation::Below => values[x.indicator].below(limit),
                    Relation::Above => limit.below(values[x.indicator]),
                },
            )
        },
    }
}

/// The signals of one pair at one interval: indicator names with their values.
pub struct Signals {
    values: StringHashMap<Binary64>,
}

impl View for Signals {
    type V = Map<Seq<char>, Binary64>;

    closed spec fn view(&self) -> Map<Seq<char>, Binary64> {
        self.values@
    }
}

impl Signals {
    pub fn new() -> (signals: Signals)
        ensures
            signals@ == Map::<Seq<char>, Binary64>::empty(),
    {
        Signals { values: StringHashMap::new() }
    }

    /// Sets the value of `name`, replacing an earlier one.
    pub fn insert(&mut self, name: String, value: Binary64)
        ensures
            final(self)@ == old(self)@.insert(name@, value),
    {
        self.values.insert(name, value);
    }

    /// The value of `name`, if the signals hold one.
    pub fn get(&self, name: &str) -> (r: Option<Binary64>)
        ensures
            r == (if self@.contains_key(name@) {
                Some(self@[name@])
            } else {
                None
            }),
    {
        match self.values.get(name) {
            Some(v) => Some(*v),
            None => None,
        }
    }
}

/// Parses a text that is already normalized.
pub fn parse_normalized(text: &str) -> (r: Result<Expression, FilterError>)
    ensures
        parse_view(r) == parsed(text@),
{
    let chars: Vec<char> = chars_of(text);
    let n: usize = chars.len();
    assert(chars@.skip(0) =~= chars@);
    let less: Option<usize> = find_char(&chars, '<', 0);
    let greater: Option<usize> = find_char(&chars, '>', 0);
    let at: usize = match (less, greater) {
        (Some(i), Some(j)) => if i <= j {
            i
        } else {
            j
        },
        (Some(i), None) => i,
        (None, Some(j)) => j,
        (None, None) => {
            return Err(FilterError::InvalidExpression);
        },
    };
    assert(at as int == first_operator(text@));
    let less_after: Option<usize> = find_char(&chars, '<', at + 1);
    let greater_after: Option<usize> = find_char(&chars, '>', at + 1);
    if less_after.is_some() || greater_after.is_some() {
        return Err(FilterError::InvalidExpression);
    }
    let relation: Relation = if chars[at] == '<' {
        Relation::Below
    } else {
        Relation::Above
    };
    let head: &str = text.substring_char(0, at);
    let tail: &str = text.substring_char(at + 1, n);
    assert(head@ =~= text@.take(at as int));
    assert(tail@ =~= text@.skip(at + 1));
    Ok(
        Expression {
            indicator: String::from_str(trim(head)),
            relation,
            threshold: String::from_str(trim(tail)),
        },
    )
}

/// Parses an expression as a principal wrote it: the white space around it
/// is dropped and the text is read in lowercase.
pub fn parse_expression(expr: &str) -> (r: Result<Expression, FilterError>)
    ensures
        parse_view(r) == parsed(normalized(expr@)),
{
    let text: String = to_lowercase(trim(expr));
    parse_normalized(text.as_str())
}

impl Expression {
    /// Evaluates the expression. `threshold` is the number that the threshold
    /// text denotes, or nothing where that text is no number; `values` are
    /// the signals of the pair.
    pub fn evaluate(&self, threshold: Option<Binary64>, values: &Signals) -> (r: Result<
        bool,
        FilterError,
    >)
        ensures
            verdict_view(r) == outcome(self@, threshold, values@),
    {
        let limit: Binary64 = match threshold {
            Some(limit) => limit,
            None => {
                return Err(FilterError::InvalidExpression);
            },
        };
        match values.get(self.indicator.as_str()) {
            None => Err(FilterError::IndicatorMissing(self.indicator.clone())),
            Some(value) => match self.relation {
                Relation::Below => Ok(value.lt(limit)),
                Relation::Above => Ok(value.gt(limit)),
            },
        }
    }
}

/// A principal's auto-trade filter: the expression that gates its trades and
/// the interval at which the indicators are read.
#[derive(Debug, PartialEq, Eq)]
pub struct AutoTradeFilter {
    pub expression: String,
    pub interval: String,
}

/// What an `AutoTradeFilter` holds.
pub struct FilterModel {
    pub expression: Seq<char>,
    pub interval: Seq<char>,
}

impl View for AutoTradeFilter {
    type V = FilterModel;

    open spec fn view(&self) -> FilterModel {
        FilterModel { expression: self.expression@, interval: self.interval@ }
    }
}

impl Clone for AutoTradeFilter {
    fn clone(&self) -> (copy: AutoTradeFilter)
        ensures
            copy@ == self@,
    {
        AutoTradeFilter { expression: self.expression.clone(), interval: self.interval.clone() }
    }
}

/// What evaluating the expression `expr` yields: the error of its parse, or
/// the outcome of the parsed expression.
pub open spec fn evaluation(
    expr: Seq<char>,
    threshold: Option<Binary64>,
    values: Map<Seq<char>, Binary64>,
) -> Result<bool, FilterErrorModel> {
    match parsed(normalized(expr)) {
        Ok(x) => outcome(x, threshold, values),
        Err(e) => Err(e),
    }
}

impl AutoTradeFilter {
    /// The filter's expression, parsed.
    pub fn parse(&self) -> (r: Result<Expression, FilterError>)
        ensures
            parse_view(r) == parsed(normalized(self@.expression)),
    {
        parse_expression(self.expression.as_str())
    }

    /// Evaluates the filter against the signals of a pair, read at the
    /// filter's interval. `threshold` is the number that the threshold text of
    /// the parsed expression denotes, or nothing where it is no number.
    pub fn evaluate(&self, threshold: Option<Binary64>, values: &Signals) -> (r: Result<
        bool,
        FilterError,
    >)
        ensures
            verdict_view(r) == evaluation(self@.expression, threshold, values@),
    {
        match self.parse() {
            Ok(x) => x.evaluate(threshold, values),
            Err(e) => Err(e),
        }
    }
}

/// The filters in force: at most one per principal.
pub struct Registry {
    filters: StringHashMap<AutoTradeFilter>,
}

/// The registry after `principal` has set `filter`.
pub open spec fn after_set(
    filters: Map<Seq<char>, FilterModel>,
    principal: Seq<char>,
    filter: FilterModel,
) -> Map<Seq<char>, FilterModel> {
    filters.insert(principal, filter)
}

/// The registry after the filter of `principal` has been cleared.
pub open spec fn after_clear(filters: Map<Seq<char>, FilterModel>, principal: Seq<char>) -> Map<
    Seq<char>,
    FilterModel,
> {
    filters.remove(principal)
}

/// The filter that `principal` has in force, if any.
pub open spec fn filter_of(filters: Map<Seq<char>, FilterModel>, principal: Seq<char>) -> Option<
    FilterModel,
> {
    if filters.contains_key(principal) {
        Some(filters[principal])
    } else {
        None
    }
}

impl View for Registry {
    type V = Map<Seq<char>, FilterModel>;

    closed spec fn view(&self) -> Map<Seq<char>, FilterModel> {
        Map::new(|p: Seq<char>| self.filters@.contains_key(p), |p: Seq<char>| self.filters@[p]@)
    }
}

impl Default for Registry {
    fn default() -> (registry: Registry)
        ensures
            registry@ == Map::<Seq<char>, FilterModel>::empty(),
    {
        Registry::new()
    }
}

impl Registry {
    /// A registry without filters.
    pub fn new() -> (registry: Registry)
        ensures
            registry@ == Map::<Seq<char>, FilterModel>::empty(),
    {
        let registry = Registry { filters: StringHashMap::new() };
        assert(registry@ =~= Map::<Seq<char>, FilterModel>::empty());
        registry
    }

    /// Sets the filter of `principal`, replacing the one it had.
    pub fn set(&mut self, principal: String, filter: AutoTradeFilter)
        ensures
            final(self)@ == after_set(old(self)@, principal@, filter@),
    {
        self.filters.insert(principal, filter);
        assert(self@ =~= after_set(old(self)@, principal@, filter@));
    }

    /// Removes the filter of `principal`; nothing changes where it has none.
    pub fn clear(&mut self, principal: &str)
        ensures
            final(self)@ == after_clear(old(self)@, principal@),
    {
        self.filters.remove(principal);
        assert(self@ =~= after_clear(old(self)@, principal@));
    }

    /// A copy of the filter that `principal` has in force, if any.
    pub fn get(&self, principal: &str) -> (r: Option<AutoTradeFilter>)
        ensures
            match r {
                Some(filter) => filter_of(self@, principal@) == Some(filter@),
                None => filter_of(self@, principal@) is None,
            },
    {
        match self.filters.get(principal) {
            Some(filter) => Some(filter.clone()),
            None => None,
        }
    }
}

/// After a principal has set a filter, that filter is the one it has in force.
pub proof fn law_set_then_get(
    filters: Map<Seq<char>, FilterModel>,
    principal: Seq<char>,
    filter: FilterModel,
)
    ensures
        filter_of(after_set(filters, principal, filter), principal) == Some(filter),
{
}

/// After a principal's filter has been cleared, it has none in force.
pub proof fn law_clear_then_get(filters: Map<Seq<char>, FilterModel>, principal: Seq<char>)
    ensures
        filter_of(after_clear(filters, principal), principal) is None,
{
}

/// Setting or clearing the filter of one principal leaves the filter of
/// every other principal as it was.
pub proof fn law_principals_are_independent(
    filters: Map<Seq<char>, FilterModel>,
    principal: Seq<char>,
    other: Seq<char>,
    filter: FilterModel,
)
    requires
        principal != other,
    ensures
        filter_of(after_set(filters, principal, filter), other) == filter_of(filters, other),
        filter_of(after_clear(filters, principal), other) == filter_of(filters, other),
{
}

/// A text without operators holds neither `<` nor `>`.
pub proof fn lemma_operator_free(text: Seq<char>)
    requires
        operator_free(text),
    ensures
        first_index(text, '<') == text.len(),
        first_index(text, '>') == text.len(),
        forall|i: int| 0 <= i < text.len() ==> text[i] != '<' && text[i] != '>',
{
    lemma_first_index_bounds(text, '<');
    lemma_first_index_bounds(text, '>');
}

/// The text that joins an indicator, an operator and a threshold.
pub open spec fn comparison_text(indicator: Seq<char>, relation: Relation, threshold: Seq<char>) -> Seq<
    char,
> {
    indicator + seq![
        match relation {
            Relation::Below => '<',
            Relation::Above => '>',
        },
    ] + threshold
}

/// Where the normalized form of an expression is an indicator, one operator
/// and a threshold, neither of the two texts holding an operator, the
/// expression parses to just these three parts. Where moreover the threshold
/// denotes a number and the signals hold the indicator, it evaluates to the
/// comparison of the indicator's value with that number: strictly less for
/// `<`, strictly greater for `>`.
pub proof fn law_comparison(
    expr: Seq<char>,
    indicator: Seq<char>,
    relation: Relation,
    threshold: Seq<char>,
    limit: Binary64,
    values: Map<Seq<char>, Binary64>,
)
    requires
        normalized(expr) == comparison_text(indicator, relation, threshold),
        operator_free(indicator),
        operator_free(threshold),
        values.contains_key(trimmed(indicator)),
    ensures
        parsed(normalized(expr)) == Ok::<ExpressionModel, FilterErrorModel>(
            ExpressionModel {
                indicator: trimmed(indicator),
                relation,
                threshold: trimmed(threshold),
            },
        ),
        evaluation(expr, Some(limit), values) == Ok::<bool, FilterErrorModel>(
            match relation {
                Relation::Below => values[trimmed(indicator)].below(limit),
                Relation::Above => limit.below(values[trimmed(indicator)]),
            },
        ),
{
    let text = comparison_text(indicator, relation, threshold);
    let k = indicator.len() as int;
    lemma_operator_free(indicator);
    lemma_operator_free(threshold);
    assert forall|i: int| 0 <= i < k implies text[i] != '<' && text[i] != '>' by {
        assert(text[i] == indicator[i]);
    }
    assert forall|i: int| k < i < text.len() implies text[i] != '<' && text[i] != '>' by {
        assert(text[i] == threshold[i - k - 1]);
    }
    lemma_first_index_bounds(text, '<');
    lemma_first_index_bounds(text, '>');
    match relation {
        Relation::Below => {
            lemma_first_index(text, '<', k);
        },
        Relation::Above => {
            lemma_first_index(text, '>', k);
        },
    }
    assert(first_operator(text) == k);
    assert(text.take(k) =~= indicator);
    assert(text.skip(k + 1) =~= threshold);
}

/// An expression whose normalized form holds no operator is rejected as
/// invalid, whatever the threshold and the signals: it never evaluates to a
/// truth value.
pub proof fn law_operator_required(
    expr: Seq<char>,
    threshold: Option<Binary64>,
    values: Map<Seq<char>, Binary64>,
)
    requires
        operator_free(normalized(expr)),
    ensures
        evaluation(expr, threshold, values) == Err::<bool, FilterErrorModel>(
            FilterErrorModel::InvalidExpression,
        ),
{
}

} // verus!
