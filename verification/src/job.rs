//! Intents: the units of work pulled from the stream, and the two shapes
//! their payload takes, a control action or a trade request.

use vstd::prelude::*;
use crate::clock::{elapsed, utc_now, TimeSpan, Timestamp};
use crate::numeric::Number;
use crate::payload::{Payload, PayloadModel};
use crate::text::chars_of;

verus! {

/// One unit of instruction pulled from the stream.
#[derive(Debug, PartialEq, Eq)]
pub struct Intent {
    pub id: String,
    pub principal: String,
    pub payload: Payload,
    pub created_at: Timestamp,
}

/// What an `Intent` holds.
pub struct IntentModel {
    pub id: Seq<char>,
    pub principal: Seq<char>,
    pub payload: PayloadModel,
    pub created_at: Timestamp,
}

impl View for Intent {
    type V = IntentModel;

    open spec fn view(&self) -> IntentModel {
        IntentModel {
            id: self.id@,
            principal: self.principal@,
            payload: self.payload@,
            created_at: self.created_at,
        }
    }
}

/// The fields of a trade request, in the order in which they are declared.
#[derive(Clone, Copy, Debug, PartialEq, Eq, Structural)]
pub enum Field {
    Mode,
    Token,
    Size,
    SlippageBps,
    Side,
    Trigger,
    PaperTrading,
    Interval,
    Force,
}

/// Why a payload is no trade request.
#[derive(Clone, Copy, Debug, PartialEq, Eq, Structural)]
pub enum TradeError {
    /// The payload is neither an object nor a list.
    NotAStructure,
    /// The payload is a list that does not hold exactly one item per field.
    Length,
    /// The first field, in the order of their declaration, that is missing
    /// or holds a value of the wrong kind.
    Field(Field),
}

/// A request to trade.
#[derive(Debug, PartialEq, Eq)]
pub struct TradeRequest {
    pub mode: String,
    pub token: String,
    pub size: Number,
    pub slippage_bps: i64,
    pub side: String,
    pub trigger: String,
    pub paper_trading: bool,
    pub interval: Option<String>,
    pub force: Option<bool>,
}

/// What a `TradeRequest` holds.
pub struct TradeModel {
    pub mode: Seq<char>,
    pub token: Seq<char>,
    pub size: Number,
    pub slippage_bps: i64,
    pub side: Seq<char>,
    pub trigger: Seq<char>,
    pub paper_trading: bool,
    pub interval: Option<Seq<char>>,
    pub force: Option<bool>,
}

impl View for TradeRequest {
    type V = TradeModel;

    open spec fn view(&self) -> TradeModel {
        TradeModel {
            mode: self.mode@,
            token: self.token@,
            size: self.size,
            slippage_bps: self.slippage_bps,
            side: self.side@,
            trigger: self.trigger@,
            paper_trading: self.paper_trading,
            interval: match self.interval {
                Some(text) => Some(text@),
                None => None,
            },
            force: self.force,
        }
    }
}

impl Clone for TradeRequest {
    fn clone(&self) -> (copy: TradeRequest)
        ensures
            copy@ == self@,
    {
        TradeRequest {
            mode: self.mode.clone(),
            token: self.token.clone(),
            size: self.size,
            slippage_bps: self.slippage_bps,
            side: self.side.clone(),
            trigger: self.trigger.clone(),
            paper_trading: self.paper_trading,
            interval: match &self.interval {
                Some(text) => Some(text.clone()),
                None => None,
            },
            force: self.force,
        }
    }
}

impl Clone for Intent {
    fn clone(&self) -> (copy: Intent)
        ensures
            copy@ == self@,
    {
        Intent {
            id: self.id.clone(),
            principal: self.principal.clone(),
            payload: self.payload.clone(),
            created_at: self.created_at,
        }
    }
}

impl TradeModel {
    /// Whether the side is `buy`, in any mix of upper and lower case.
    pub open spec fn is_buy(self) -> bool {
        &&& self.side.len() == 3
        &&& (self.side[0] == 'b' || self.side[0] == 'B')
        &&& (self.side[1] == 'u' || self.side[1] == 'U')
        &&& (self.side[2] == 'y' || self.side[2] == 'Y')
    }

    /// The interval of the request, `1m` where it names none.
    pub open spec fn interval_or_default(self) -> Seq<char> {
        match self.interval {
            Some(text) => text,
            None => "1m"@,
        }
    }

    /// Whether the request overrides the filter; it does not where it says nothing.
    pub open spec fn forced(self) -> bool {
        match self.force {
            Some(flag) => flag,
            None => false,
        }
    }
}

impl TradeRequest {
    pub fn is_buy(&self) -> (r: bool)
        ensures
            r == self@.is_buy(),
    {
        let side: Vec<char> = chars_of(self.side.as_str());
        side.len() == 3 && (side[0] == 'b' || side[0] == 'B') && (side[1] == 'u' || side[1] == 'U')
            && (side[2] == 'y' || side[2] == 'Y')
    }

    pub fn interval(&self) -> (r: &str)
        ensures
            r@ == self@.interval_or_default(),
    {
        match &self.interval {
            Some(text) => text.as_str(),
            None => "1m",
        }
    }

    pub fn force(&self) -> (r: bool)
        ensures
            r == self@.forced(),
    {
        match self.force {
            Some(flag) => flag,
            None => false,
        }
    }
}

/// The value that stands for a field: in a list the item at the field's
/// position, in any other payload the member of the field's name.
pub open spec fn slot_of(payload: PayloadModel, position: int, name: Seq<char>) -> Option<
    PayloadModel,
> {
    match payload {
        PayloadModel::List(items) => if 0 <= position < items.len() {
            Some(items[position])
        } else {
            None
        },
        _ => payload.member(name),
    }
}

/// A field that must be a text.
pub open spec fn text_in(slot: Option<PayloadModel>) -> Option<Seq<char>> {
    match slot {
        Some(PayloadModel::Text(text)) => Some(text),
        _ => None,
    }
}

/// A field that must be a flag.
pub open spec fn flag_in(slot: Option<PayloadModel>) -> Option<bool> {
    match slot {
        Some(PayloadModel::Bool(flag)) => Some(flag),
        _ => None,
    }
}

/// A field that must be a number, of any shape.
pub open spec fn number_in(slot: Option<PayloadModel>) -> Option<Number> {
    match slot {
        Some(PayloadModel::Number(n)) => Some(n),
        _ => None,
    }
}

/// A field that must be an integer within the range of `i64`.
pub open spec fn integer_in(slot: Option<PayloadModel>) -> Option<i64> {
    match slot {
        Some(PayloadModel::Number(Number::PosInt(n))) => if n <= i64::MAX {
            Some(n as i64)
        } else {
            None
        },
        Some(PayloadModel::Number(Number::NegInt(n))) => Some(n),
        _ => None,
    }
}

/// A field that may be missing or null, and else must be a text. The outer
/// option says whether the field is acceptable.
pub open spec fn optional_text_in(slot: Option<PayloadModel>) -> Option<Option<Seq<char>>> {
    match slot {
        None => Some(None),
        Some(PayloadModel::Null) => Some(None),
        Some(PayloadModel::Text(text)) => Some(Some(text)),
        _ => None,
    }
}

/// A field that may be missing or null, and else must be a flag. The outer
/// option says whether the field is acceptable.
pub open spec fn optional_flag_in(slot: Option<PayloadModel>) -> Option<Option<bool>> {
    match slot {
        None => Some(None),
        Some(PayloadModel::Null) => Some(None),
        Some(PayloadModel::Bool(flag)) => Some(Some(flag)),
        _ => None,
    }
}

/// The number of fields of a trade request.
pub const FIELD_COUNT: usize = 9;

/// The trade request that a payload denotes. An object gives each field by
/// name, and may leave out `interval` and `force`; a list gives all nine by
/// position. Members of other names are ignored.
pub open spec fn trade_of(payload: PayloadModel) -> Result<TradeModel, TradeError> {
    if !(payload is Object || payload is List) {
        Err(TradeError::NotAStructure)
    } else if payload is List && payload->List_0.len() != FIELD_COUNT {
        Err(TradeError::Length)
    } else if text_in(slot_of(payload, 0, "mode"@)) is None {
        Err(TradeError::Field(Field::Mode))
    } else if text_in(slot_of(payload, 1, "token"@)) is None {
        Err(TradeError::Field(Field::Token))
    } else if number_in(slot_of(payload, 2, "size"@)) is None {
        Err(TradeError::Field(Field::Size))
    } else if integer_in(slot_of(payload, 3, "slippage_bps"@)) is None {
        Err(TradeError::Field(Field::SlippageBps))
    } else if text_in(slot_of(payload, 4, "side"@)) is None {
        Err(TradeError::Field(Field::Side))
    } else if text_in(slot_of(payload, 5, "trigger"@)) is None {
        Err(TradeError::Field(Field::Trigger))
    } else if flag_in(slot_of(payload, 6, "paper_trading"@)) is None {
        Err(TradeError::Field(Field::PaperTrading))
    } else if optional_text_in(slot_of(payload, 7, "interval"@)) is None {
        Err(TradeError::Field(Field::Interval))
    } else if optional_flag_in(slot_of(payload, 8, "force"@)) is None {
        Err(TradeError::Field(Field::Force))
    } else {
        Ok(
            TradeModel {
                mode: text_in(slot_of(payload, 0, "mode"@))->0,
                token: text_in(slot_of(payload, 1, "token"@))->0,
                size: number_in(slot_of(payload, 2, "size"@))->0,
                slippage_bps: integer_in(slot_of(payload, 3, "slippage_bps"@))->0,
                side: text_in(slot_of(payload, 4, "side"@))->0,
                trigger: text_in(slot_of(payload, 5, "trigger"@))->0,
                paper_trading: flag_in(slot_of(payload, 6, "paper_trading"@))->0,
                interval: optional_text_in(slot_of(payload, 7, "interval"@))->0,
                force: optional_flag_in(slot_of(payload, 8, "force"@))->0,
            },
        )
    }
}

/// The control action that a payload denotes, if it denotes one: the text of
/// its member `action`, with its member `payload` or, where it has none, an
/// object without members.
pub open spec fn action_of(payload: PayloadModel) -> Option<(Seq<char>, PayloadModel)> {
    match payload.text_member("action"@) {
        Some(action) => Some(
            (
                action,
                match payload.member("payload"@) {
                    Some(body) => body,
                    None => PayloadModel::Object(Seq::empty()),
                },
            ),
        ),
        None => None,
    }
}

fn slot<'a>(payload: &'a Payload, position: usize, name: &str) -> (r: Option<&'a Payload>)
    ensures
        match r {
            Some(value) => slot_of(payload@, position as int, name@) == Some(value@),
            None => slot_of(payload@, position as int, name@) is None,
        },
{
    match payload {
        Payload::List(items) => if position < items.len() {
            Some(&items[position])
        } else {
            None
        },
        _ => payload.get(name),
    }
}

fn text_field(slot: Option<&Payload>) -> (r: Option<String>)
    ensures
        match r {
            Some(text) => text_in(view_of(slot)) == Some(text@),
            None => text_in(view_of(slot)) is None,
        },
{
    match slot {
        Some(Payload::Text(text)) => Some(text.clone()),
        _ => None,
    }
}

fn flag_field(slot: Option<&Payload>) -> (r: Option<bool>)
    ensures
        r == flag_in(view_of(slot)),
{
    match slot {
        Some(Payload::Bool(flag)) => Some(*flag),
        _ => None,
    }
}

fn number_field(slot: Option<&Payload>) -> (r: Option<Number>)
    ensures
        r == number_in(view_of(slot)),
{
    match slot {
        Some(Payload::Number(n)) => Some(*n),
        _ => None,
    }
}

fn integer_field(slot: Option<&Payload>) -> (r: Option<i64>)
    ensures
        r == integer_in(view_of(slot)),
{
    match slot {
        Some(Payload::Number(Number::PosInt(n))) => if *n <= i64::MAX as u64 {
            Some(*n as i64)
        } else {
            None
        },
        Some(Payload::Number(Number::NegInt(n))) => Some(*n),
        _ => None,
    }
}

fn optional_text_field(slot: Option<&Payload>) -> (r: Option<Option<String>>)
    ensures
        match r {
            Some(Some(text)) => optional_text_in(view_of(slot)) == Some(Some(text@)),
            Some(None) => optional_text_in(view_of(slot)) == Some(None::<Seq<char>>),
            None => optional_text_in(view_of(slot)) is None,
        },
{
    match slot {
        None => Some(None),
        Some(Payload::Null) => Some(None),
        Some(Payload::Text(text)) => Some(Some(text.clone())),
        _ => None,
    }
}

fn optional_flag_field(slot: Option<&Payload>) -> (r: Option<Option<bool>>)
    ensures
        r == optional_flag_in(view_of(slot)),
{
    match slot {
        None => Some(None),
        Some(Payload::Null) => Some(None),
        Some(Payload::Bool(flag)) => Some(Some(*flag)),
        _ => None,
    }
}

/// The model of a value that may be absent.
pub open spec fn view_of(slot: Option<&Payload>) -> Option<PayloadModel> {
    match slot {
        Some(value) => Some(value@),
        None => None,
    }
}

/// The views of the result of reading a trade request.
pub open spec fn trade_view(r: Result<TradeRequest, TradeError>) -> Result<TradeModel, TradeError> {
    match r {
        Ok(trade) => Ok(trade@),
        Err(e) => Err(e),
    }
}

/// Reads a payload as a trade request.
pub fn read_trade(payload: &Payload) -> (r: Result<TradeRequest, TradeError>)
    ensures
        trade_view(r) == trade_of(payload@),
{
    match payload {
        Payload::Object(_) => {},
        Payload::List(items) => {
            if items.len() != FIELD_COUNT {
                return Err(TradeError::Length);
            }
        },
        _ => {
            return Err(TradeError::NotAStructure);
        },
    }
    let mode: String = match text_field(slot(payload, 0, "mode")) {
        Some(text) => text,
        None => {
            return Err(TradeError::Field(Field::Mode));
        },
    };
    let token: String = match text_field(slot(payload, 1, "token")) {
        Some(text) => text,
        None => {
            return Err(TradeError::Field(Field::Token));
        },
    };
    let size: Number = match number_field(slot(payload, 2, "size")) {
        Some(n) => n,
        None => {
            return Err(TradeError::Field(Field::Size));
        },
    };
    let slippage_bps: i64 = match integer_field(slot(payload, 3, "slippage_bps")) {
        Some(n) => n,
        None => {
            return Err(TradeError::Field(Field::SlippageBps));
        },
    };
    let side: String = match text_field(slot(payload, 4, "side")) {
        Some(text) => text,
        None => {
            return Err(TradeError::Field(Field::Side));
        },
    };
    let trigger: String = match text_field(slot(payload, 5, "trigger")) {
        Some(text) => text,
        None => {
            return Err(TradeError::Field(Field::Trigger));
        },
    };
    let paper_trading: bool = match flag_field(slot(payload, 6, "paper_trading")) {
        Some(flag) => flag,
        None => {
            return Err(TradeError::Field(Field::PaperTrading));
        },
    };
    let interval: Option<String> = match optional_text_field(slot(payload, 7, "interval")) {
        Some(text) => text,
        None => {
            return Err(TradeError::Field(Field::Interval));
        },
    };
    let force: Option<bool> = match optional_flag_field(slot(payload, 8, "force")) {
        Some(flag) => flag,
        None => {
            return Err(TradeError::Field(Field::Force));
        },
    };
    Ok(
        TradeRequest {
            mode,
            token,
            size,
            slippage_bps,
            side,
            trigger,
            paper_trading,
            interval,
            force,
        },
    )
}

impl Intent {
    /// The payload read as a trade request.
    pub fn parse_trade(&self) -> (r: Result<TradeRequest, TradeError>)
        ensures
            trade_view(r) == trade_of(self.payload@),
    {
        read_trade(&self.payload)
    }

    /// The payload read as a control action: its name and its own payload.
    pub fn parse_action(&self) -> (r: Option<(String, Payload)>)
        ensures
            match r {
                Some((action, body)) => action_of(self.payload@) == Some((action@, body@)),
                None => action_of(self.payload@) is None,
            },
    {
        match self.payload.get_str("action") {
            Some(action) => {
                let body: Payload = match self.payload.get("payload") {
                    Some(body) => body.clone(),
                    None => Payload::empty_object(),
                };
                Some((String::from_str(action), body))
            },
            None => None,
        }
    }

    /// The time that has passed since the intent was created, at `now`.
    pub fn age_at(&self, now: &Timestamp) -> (age: TimeSpan)
        ensures
            age.nanoseconds == elapsed(self.created_at, *now),
    {
        self.created_at.until(now)
    }

    /// The time that has passed since the intent was created, by the system
    /// clock: the age at the time the clock gave.
    pub fn age(&self) -> (age: TimeSpan)
        ensures
            exists|now: Timestamp| age.nanoseconds == elapsed(self.created_at, now),
    {
        let now: Timestamp = utc_now();
        self.age_at(&now)
    }
}

} // verus!
