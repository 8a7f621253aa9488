//! The ingestion loop as a state machine: from the state and what has just
//! happened to the next state and what to do next. The caller performs each
//! action and reports back with the event that ends it.

use vstd::prelude::*;
use crate::job::{Intent, IntentModel};
use crate::stream::{entry_models, framed, parse_stream, Entry, EntryModel, Reply, ReplyModel};

verus! {

/// How long a failed read is left alone before the next one, in milliseconds.
pub const BACKOFF_MILLIS: u64 = 1000;

/// The texts of a list of strings.
pub open spec fn texts(words: Seq<String>) -> Seq<Seq<char>> {
    Seq::new(words.len(), |i: int| words[i]@)
}

/// The command that creates the consumer group at the beginning of the
/// stream, and the stream with it where there is none.
pub open spec fn group_command(stream: Seq<char>, group: Seq<char>) -> Seq<Seq<char>> {
    seq!["XGROUP"@, "CREATE"@, stream, group, "0"@, "MKSTREAM"@]
}

/// The command that reads one entry not yet delivered to the group, waiting
/// up to five seconds for it.
pub open spec fn read_command(group: Seq<char>, consumer: Seq<char>, stream: Seq<char>) -> Seq<
    Seq<char>,
> {
    seq![
        "XREADGROUP"@,
        "GROUP"@,
        group,
        consumer,
        "BLOCK"@,
        "5000"@,
        "COUNT"@,
        "1"@,
        "STREAMS"@,
        stream,
        ">"@,
    ]
}

/// The command that acknowledges the delivery `id`.
pub open spec fn ack_command(stream: Seq<char>, group: Seq<char>, id: Seq<char>) -> Seq<Seq<char>> {
    seq!["XACK"@, stream, group, id]
}

/// The words of the command that creates the consumer group.
pub fn ensure_stream_group(stream: &str, group: &str) -> (words: Vec<String>)
    ensures
        texts(words@) == group_command(stream@, group@),
{
    let mut words: Vec<String> = Vec::new();
    words.push(String::from_str("XGROUP"));
    words.push(String::from_str("CREATE"));
    words.push(String::from_str(stream));
    words.push(String::from_str(group));
    words.push(String::from_str("0"));
    words.push(String::from_str("MKSTREAM"));
    assert(texts(words@) =~= group_command(stream@, group@));
    words
}

/// What the machine waits for.
#[derive(Debug, PartialEq, Eq)]
pub enum Phase {
    /// A read is under way.
    Waiting,
    /// A read has failed, and the pause before the next one is under way.
    Backoff,
    /// The intent of the delivery `id` is being parsed.
    Parsing { id: String, rest: Vec<Entry> },
    /// The intent of the delivery `id` is being handled.
    Dispatching { id: String, rest: Vec<Entry> },
    /// An acknowledgment is under way.
    Acking { rest: Vec<Entry> },
}

/// What a `Phase` holds. `rest` are the entries of the batch that are still
/// to come.
pub enum PhaseModel {
    Waiting,
    Backoff,
    Parsing { id: Seq<char>, rest: Seq<EntryModel> },
    Dispatching { id: Seq<char>, rest: Seq<EntryModel> },
    Acking { rest: Seq<EntryModel> },
}

impl View for Phase {
    type V = PhaseModel;

    open spec fn view(&self) -> PhaseModel {
        match self {
            Phase::Waiting => PhaseModel::Waiting,
            Phase::Backoff => PhaseModel::Backoff,
            Phase::Parsing { id, rest } => PhaseModel::Parsing {
                id: id@,
                rest: entry_models(rest@),
            },
            Phase::Dispatching { id, rest } => PhaseModel::Dispatching {
                id: id@,
                rest: entry_models(rest@),
            },
            Phase::Acking { rest } => PhaseModel::Acking { rest: entry_models(rest@) },
        }
    }
}

/// What has just happened.
#[derive(Debug, PartialEq, Eq)]
pub enum Event {
    /// The read failed: the broker could not be reached, or refused.
    ReadFailed,
    /// The read came back with a reply.
    ReadDone(Reply),
    /// The pause after a failed read is over.
    BackoffDone,
    /// The bytes of the entry are an intent.
    Parsed(Intent),
    /// The bytes of the entry are no intent.
    ParseFailed,
    /// The intent has been handled, with whatever outcome.
    Handled,
    /// The acknowledgment has been sent, with whatever outcome.
    Acked,
}

/// What an `Event` holds.
pub enum EventModel {
    ReadFailed,
    ReadDone(ReplyModel),
    BackoffDone,
    Parsed(IntentModel),
    ParseFailed,
    Handled,
    Acked,
}

impl View for Event {
    type V = EventModel;

    open spec fn view(&self) -> EventModel {
        match self {
            Event::ReadFailed => EventModel::ReadFailed,
            Event::ReadDone(reply) => EventModel::ReadDone(reply@),
            Event::BackoffDone => EventModel::BackoffDone,
            Event::Parsed(intent) => EventModel::Parsed(intent@),
            Event::ParseFailed => EventModel::ParseFailed,
            Event::Handled => EventModel::Handled,
            Event::Acked => EventModel::Acked,
        }
    }
}

/// What to do next.
#[derive(Debug, PartialEq, Eq)]
pub enum Action {
    /// Send the words as a read command and report the reply.
    Read(Vec<String>),
    /// Pause for so many milliseconds.
    Sleep(u64),
    /// Parse the bytes as an intent.
    Parse(Vec<u8>),
    /// Handle the intent.
    Dispatch(Intent),
    /// Send the words as an acknowledgment.
    Ack(Vec<String>),
    /// The event was none that the machine waits for: nothing is to be done.
    Nothing,
}

/// What an `Action` holds.
pub enum ActionModel {
    Read(Seq<Seq<char>>),
    Sleep(u64),
    Parse(Seq<u8>),
    Dispatch(IntentModel),
    Ack(Seq<Seq<char>>),
    Nothing,
}

impl View for Action {
    type V = ActionModel;

    open spec fn view(&self) -> ActionModel {
        match self {
            Action::Read(words) => ActionModel::Read(texts(words@)),
            Action::Sleep(millis) => ActionModel::Sleep(*millis),
            Action::Parse(raw) => ActionModel::Parse(raw@),
            Action::Dispatch(intent) => ActionModel::Dispatch(intent@),
            Action::Ack(words) => ActionModel::Ack(texts(words@)),
            Action::Nothing => ActionModel::Nothing,
        }
    }
}

/// The names under which a worker reads.
pub struct Names {
    pub stream: Seq<char>,
    pub group: Seq<char>,
    pub consumer: Seq<char>,
}

/// The step that takes up what is left of a batch: the first entry goes to
/// parsing; with nothing left the next read begins.
pub open spec fn take_up(names: Names, entries: Seq<EntryModel>) -> (PhaseModel, ActionModel) {
    if entries.len() == 0 {
        (
            PhaseModel::Waiting,
            ActionModel::Read(read_command(names.group, names.consumer, names.stream)),
        )
    } else {
        (
            PhaseModel::Parsing { id: entries[0].id, rest: entries.skip(1) },
            ActionModel::Parse(entries[0].raw),
        )
    }
}

/// The step of the machine. A failed read is followed by a pause and a new
/// read. A reply is framed into entries, which are taken up one after the
/// other: an entry that parses is dispatched and then acknowledged, one
/// that does not parse is acknowledged at once. An event that the phase
/// does not wait for changes nothing.
pub open spec fn next(names: Names, phase: PhaseModel, event: EventModel) -> (
    PhaseModel,
    ActionModel,
) {
    match (phase, event) {
        (PhaseModel::Waiting, EventModel::ReadFailed) => (
            PhaseModel::Backoff,
            ActionModel::Sleep(BACKOFF_MILLIS),
        ),
        (PhaseModel::Backoff, EventModel::BackoffDone) => take_up(names, Seq::empty()),
        (PhaseModel::Waiting, EventModel::ReadDone(reply)) => match framed(reply) {
            Some(entries) => take_up(names, entries),
            None => take_up(names, Seq::empty()),
        },
        (PhaseModel::Parsing { id, rest }, EventModel::Parsed(intent)) => (
            PhaseModel::Dispatching { id, rest },
            ActionModel::Dispatch(intent),
        ),
        (PhaseModel::Parsing { id, rest }, EventModel::ParseFailed) => (
            PhaseModel::Acking { rest },
            ActionModel::Ack(ack_command(names.stream, names.group, id)),
        ),
        (PhaseModel::Dispatching { id, rest }, EventModel::Handled) => (
            PhaseModel::Acking { rest },
            ActionModel::Ack(ack_command(names.stream, names.group, id)),
        ),
        (PhaseModel::Acking { rest }, EventModel::Acked) => take_up(names, rest),
        _ => (phase, ActionModel::Nothing),
    }
}

/// The ingestion loop of one consumer.
#[derive(Debug, PartialEq, Eq)]
pub struct Worker {
    pub stream: String,
    pub group: String,
    pub consumer: String,
    pub phase: Phase,
}

impl Worker {
    /// The names under which the worker reads.
    pub open spec fn names(&self) -> Names {
        Names { stream: self.stream@, group: self.group@, consumer: self.consumer@ }
    }

    /// A worker with its first read under way, and that read.
    pub fn start(stream: String, group: String, consumer: String) -> (r: (Worker, Action))
        ensures
            r.0.stream@ == stream@,
            r.0.group@ == group@,
            r.0.consumer@ == consumer@,
            (r.0.phase@, r.1@) == take_up(r.0.names(), Seq::empty()),
    {
        let worker = Worker { stream, group, consumer, phase: Phase::Waiting };
        let action = Action::Read(worker.read_words());
        (worker, action)
    }

    fn read_words(&self) -> (words: Vec<String>)
        ensures
            texts(words@) == read_command(self.group@, self.consumer@, self.stream@),
    {
        let mut words: Vec<String> = Vec::new();
        words.push(String::from_str("XREADGROUP"));
        words.push(String::from_str("GROUP"));
        words.push(self.group.clone());
        words.push(self.consumer.clone());
        words.push(String::from_str("BLOCK"));
        words.push(String::from_str("5000"));
        words.push(String::from_str("COUNT"));
        words.push(String::from_str("1"));
        words.push(String::from_str("STREAMS"));
        words.push(self.stream.clone());
        words.push(String::from_str(">"));
        assert(texts(words@) =~= read_command(self.group@, self.consumer@, self.stream@));
        words
    }

    fn ack_words(&self, id: String) -> (words: Vec<String>)
        ensures
            texts(words@) == ack_command(self.stream@, self.group@, id@),
    {
        let mut words: Vec<String> = Vec::new();
        words.push(String::from_str("XACK"));
        words.push(self.stream.clone());
        words.push(self.group.clone());
        words.push(id);
        assert(texts(words@) =~= ack_command(self.stream@, self.group@, id@));
        words
    }

    fn take_up(&self, entries: Vec<Entry>) -> (r: (Phase, Action))
        ensures
            (r.0@, r.1@) == take_up(self.names(), entry_models(entries@)),
    {
        let mut entries = entries;
        if entries.len() == 0 {
            (Phase::Waiting, Action::Read(self.read_words()))
        } else {
            let ghost before = entry_models(entries@);
            let first: Entry = entries.remove(0);
            assert(entry_models(entries@) =~= before.skip(1));
            assert(before[0] == first@);
            (Phase::Parsing { id: first.id, rest: entries }, Action::Parse(first.raw))
        }
    }

    /// Takes the machine one step on: the worker after `event`, and what to
    /// do next.
    pub fn step(self, event: Event) -> (r: (Worker, Action))
        ensures
            r.0.names() == self.names(),
            (r.0.phase@, r.1@) == next(self.names(), self.phase@, event@),
    {
        let Worker { stream, group, consumer, phase } = self;
        let shell = Worker { stream, group, consumer, phase: Phase::Waiting };
        let (phase, action): (Phase, Action) = match (phase, event) {
            (Phase::Waiting, Event::ReadFailed) => (Phase::Backoff, Action::Sleep(BACKOFF_MILLIS)),
            (Phase::Backoff, Event::BackoffDone) => {
                let none: Vec<Entry> = Vec::new();
                assert(entry_models(none@) =~= Seq::empty());
                shell.take_up(none)
            },
            (Phase::Waiting, Event::ReadDone(reply)) => match parse_stream(&reply) {
                Some(entries) => shell.take_up(entries),
                None => {
                    let none: Vec<Entry> = Vec::new();
                    assert(entry_models(none@) =~= Seq::empty());
                    shell.take_up(none)
                },
            },
            (Phase::Parsing { id, rest }, Event::Parsed(intent)) => (
                Phase::Dispatching { id, rest },
                Action::Dispatch(intent),
            ),
            (Phase::Parsing { id, rest }, Event::ParseFailed) => {
                let words = shell.ack_words(id);
                (Phase::Acking { rest }, Action::Ack(words))
            },
            (Phase::Dispatching { id, rest }, Event::Handled) => {
                let words = shell.ack_words(id);
                (Phase::Acking { rest }, Action::Ack(words))
            },
            (Phase::Acking { rest }, Event::Acked) => shell.take_up(rest),
            (phase, _) => (phase, Action::Nothing),
        };
        let Worker { stream, group, consumer, phase: _ } = shell;
        (Worker { stream, group, consumer, phase }, action)
    }
}

/// An entry whose bytes are no intent is acknowledged at once, under its own
/// delivery id, and is not among the entries that the machine still holds:
/// the broker has no cause to deliver it again.
pub proof fn law_malformed_entry_is_acknowledged(
    names: Names,
    id: Seq<char>,
    rest: Seq<EntryModel>,
)
    ensures
        next(names, PhaseModel::Parsing { id, rest }, EventModel::ParseFailed) == (
            PhaseModel::Acking { rest },
            ActionModel::Ack(ack_command(names.stream, names.group, id)),
        ),
{
}

/// An intent that has been handled is acknowledged under its delivery id;
/// the machine never learns how the handling ended, so no outcome can hold
/// the acknowledgment back.
pub proof fn law_handled_entry_is_acknowledged(
    names: Names,
    id: Seq<char>,
    rest: Seq<EntryModel>,
)
    ensures
        next(names, PhaseModel::Dispatching { id, rest }, EventModel::Handled) == (
            PhaseModel::Acking { rest },
            ActionModel::Ack(ack_command(names.stream, names.group, id)),
        ),
{
}

/// The actions that the machine asks for, from `phase` on, as the events
/// `events` are reported to it one after the other.
pub open spec fn run(names: Names, phase: PhaseModel, events: Seq<EventModel>) -> Seq<ActionModel>
    decreases events.len(),
{
    if events.len() == 0 {
        Seq::empty()
    } else {
        seq![next(names, phase, events[0]).1] + run(
            names,
            next(names, phase, events[0]).0,
            events.skip(1),
        )
    }
}

/// The events that a faithful caller reports for a batch: for each entry
/// what its parse gave, then, for an intent, that it was handled, and then
/// that the acknowledgment was sent. `parses` holds for each entry the
/// intent that its bytes are, or nothing where they are none.
pub open spec fn reports(parses: Seq<Option<IntentModel>>) -> Seq<EventModel>
    decreases parses.len(),
{
    if parses.len() == 0 {
        Seq::empty()
    } else {
        (match parses[0] {
            Some(intent) => seq![
                EventModel::Parsed(intent),
                EventModel::Handled,
                EventModel::Acked,
            ],
            None => seq![EventModel::ParseFailed, EventModel::Acked],
        }) + reports(parses.skip(1))
    }
}

/// The acknowledgments among `actions`, in order.
pub open spec fn acknowledgments(actions: Seq<ActionModel>) -> Seq<Seq<Seq<char>>>
    decreases actions.len(),
{
    if actions.len() == 0 {
        Seq::empty()
    } else {
        (match actions[0] {
            ActionModel::Ack(words) => seq![words],
            _ => Seq::empty(),
        }) + acknowledgments(actions.skip(1))
    }
}

/// One acknowledgment for each of `entries`, in order.
pub open spec fn due_acknowledgments(names: Names, entries: Seq<EntryModel>) -> Seq<Seq<Seq<char>>>
    decreases entries.len(),
{
    if entries.len() == 0 {
        Seq::empty()
    } else {
        seq![ack_command(names.stream, names.group, entries[0].id)] + due_acknowledgments(
            names,
            entries.skip(1),
        )
    }
}

proof fn lemma_acknowledgments_of_one(action: ActionModel)
    ensures
        acknowledgments(seq![action]) == (match action {
            ActionModel::Ack(words) => seq![words],
            _ => Seq::<Seq<Seq<char>>>::empty(),
        }),
{
    let one = seq![action];
    assert(one.skip(1) =~= Seq::<ActionModel>::empty());
    assert(acknowledgments(one.skip(1)) =~= Seq::<Seq<Seq<char>>>::empty());
    assert(acknowledgments(one) =~= (match action {
        ActionModel::Ack(words) => seq![words],
        _ => Seq::<Seq<Seq<char>>>::empty(),
    }));
}

proof fn lemma_acknowledgments_split(head: Seq<ActionModel>, tail: Seq<ActionModel>)
    ensures
        acknowledgments(head + tail) == acknowledgments(head) + acknowledgments(tail),
    decreases head.len(),
{
    if head.len() == 0 {
        assert(head + tail =~= tail);
        assert(acknowledgments(head) + acknowledgments(tail) =~= acknowledgments(tail));
    } else {
        lemma_acknowledgments_split(head.skip(1), tail);
        assert((head + tail).skip(1) =~= head.skip(1) + tail);
        assert((head + tail)[0] == head[0]);
        assert(acknowledgments(head + tail) =~= acknowledgments(head) + acknowledgments(tail));
    }
}

/// Whatever the entries of a batch hold, each is acknowledged exactly once,
/// under its own delivery id and in the order of the batch: an entry whose
/// bytes are no intent just as one whose intent was handled. So no entry
/// of a batch is left for the broker to deliver again.
pub proof fn law_every_entry_is_acknowledged_once(
    names: Names,
    entries: Seq<EntryModel>,
    parses: Seq<Option<IntentModel>>,
)
    requires
        parses.len() == entries.len(),
    ensures
        acknowledgments(run(names, take_up(names, entries).0, reports(parses)))
            == due_acknowledgments(names, entries),
    decreases entries.len(),
{
    let start = take_up(names, entries).0;
    if entries.len() == 0 {
        assert(reports(parses).len() == 0);
    } else {
        let id = entries[0].id;
        let rest = entries.skip(1);
        let later = reports(parses.skip(1));
        let events = reports(parses);
        let ack = ActionModel::Ack(ack_command(names.stream, names.group, id));
        let then = take_up(names, rest);
        law_every_entry_is_acknowledged_once(names, rest, parses.skip(1));
        assert(!(then.1 is Ack));
        match parses[0] {
            Some(intent) => {
                let first = seq![EventModel::Parsed(intent), EventModel::Handled, EventModel::Acked];
                assert(events =~= first + later);
                assert(events.skip(1) =~= seq![EventModel::Handled, EventModel::Acked] + later);
                assert(events.skip(1).skip(1) =~= seq![EventModel::Acked] + later);
                assert(events.skip(1).skip(1).skip(1) =~= later);
                let dispatching = PhaseModel::Dispatching { id, rest };
                let acking = PhaseModel::Acking { rest };
                assert(next(names, start, events[0]) == (
                    dispatching,
                    ActionModel::Dispatch(intent),
                ));
                assert(next(names, dispatching, events.skip(1)[0]) == (acking, ack));
                assert(next(names, acking, events.skip(1).skip(1)[0]) == then);
                let tail = run(names, then.0, later);
                assert(run(names, acking, events.skip(1).skip(1)) =~= seq![then.1] + tail);
                assert(run(names, dispatching, events.skip(1)) =~= seq![ack, then.1] + tail);
                assert(run(names, start, events) =~= seq![
                    ActionModel::Dispatch(intent),
                    ack,
                    then.1,
                ] + tail);
                let head = seq![ActionModel::Dispatch(intent), ack, then.1];
                lemma_acknowledgments_split(head, tail);
                assert(head.skip(1) =~= seq![ack, then.1]);
                assert(head.skip(1).skip(1) =~= seq![then.1]);
                assert(head.skip(1).skip(1).skip(1) =~= Seq::<ActionModel>::empty());
                lemma_acknowledgments_of_one(then.1);
                assert(acknowledgments(seq![ack, then.1]) =~= seq![
                    ack_command(names.stream, names.group, id),
                ]);
                assert(acknowledgments(head) =~= seq![ack_command(names.stream, names.group, id)]);
            },
            None => {
                let first = seq![EventModel::ParseFailed, EventModel::Acked];
                assert(events =~= first + later);
                assert(events.skip(1) =~= seq![EventModel::Acked] + later);
                assert(events.skip(1).skip(1) =~= later);
                let acking = PhaseModel::Acking { rest };
                assert(next(names, start, events[0]) == (acking, ack));
                assert(next(names, acking, events.skip(1)[0]) == then);
                let tail = run(names, then.0, later);
                assert(run(names, acking, events.skip(1)) =~= seq![then.1] + tail);
                assert(run(names, start, events) =~= seq![ack, then.1] + tail);
                let head = seq![ack, then.1];
                lemma_acknowledgments_split(head, tail);
                assert(head.skip(1) =~= seq![then.1]);
                assert(head.skip(1).skip(1) =~= Seq::<ActionModel>::empty());
                lemma_acknowledgments_of_one(then.1);
                assert(acknowledgments(head) =~= seq![ack_command(names.stream, names.group, id)]);
            },
        }
    }
}

} // verus!
