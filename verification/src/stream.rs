//! Replies of the broker to a group read, and the entries framed in them.

use vstd::prelude::*;
use vstd::utf8::{decode_utf8, valid_utf8};

verus! {

/// A reply of the broker.
#[derive(Debug, PartialEq, Eq)]
pub enum Reply {
    Nil,
    Int(i64),
    Data(Vec<u8>),
    Bulk(Vec<Reply>),
    Status(String),
    Okay,
}

/// What a `Reply` holds.
pub enum ReplyModel {
    Nil,
    Int(i64),
    Data(Seq<u8>),
    Bulk(Seq<ReplyModel>),
    Status(Seq<char>),
    Okay,
}

impl Reply {
    /// What this reply holds.
    pub open spec fn model(&self) -> ReplyModel
        decreases self,
    {
        match self {
            Reply::Nil => ReplyModel::Nil,
            Reply::Int(n) => ReplyModel::Int(*n),
            Reply::Data(bytes) => ReplyModel::Data(bytes@),
            Reply::Bulk(items) => ReplyModel::Bulk(
                Seq::new(
                    items@.len(),
                    |i: int|
                        if 0 <= i < items@.len() {
                            items@[i].model()
                        } else {
                            ReplyModel::Nil
                        },
                ),
            ),
            Reply::Status(text) => ReplyModel::Status(text@),
            Reply::Okay => ReplyModel::Okay,
        }
    }
}

impl View for Reply {
    type V = ReplyModel;

    open spec fn view(&self) -> ReplyModel {
        self.model()
    }
}

/// The models of a list of replies.
pub open spec fn models(items: Seq<Reply>) -> Seq<ReplyModel> {
    Seq::new(items.len(), |i: int| items[i]@)
}

/// A delivered entry: its delivery id and the bytes of its intent.
#[derive(Debug, PartialEq, Eq)]
pub struct Entry {
    pub id: String,
    pub raw: Vec<u8>,
}

/// What an `Entry` holds.
pub struct EntryModel {
    pub id: Seq<char>,
    pub raw: Seq<u8>,
}

impl View for Entry {
    type V = EntryModel;

    open spec fn view(&self) -> EntryModel {
        EntryModel { id: self.id@, raw: self.raw@ }
    }
}

/// The models of a list of entries.
pub open spec fn entry_models(entries: Seq<Entry>) -> Seq<EntryModel> {
    Seq::new(entries.len(), |i: int| entries[i]@)
}

/// The text that a lossy reading of `bytes` as UTF-8 gives.
pub uninterp spec fn lossy_text(bytes: Seq<u8>) -> Seq<char>;

/// The text of a delivery id: the text that the bytes encode where they are
/// valid UTF-8, and else their lossy reading.
pub open spec fn id_text(bytes: Seq<u8>) -> Seq<char> {
    if valid_utf8(bytes) {
        decode_utf8(bytes)
    } else {
        lossy_text(bytes)
    }
}

/// `String::from_utf8_lossy` of std: the bytes read as UTF-8, with the
/// replacement character in place of what is no valid UTF-8. The result
/// depends on the bytes alone, and the contract names it; of bytes that are
/// valid UTF-8 it claims, as the documentation says, that they are read as
/// what they encode.
#[verifier::external_body]
pub(crate) fn utf8_lossy(bytes: &Vec<u8>) -> (text: String)
    ensures
        text@ == lossy_text(bytes@),
        valid_utf8(bytes@) ==> text@ == decode_utf8(bytes@),
{
    String::from_utf8_lossy(bytes).into_owned()
}

/// The name of the field that holds an intent: the bytes of `intent`.
pub open spec fn intent_field() -> Seq<u8> {
    seq![105u8, 110u8, 116u8, 101u8, 110u8, 116u8]
}

/// The entry that one field gives: the field named `intent`, where name and
/// value are data.
pub open spec fn field_entry(id: Seq<char>, name: ReplyModel, value: ReplyModel) -> Seq<EntryModel> {
    if name == ReplyModel::Data(intent_field()) && value is Data {
        seq![EntryModel { id, raw: value->Data_0 }]
    } else {
        Seq::empty()
    }
}

/// The entries that the fields of one delivery give. Names and values
/// alternate; a name without a value at the end is passed over.
pub open spec fn field_entries(id: Seq<char>, fields: Seq<ReplyModel>) -> Seq<EntryModel>
    decreases fields.len(),
{
    if fields.len() < 2 {
        Seq::empty()
    } else {
        field_entry(id, fields[0], fields[1]) + field_entries(id, fields.skip(2))
    }
}

/// The entries of one delivery: a list of at least two parts, the first the
/// delivery id as data, the second the list of fields. Anything else gives
/// no entry.
pub open spec fn delivery_entries(delivery: ReplyModel) -> Seq<EntryModel> {
    match delivery {
        ReplyModel::Bulk(parts) => if parts.len() >= 2 && parts[0] is Data && parts[1] is Bulk {
            field_entries(id_text(parts[0]->Data_0), parts[1]->Bulk_0)
        } else {
            Seq::empty()
        },
        _ => Seq::empty(),
    }
}

/// The entries of the deliveries of one stream, in order.
pub open spec fn stream_entries(deliveries: Seq<ReplyModel>) -> Seq<EntryModel>
    decreases deliveries.len(),
{
    if deliveries.len() == 0 {
        Seq::empty()
    } else {
        delivery_entries(deliveries[0]) + stream_entries(deliveries.skip(1))
    }
}

/// The entries of the streams of a reply, in order. A stream that is no list
/// gives none.
pub open spec fn reply_entries(streams: Seq<ReplyModel>) -> Seq<EntryModel>
    decreases streams.len(),
{
    if streams.len() == 0 {
        Seq::empty()
    } else {
        (match streams[0] {
            ReplyModel::Bulk(deliveries) => stream_entries(deliveries),
            _ => Seq::empty(),
        }) + reply_entries(streams.skip(1))
    }
}

/// The entries framed in a reply to a group read: those of its streams where
/// it is a list, and nothing where it is anything else.
pub open spec fn framed(reply: ReplyModel) -> Option<Seq<EntryModel>> {
    match reply {
        ReplyModel::Bulk(streams) => Some(reply_entries(streams)),
        _ => None,
    }
}

/// The model of a list of replies is the list of their models.
pub proof fn lemma_bulk_model(reply: &Reply)
    requires
        reply is Bulk,
    ensures
        reply@ is Bulk,
        reply@->Bulk_0 == models(reply->Bulk_0@),
{
    assert(reply@->Bulk_0 =~= models(reply->Bulk_0@));
}

fn is_intent_field(name: &Vec<u8>) -> (r: bool)
    ensures
        r == (name@ == intent_field()),
{
    let r: bool = name.len() == 6 && name[0] == 105 && name[1] == 110 && name[2] == 116 && name[3]
        == 101 && name[4] == 110 && name[5] == 116;
    assert(r == (name@ =~= intent_field()));
    r
}

fn copy_bytes(bytes: &Vec<u8>) -> (copy: Vec<u8>)
    ensures
        copy@ == bytes@,
{
    let mut copy: Vec<u8> = Vec::new();
    let mut i: usize = 0;
    while i < bytes.len()
        invariant
            i <= bytes@.len(),
            copy@ == bytes@.take(i as int),
        decreases bytes@.len() - i,
    {
        copy.push(bytes[i]);
        assert(bytes@.take(i + 1) =~= bytes@.take(i as int).push(bytes@[i as int]));
        i += 1;
    }
    assert(bytes@.take(bytes@.len() as int) =~= bytes@);
    copy
}

fn push_fields(id: &String, fields: &Vec<Reply>, out: &mut Vec<Entry>)
    ensures
        entry_models(final(out)@) == entry_models(old(out)@) + field_entries(
            id@,
            models(fields@),
        ),
{
    let ghost all = models(fields@);
    let n: usize = fields.len();
    let mut i: usize = 0;
    assert(all.skip(0) =~= all);
    assert(entry_models(out@) + field_entries(id@, all) =~= entry_models(old(out)@)
        + field_entries(id@, all));
    while n - i >= 2
        invariant
            i <= n,
            n == fields@.len(),
            all == models(fields@),
            entry_models(out@) + field_entries(id@, all.skip(i as int)) == entry_models(old(out)@)
                + field_entries(id@, all),
        decreases n - i,
    {
        let ghost rest = all.skip(i as int);
        let ghost before = entry_models(out@);
        assert(rest[0] == fields@[i as int]@);
        assert(rest[1] == fields@[i + 1]@);
        assert(rest.skip(2) =~= all.skip(i + 2));
        match (&fields[i], &fields[i + 1]) {
            (Reply::Data(name), Reply::Data(raw)) => {
                if is_intent_field(name) {
                    let entry = Entry { id: id.clone(), raw: copy_bytes(raw) };
                    out.push(entry);
                    assert(entry_models(out@) =~= before + field_entry(id@, rest[0], rest[1]));
                }
            },
            _ => {},
        }
        assert(entry_models(out@) =~= before + field_entry(id@, rest[0], rest[1]));
        assert((before + field_entry(id@, rest[0], rest[1])) + field_entries(id@, rest.skip(2))
            =~= before + field_entries(id@, rest));
        i += 2;
    }
    assert(entry_models(out@) + field_entries(id@, all.skip(i as int)) =~= entry_models(out@));
}

fn push_delivery(delivery: &Reply, out: &mut Vec<Entry>)
    ensures
        entry_models(final(out)@) == entry_models(old(out)@) + delivery_entries(delivery@),
{
    match delivery {
        Reply::Bulk(parts) => {
            proof {
                lemma_bulk_model(delivery);
            }
            if parts.len() >= 2 {
                match (&parts[0], &parts[1]) {
                    (Reply::Data(id), Reply::Bulk(fields)) => {
                        proof {
                            lemma_bulk_model(&parts[1]);
                        }
                        let id: String = utf8_lossy(id);
                        push_fields(&id, fields, out);
                        return ;
                    },
                    _ => {},
                }
            }
        },
        _ => {},
    }
    assert(entry_models(out@) + delivery_entries(delivery@) =~= entry_models(out@));
}

fn push_stream(deliveries: &Vec<Reply>, out: &mut Vec<Entry>)
    ensures
        entry_models(final(out)@) == entry_models(old(out)@) + stream_entries(
            models(deliveries@),
        ),
{
    let ghost all = models(deliveries@);
    let n: usize = deliveries.len();
    let mut i: usize = 0;
    assert(all.skip(0) =~= all);
    while i < n
        invariant
            i <= n,
            n == deliveries@.len(),
            all == models(deliveries@),
            entry_models(out@) + stream_entries(all.skip(i as int)) == entry_models(old(out)@)
                + stream_entries(all),
        decreases n - i,
    {
        let ghost rest = all.skip(i as int);
        let ghost before = entry_models(out@);
        assert(rest[0] == deliveries@[i as int]@);
        assert(rest.skip(1) =~= all.skip(i + 1));
        push_delivery(&deliveries[i], out);
        assert((before + delivery_entries(rest[0])) + stream_entries(rest.skip(1)) =~= before
            + stream_entries(rest));
        i += 1;
    }
    assert(entry_models(out@) + stream_entries(all.skip(i as int)) =~= entry_models(out@));
}

/// The entries framed in a reply to a group read, each with its delivery id
/// and the bytes of its intent, in the order of the reply; nothing where the
/// reply is no list.
pub fn parse_stream(reply: &Reply) -> (r: Option<Vec<Entry>>)
    ensures
        match r {
            Some(entries) => framed(reply@) == Some(entry_models(entries@)),
            None => framed(reply@) is None,
        },
{
    match reply {
        Reply::Bulk(streams) => {
            proof {
                lemma_bulk_model(reply);
            }
            let ghost all = models(streams@);
            let mut out: Vec<Entry> = Vec::new();
            let n: usize = streams.len();
            let mut i: usize = 0;
            assert(all.skip(0) =~= all);
            assert(entry_models(out@) =~= Seq::empty());
            assert(entry_models(out@) + reply_entries(all) =~= reply_entries(all));
            while i < n
                invariant
                    i <= n,
                    n == streams@.len(),
                    all == models(streams@),
                    entry_models(out@) + reply_entries(all.skip(i as int)) == reply_entries(all),
                decreases n - i,
            {
                let ghost rest = all.skip(i as int);
                let ghost before = entry_models(out@);
                assert(rest[0] == streams@[i as int]@);
                assert(rest.skip(1) =~= all.skip(i + 1));
                match &streams[i] {
                    Reply::Bulk(deliveries) => {
                        proof {
                            lemma_bulk_model(&streams[i as int]);
                        }
                        push_stream(deliveries, &mut out);
                        assert((before + stream_entries(rest[0]->Bulk_0)) + reply_entries(
                            rest.skip(1),
                        ) =~= before + reply_entries(rest));
                    },
                    _ => {
                        assert(before + reply_entries(rest.skip(1)) =~= before + reply_entries(
                            rest,
                        ));
                    },
                }
                i += 1;
            }
            assert(entry_models(out@) + reply_entries(all.skip(i as int)) =~= entry_models(out@));
            Some(out)
        },
        _ => None,
    }
}

} // verus!
