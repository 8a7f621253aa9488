//! The structured value that an intent carries: null, a flag, a number, a
//! text, a list, or an object of named members.

use vstd::prelude::*;
use crate::numeric::Number;
use crate::text::same_text;

verus! {

/// A structured value. An object is a list of named members; a lookup by name
/// yields the first member of that name.
#[derive(Debug, PartialEq, Eq)]
pub enum Payload {
    Null,
    Bool(bool),
    Number(Number),
    Text(String),
    List(Vec<Payload>),
    Object(Vec<(String, Payload)>),
}

/// What a `Payload` holds, as a mathematical value.
pub enum PayloadModel {
    Null,
    Bool(bool),
    Number(Number),
    Text(Seq<char>),
    List(Seq<PayloadModel>),
    Object(Seq<(Seq<char>, PayloadModel)>),
}

/// The first member named `key` among `members`.
pub open spec fn lookup(members: Seq<(Seq<char>, PayloadModel)>, key: Seq<char>) -> Option<
    PayloadModel,
>
    decreases members.len(),
{
    if members.len() == 0 {
        None
    } else if members.first().0 == key {
        Some(members.first().1)
    } else {
        lookup(members.drop_first(), key)
    }
}

impl PayloadModel {
    /// The member named `key` of an object; nothing for any other value.
    pub open spec fn member(self, key: Seq<char>) -> Option<PayloadModel> {
        match self {
            PayloadModel::Object(members) => lookup(members, key),
            _ => None,
        }
    }

    /// The characters of a text; nothing for any other value.
    pub open spec fn as_text(self) -> Option<Seq<char>> {
        match self {
            PayloadModel::Text(t) => Some(t),
            _ => None,
        }
    }

    /// The truth value of a flag; nothing for any other value.
    pub open spec fn as_flag(self) -> Option<bool> {
        match self {
            PayloadModel::Bool(b) => Some(b),
            _ => None,
        }
    }

    /// The text of the member `key`, where it is a text.
    pub open spec fn text_member(self, key: Seq<char>) -> Option<Seq<char>> {
        match self.member(key) {
            Some(m) => m.as_text(),
            None => None,
        }
    }

    /// The truth value of the member `key`, where it is a flag.
    pub open spec fn flag_member(self, key: Seq<char>) -> Option<bool> {
        match self.member(key) {
            Some(m) => m.as_flag(),
            None => None,
        }
    }
}

impl View for Payload {
    type V = PayloadModel;

    open spec fn view(&self) -> PayloadModel {
        self.model()
    }
}

impl Payload {
    /// What this value holds.
    pub open spec fn model(&self) -> PayloadModel
        decreases self,
    {
        match self {
            Payload::Null => PayloadModel::Null,
            Payload::Bool(b) => PayloadModel::Bool(*b),
            Payload::Number(n) => PayloadModel::Number(*n),
            Payload::Text(t) => PayloadModel::Text(t@),
            Payload::List(items) => PayloadModel::List(
                Seq::new(
                    items@.len(),
                    |i: int|
                        if 0 <= i < items@.len() {
                            items@[i].model()
                        } else {
                            PayloadModel::Null
                        },
                ),
            ),
            Payload::Object(members) => PayloadModel::Object(
                Seq::new(
                    members@.len(),
                    |i: int|
                        if 0 <= i < members@.len() {
                            (members@[i].0@, members@[i].1.model())
                        } else {
                            (Seq::empty(), PayloadModel::Null)
                        },
                ),
            ),
        }
    }

    /// An object without members.
    pub fn empty_object() -> (r: Payload)
        ensures
            r@ == PayloadModel::Object(Seq::empty()),
    {
        let members: Vec<(String, Payload)> = Vec::new();
        let r = Payload::Object(members);
        assert(r@->Object_0 =~= Seq::empty());
        r
    }

    /// The member named `key`, where this is an object that has one.
    pub fn get(&self, key: &str) -> (r: Option<&Payload>)
        ensures
            match r {
                Some(p) => self@.member(key@) == Some(p@),
                None => self@.member(key@) is None,
            },
    {
        match self {
            Payload::Object(members) => {
                let ghost model = self@->Object_0;
                let n: usize = members.len();
                let mut i: usize = 0;
                assert(model.skip(0) =~= model);
                while i < n
                    invariant
                        i <= n,
                        n == members@.len(),
                        model.len() == n,
                        self@ == PayloadModel::Object(model),
                        forall|j: int| 0 <= j < n ==> model[j] == (members@[j].0@, members@[j].1@),
                        lookup(model, key@) == lookup(model.skip(i as int), key@),
                    decreases n - i,
                {
                    let ghost rest = model.skip(i as int);
                    assert(rest.first() == model[i as int]);
                    assert(rest.drop_first() =~= model.skip(i + 1));
                    if same_text(members[i].0.as_str(), key) {
                        return Some(&members[i].1);
                    }
                    i += 1;
                }
                assert(model.skip(n as int).len() == 0);
                None
            },
            _ => None,
        }
    }

    /// The text, where this is one.
    pub fn as_str(&self) -> (r: Option<&str>)
        ensures
            match r {
                Some(t) => self@.as_text() == Some(t@),
                None => self@.as_text() is None,
            },
    {
        match self {
            Payload::Text(t) => Some(t.as_str()),
            _ => None,
        }
    }

    /// The truth value, where this is a flag.
    pub fn as_bool(&self) -> (r: Option<bool>)
        ensures
            r == self@.as_flag(),
    {
        match self {
            Payload::Bool(b) => Some(*b),
            _ => None,
        }
    }

    /// The text of the member `key`, where there is such a member and it is a text.
    pub fn get_str(&self, key: &str) -> (r: Option<&str>)
        ensures
            match r {
                Some(t) => self@.text_member(key@) == Some(t@),
                None => self@.text_member(key@) is None,
            },
    {
        match self.get(key) {
            Some(m) => m.as_str(),
            None => None,
        }
    }

    /// The truth value of the member `key`, where there is such a member and it is a flag.
    pub fn get_bool(&self, key: &str) -> (r: Option<bool>)
        ensures
            r == self@.flag_member(key@),
    {
        match self.get(key) {
            Some(m) => m.as_bool(),
            None => None,
        }
    }
}

impl Clone for Payload {
    #[verifier::loop_isolation(false)]
    fn clone(&self) -> (r: Payload)
        ensures
            r@ == self@,
        decreases self,
    {
        match self {
            Payload::Null => Payload::Null,
            Payload::Bool(b) => Payload::Bool(*b),
            Payload::Number(n) => Payload::Number(*n),
            Payload::Text(t) => Payload::Text(t.clone()),
            Payload::List(items) => {
                let mut out: Vec<Payload> = Vec::new();
                let mut i: usize = 0;
                while i < items.len()
                    invariant
                        i <= items@.len(),
                        out@.len() == i,
                        forall|j: int| 0 <= j < i ==> out@[j]@ == items@[j]@,
                    decreases items@.len() - i,
                {
                    let item = items[i].clone();
                    out.push(item);
                    i += 1;
                }
                let r = Payload::List(out);
                assert(r@->List_0 =~= self@->List_0);
                r
            },
            Payload::Object(members) => {
                let mut out: Vec<(String, Payload)> = Vec::new();
                let mut i: usize = 0;
                while i < members.len()
                    invariant
                        i <= members@.len(),
                        out@.len() == i,
                        forall|j: int|
                            0 <= j < i ==> out@[j].0@ == members@[j].0@ && out@[j].1@
                                == members@[j].1@,
                    decreases members@.len() - i,
                {
                    let name = members[i].0.clone();
                    let value = members[i].1.clone();
                    out.push((name, value));
                    i += 1;
                }
                let r = Payload::Object(out);
                assert(r@->Object_0 =~= self@->Object_0);
                r
            },
        }
    }
}

} // verus!
