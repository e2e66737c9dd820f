//! A JSON value as the app-server protocol logic reads it.

use vstd::prelude::*;

verus! {

/// A JSON value. A number keeps its text as written by the JSON encoder;
/// an object keeps its members in order.
#[derive(Debug, PartialEq, Eq)]
pub enum Json {
    Null,
    Bool(bool),
    Number(String),
    Str(String),
    Array(Vec<Json>),
    Object(Vec<(String, Json)>),
}

/// A JSON value with its texts as character sequences.
pub enum JsonV {
    Null,
    Bool(bool),
    Number(Seq<char>),
    Str(Seq<char>),
    Array(Seq<JsonV>),
    Object(Seq<(Seq<char>, JsonV)>),
}

impl View for Json {
    type V = JsonV;

    open spec fn view(&self) -> JsonV
        decreases self,
    {
        match self {
            Json::Null => JsonV::Null,
            Json::Bool(b) => JsonV::Bool(*b),
            Json::Number(n) => JsonV::Number(n@),
            Json::Str(s) => JsonV::Str(s@),
            Json::Array(items) => JsonV::Array(items_view(items@)),
            Json::Object(members) => JsonV::Object(members_view(members@)),
        }
    }
}

/// The views of a sequence of values.
pub open spec fn items_view(items: Seq<Json>) -> Seq<JsonV>
    decreases items,
{
    if items.len() == 0 {
        Seq::empty()
    } else {
        items_view(items.subrange(0, items.len() - 1)).push(items[items.len() - 1].view())
    }
}

/// The views of a sequence of object members.
pub open spec fn members_view(members: Seq<(String, Json)>) -> Seq<(Seq<char>, JsonV)>
    decreases members,
{
    if members.len() == 0 {
        Seq::empty()
    } else {
        members_view(members.subrange(0, members.len() - 1)).push(
            (members[members.len() - 1].0@, members[members.len() - 1].1.view()),
        )
    }
}

proof fn lemma_items_view(items: Seq<Json>)
    ensures
        items_view(items).len() == items.len(),
        forall|k: int| 0 <= k < items.len() ==> #[trigger] items_view(items)[k] == items[k]@,
    decreases items.len(),
{
    if items.len() > 0 {
        let prefix = items.subrange(0, items.len() - 1);
        lemma_items_view(prefix);
        assert(items_view(items) == items_view(prefix).push(items[items.len() - 1]@));
        assert forall|k: int| 0 <= k < items.len() implies #[trigger] items_view(items)[k] == items[k]@ by {
            assert(items_view(items) == items_view(prefix).push(items[items.len() - 1]@));
            if k < items.len() - 1 {
                assert(items_view(prefix)[k] == prefix[k]@);
                assert(prefix[k] == items[k]);
            }
        }
    }
}

proof fn lemma_members_view(members: Seq<(String, Json)>)
    ensures
        members_view(members).len() == members.len(),
        forall|k: int| 0 <= k < members.len() ==> #[trigger] members_view(members)[k] == (members[k].0@, members[k].1@),
    decreases members.len(),
{
    if members.len() > 0 {
        let prefix = members.subrange(0, members.len() - 1);
        lemma_members_view(prefix);
        assert(members_view(members) == members_view(prefix).push(
            (members[members.len() - 1].0@, members[members.len() - 1].1@),
        ));
        assert forall|k: int| 0 <= k < members.len() implies #[trigger] members_view(members)[k] == (members[k].0@, members[k].1@) by {
            assert(members_view(members) == members_view(prefix).push(
                (members[members.len() - 1].0@, members[members.len() - 1].1@),
            ));
            if k < members.len() - 1 {
                assert(members_view(prefix)[k] == (prefix[k].0@, prefix[k].1@));
                assert(prefix[k] == members[k]);
            }
        }
    }
}

/// Two sequences of values with equal views one by one have equal views.
pub proof fn lemma_items_view_ext(a: Seq<Json>, b: Seq<Json>)
    requires
        a.len() == b.len(),
        forall|k: int| 0 <= k < a.len() ==> #[trigger] a[k]@ == b[k]@,
    ensures
        items_view(a) == items_view(b),
{
    lemma_items_view(a);
    lemma_items_view(b);
    assert(items_view(a) =~= items_view(b));
}

pub proof fn lemma_members_view_ext(a: Seq<(String, Json)>, b: Seq<(String, Json)>)
    requires
        a.len() == b.len(),
        forall|k: int| 0 <= k < a.len() ==> #[trigger] a[k].0@ == b[k].0@ && a[k].1@ == b[k].1@,
    ensures
        members_view(a) == members_view(b),
{
    lemma_members_view(a);
    lemma_members_view(b);
    assert(members_view(a) =~= members_view(b));
}

/// The index of the first member named `key`, searching from `i`.
pub open spec fn member_index_from(members: Seq<(Seq<char>, JsonV)>, key: Seq<char>, i: int) -> Option<int>
    decreases members.len() - i,
{
    if i < 0 || i >= members.len() {
        None
    } else if members[i].0 == key {
        Some(i)
    } else {
        member_index_from(members, key, i + 1)
    }
}

/// The first member named `key` at or after `i` is at `j` when no member
/// between them has that name.
pub proof fn lemma_member_index_from(members: Seq<(Seq<char>, JsonV)>, key: Seq<char>, i: int, j: int)
    requires
        0 <= i <= j < members.len(),
        members[j].0 == key,
        forall|x: int| i <= x < j ==> #[trigger] members[x].0 != key,
    ensures
        member_index_from(members, key, i) == Some(j),
    decreases j - i,
{
    if i < j {
        lemma_member_index_from(members, key, i + 1, j);
    }
}

/// An object whose member `j` is the first named `key` gives that
/// member's value for `key`.
pub proof fn lemma_jget_member(members: Seq<(Seq<char>, JsonV)>, key: Seq<char>, j: int)
    requires
        0 <= j < members.len(),
        members[j].0 == key,
        forall|x: int| 0 <= x < j ==> #[trigger] members[x].0 != key,
    ensures
        jget(JsonV::Object(members), key) == Some(members[j].1),
{
    lemma_member_index_from(members, key, 0, j);
}

/// The value of the member `key` of an object; nothing for other values.
pub open spec fn jget(v: JsonV, key: Seq<char>) -> Option<JsonV> {
    match v {
        JsonV::Object(members) => match member_index_from(members, key, 0) {
            Some(i) => Some(members[i].1),
            None => None,
        },
        _ => None,
    }
}

/// The text of a JSON string; nothing for other values.
pub open spec fn jstr(v: Option<JsonV>) -> Option<Seq<char>> {
    match v {
        Some(JsonV::Str(s)) => Some(s),
        _ => None,
    }
}

/// The items of a JSON array; nothing for other values.
pub open spec fn jarray(v: Option<JsonV>) -> Option<Seq<JsonV>> {
    match v {
        Some(JsonV::Array(items)) => Some(items),
        _ => None,
    }
}

/// The text of the string member `key` of `v`, if `v` has one.
pub open spec fn jget_str(v: JsonV, key: Seq<char>) -> Option<Seq<char>> {
    jstr(jget(v, key))
}

pub open spec fn opt_json_view(o: Option<&Json>) -> Option<JsonV> {
    match o {
        Some(j) => Some(j@),
        None => None,
    }
}

pub open spec fn opt_str_view(o: Option<&str>) -> Option<Seq<char>> {
    match o {
        Some(s) => Some(s@),
        None => None,
    }
}

impl Json {
    /// The member `key` of an object.
    pub fn get(&self, key: &str) -> (r: Option<&Json>)
        ensures
            opt_json_view(r) == jget(self@, key@),
    {
        match self {
            Json::Object(members) => {
                let ghost mv = members_view(members@);
                proof { lemma_members_view(members@); }
                let mut i: usize = 0;
                while i < members.len()
                    invariant
                        *self == Json::Object(*members),
                        mv == members_view(members@),
                        0 <= i <= members@.len(),
                        mv.len() == members@.len(),
                        forall|k: int| 0 <= k < members@.len() ==> mv[k] == (members@[k].0@, members@[k].1@),
                        member_index_from(mv, key@, 0) == member_index_from(mv, key@, i as int),
                    decreases members@.len() - i,
                {
                    if crate::text::text_eq(members[i].0.as_str(), key) {
                        assert(member_index_from(mv, key@, i as int) == Some(i as int));
                        return Some(&members[i].1);
                    }
                    i = i + 1;
                }
                None
            },
            _ => None,
        }
    }

    /// The text of a JSON string.
    pub fn as_str(&self) -> (r: Option<&str>)
        ensures
            opt_str_view(r) == jstr(Some(self@)),
    {
        match self {
            Json::Str(s) => Some(s.as_str()),
            _ => None,
        }
    }

    /// The items of a JSON array.
    pub fn as_array(&self) -> (r: Option<&Vec<Json>>)
        ensures
            match r {
                Some(items) => jarray(Some(self@)) == Some(items@.map_values(|j: Json| j@)),
                None => jarray(Some(self@)) is None,
            },
    {
        match self {
            Json::Array(items) => {
                proof { lemma_items_view(items@); }
                assert(items_view(items@) =~= items@.map_values(|j: Json| j@));
                Some(items)
            },
            _ => None,
        }
    }

    /// A copy of this value.
    pub fn deep_clone(&self) -> (r: Json)
        ensures
            r@ == self@,
        decreases self,
    {
        match self {
            Json::Null => Json::Null,
            Json::Bool(b) => Json::Bool(*b),
            Json::Number(n) => Json::Number(n.clone()),
            Json::Str(s) => Json::Str(s.clone()),
            Json::Array(items) => {
                let mut out: Vec<Json> = Vec::new();
                let mut i: usize = 0;
                while i < items.len()
                    invariant
                        *self == Json::Array(*items),
                        0 <= i <= items@.len(),
                        out@.len() == i,
                        forall|k: int| 0 <= k < i ==> out@[k]@ == items@[k]@,
                    decreases items@.len() - i,
                {
                    assert(decreases_to!(*self => self->Array_0));
                    out.push(items[i].deep_clone());
                    i = i + 1;
                }
                proof { lemma_items_view_ext(out@, items@); }
                let r = Json::Array(out);
                r
            },
            Json::Object(members) => {
                let mut out: Vec<(String, Json)> = Vec::new();
                let mut i: usize = 0;
                while i < members.len()
                    invariant
                        *self == Json::Object(*members),
                        0 <= i <= members@.len(),
                        out@.len() == i,
                        forall|k: int| 0 <= k < i ==> out@[k].0@ == members@[k].0@ && out@[k].1@ == members@[k].1@,
                    decreases members@.len() - i,
                {
                    assert(decreases_to!(*self => self->Object_0));
                    out.push((members[i].0.clone(), members[i].1.deep_clone()));
                    i = i + 1;
                }
                proof { lemma_members_view_ext(out@, members@); }
                let r = Json::Object(out);
                r
            },
        }
    }
}


impl Clone for Json {
    fn clone(&self) -> (r: Self)
        ensures
            r@ == self@,
    {
        self.deep_clone()
    }
}

/// A JSON string holding `s`.
pub fn json_text(s: &str) -> (r: Json)
    ensures
        r@ == JsonV::Str(s@),
{
    Json::Str(s.to_owned())
}

/// Appends the member `key: value` to an object's members.
pub fn push_member(members: &mut Vec<(String, Json)>, key: &str, value: Json)
    ensures
        members_view(final(members)@) == members_view(old(members)@).push((key@, value@)),
{
    let ghost before = members@;
    members.push((key.to_owned(), value));
    assert(members@.subrange(0, members@.len() - 1) =~= before);
}

/// Appends `value` to an array's items.
pub fn push_item(items: &mut Vec<Json>, value: Json)
    ensures
        items_view(final(items)@) == items_view(old(items)@).push(value@),
{
    let ghost before = items@;
    items.push(value);
    assert(items@.subrange(0, items@.len() - 1) =~= before);
}

/// The empty object.
pub fn empty_object() -> (r: Json)
    ensures
        r@ == JsonV::Object(Seq::empty()),
{
    let members: Vec<(String, Json)> = Vec::new();
    Json::Object(members)
}

} // verus!
