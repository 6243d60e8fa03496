//! JSON values as plain data.
//!
//! A [`Json`] is a tree of owned values. Its view, a [`JsonView`], is the
//! same tree over mathematical sequences; contracts speak of the view.

use vstd::prelude::*;
use vstd::string::StringExecFns;

verus! {

/// A JSON number.
///
/// An integer from 0 to 2^64 - 1 is a `PosInt`, a negative integer down to
/// -2^63 is a `NegInt`, and every other number is the bit pattern of the
/// double-precision value nearest to it.
#[derive(Clone, Copy, Debug, PartialEq, Eq)]
pub enum Number {
    /// An integer that is not negative.
    PosInt(u64),
    /// A negative integer.
    NegInt(i64),
    /// A number with a fraction or an exponent, or an integer out of range.
    Float(u64),
}

impl Number {
    /// The number as a signed 64-bit integer, where it is one.
    pub open spec fn spec_as_i64(self) -> Option<i64> {
        match self {
            Number::PosInt(n) => if n <= i64::MAX as u64 {
                Some(n as i64)
            } else {
                None
            },
            Number::NegInt(n) => Some(n),
            Number::Float(_) => None,
        }
    }

    /// The number that stands for the integer `n`.
    pub open spec fn spec_from_i64(n: i64) -> Number {
        if n < 0 {
            Number::NegInt(n)
        } else {
            Number::PosInt(n as u64)
        }
    }

    /// Whether the number is held in the one way that its value allows: a
    /// `NegInt` is negative.
    pub open spec fn is_canonical(self) -> bool {
        self matches Number::NegInt(n) ==> n < 0
    }

    /// The number as a signed 64-bit integer, where it is one.
    #[verifier::when_used_as_spec(spec_as_i64)]
    pub fn as_i64(self) -> (n: Option<i64>)
        ensures
            n == self.spec_as_i64(),
    {
        match self {
            Number::PosInt(n) => if n <= i64::MAX as u64 {
                Some(n as i64)
            } else {
                None
            },
            Number::NegInt(n) => Some(n),
            Number::Float(_) => None,
        }
    }

    /// The number that stands for the integer `n`.
    #[verifier::when_used_as_spec(spec_from_i64)]
    pub fn from_i64(n: i64) -> (number: Number)
        ensures
            number == Number::spec_from_i64(n),
    {
        if n < 0 {
            Number::NegInt(n)
        } else {
            Number::PosInt(n as u64)
        }
    }
}

/// A JSON value.
///
/// The members of an object are kept in the order in which they were given.
#[derive(Debug, PartialEq, Eq)]
pub enum Json {
    Null,
    Bool(bool),
    Number(Number),
    String(String),
    Array(Vec<Json>),
    Object(Vec<(String, Json)>),
}

/// The mathematical value of a [`Json`].
pub enum JsonView {
    Null,
    Bool(bool),
    Number(Number),
    String(Seq<char>),
    Array(Seq<JsonView>),
    Object(Seq<(Seq<char>, JsonView)>),
}

/// The value of the first member named `key` among `members`.
pub open spec fn find(members: Seq<(Seq<char>, JsonView)>, key: Seq<char>) -> Option<JsonView>
    decreases members.len(),
{
    if members.len() == 0 {
        None
    } else if members[0].0 == key {
        Some(members[0].1)
    } else {
        find(members.skip(1), key)
    }
}

impl JsonView {
    /// The member of an object that goes by the name `key`: the first of
    /// them, should several share the name. Only an object has members.
    pub open spec fn member(self, key: Seq<char>) -> Option<JsonView> {
        match self {
            JsonView::Object(members) => find(members, key),
            _ => None,
        }
    }

    /// The text of a string.
    pub open spec fn text(self) -> Option<Seq<char>> {
        match self {
            JsonView::String(text) => Some(text),
            _ => None,
        }
    }

    /// The integer that a number is, where it fits a signed 64-bit value.
    pub open spec fn integer(self) -> Option<i64> {
        match self {
            JsonView::Number(number) => number.spec_as_i64(),
            _ => None,
        }
    }

    /// The items of an array.
    pub open spec fn items(self) -> Option<Seq<JsonView>> {
        match self {
            JsonView::Array(items) => Some(items),
            _ => None,
        }
    }
}

impl View for Json {
    type V = JsonView;

    open spec fn view(&self) -> JsonView
        decreases self,
    {
        match self {
            Json::Null => JsonView::Null,
            Json::Bool(b) => JsonView::Bool(*b),
            Json::Number(n) => JsonView::Number(*n),
            Json::String(s) => JsonView::String(s@),
            Json::Array(items) => JsonView::Array(
                Seq::new(
                    items@.len(),
                    |i: int|
                        if 0 <= i < items@.len() {
                            items@[i]@
                        } else {
                            JsonView::Null
                        },
                ),
            ),
            Json::Object(members) => JsonView::Object(
                Seq::new(
                    members@.len(),
                    |i: int|
                        if 0 <= i < members@.len() {
                            (members@[i].0@, members@[i].1@)
                        } else {
                            (Seq::empty(), JsonView::Null)
                        },
                ),
            ),
        }
    }
}

/// What the view of an array and of an object is made of.
pub proof fn lemma_view_parts(json: Json)
    ensures
        json matches Json::Array(items) ==> json@ matches JsonView::Array(seq) && seq.len()
            == items.len() && forall|i: int| 0 <= i < seq.len() ==> seq[i] == #[trigger] items@[i]@,
        json matches Json::Object(members) ==> json@ matches JsonView::Object(seq) && seq.len()
            == members.len() && forall|i: int|
            0 <= i < seq.len() ==> #[trigger] seq[i] == (members@[i].0@, members@[i].1@),
{
    reveal_with_fuel(<Json as View>::view, 2);
}

impl Json {
    /// A JSON string that holds `text`.
    pub fn string(text: &str) -> (json: Json)
        ensures
            json@ == JsonView::String(text@),
    {
        Json::String(String::from_str(text))
    }

    /// The JSON number that stands for the integer `n`.
    pub fn integer(n: i64) -> (json: Json)
        ensures
            json@ == JsonView::Number(Number::spec_from_i64(n)),
    {
        Json::Number(Number::from_i64(n))
    }

    /// The array of `items`.
    pub fn array(items: Vec<Json>) -> (json: Json)
        ensures
            json@ == JsonView::Array(items@.map_values(|item: Json| item@)),
    {
        let json = Json::Array(items);
        proof {
            lemma_view_parts(json);
            assert(json@->Array_0 =~= items@.map_values(|item: Json| item@));
        }
        json
    }

    /// The object of `members`, in their order.
    pub fn object(members: Vec<(String, Json)>) -> (json: Json)
        ensures
            json@ == JsonView::Object(
                members@.map_values(|member: (String, Json)| (member.0@, member.1@)),
            ),
    {
        let json = Json::Object(members);
        proof {
            lemma_view_parts(json);
            assert(json@->Object_0 =~= members@.map_values(
                |member: (String, Json)| (member.0@, member.1@),
            ));
        }
        json
    }

    /// The member of an object that goes by the name `key`.
    pub fn get(&self, key: &str) -> (member: Option<&Json>)
        ensures
            match member {
                Some(value) => self@.member(key@) == Some(value@),
                None => self@.member(key@) is None,
            },
    {
        match self {
            Json::Object(members) => {
                let wanted = String::from_str(key);
                let ghost all = self@->Object_0;
                proof {
                    lemma_view_parts(*self);
                    assert(all.skip(0) =~= all);
                }
                let mut i: usize = 0;
                while i < members.len()
                    invariant
                        i <= members.len(),
                        wanted@ == key@,
                        self@ == JsonView::Object(all),
                        all.len() == members.len(),
                        forall|j: int|
                            0 <= j < members.len() ==> all[j] == (
                                #[trigger] members@[j].0@,
                                members@[j].1@,
                            ),
                        find(all, key@) == find(all.skip(i as int), key@),
                    decreases members.len() - i,
                {
                    proof {
                        assert(all.skip(i as int).skip(1) =~= all.skip(i + 1));
                    }
                    if members[i].0 == wanted {
                        return Some(&members[i].1);
                    }
                    i = i + 1;
                }
                None
            },
            _ => None,
        }
    }

    /// The text of a string.
    pub fn as_str(&self) -> (text: Option<&str>)
        ensures
            match text {
                Some(text) => self@.text() == Some(text@),
                None => self@.text() is None,
            },
    {
        match self {
            Json::String(text) => Some(text.as_str()),
            _ => None,
        }
    }

    /// The integer that a number is, where it fits a signed 64-bit value.
    pub fn as_i64(&self) -> (n: Option<i64>)
        ensures
            n == self@.integer(),
    {
        match self {
            Json::Number(number) => number.as_i64(),
            _ => None,
        }
    }

    /// The items of an array.
    pub fn as_array(&self) -> (items: Option<&Vec<Json>>)
        ensures
            match items {
                Some(items) => self@.items() matches Some(seq) && seq.len() == items.len()
                    && forall|i: int| 0 <= i < seq.len() ==> seq[i] == #[trigger] items@[i]@,
                None => self@.items() is None,
            },
    {
        proof {
            lemma_view_parts(*self);
        }
        match self {
            Json::Array(items) => Some(items),
            _ => None,
        }
    }
}

impl Clone for Json {
    /// A copy of the value.
    #[verifier::loop_isolation(false)]
    fn clone(&self) -> (copy: Json)
        ensures
            copy@ == self@,
        decreases self,
    {
        proof {
            lemma_view_parts(*self);
        }
        match self {
            Json::Null => Json::Null,
            Json::Bool(flag) => Json::Bool(*flag),
            Json::Number(number) => Json::Number(*number),
            Json::String(text) => Json::String(text.clone()),
            Json::Array(items) => {
                let mut copies: Vec<Json> = Vec::new();
                let mut i: usize = 0;
                while i < items.len()
                    invariant
                        i <= items.len(),
                        copies.len() == i,
                        *self == Json::Array(*items),
                        forall|j: int| 0 <= j < i ==> #[trigger] copies@[j]@ == items@[j]@,
                    decreases items.len() - i,
                {
                    proof {
                        vstd::std_specs::vec::axiom_vec_index_decreases(*items, i as int);
                    }
                    copies.push(items[i].clone());
                    i = i + 1;
                }
                let copy = Json::Array(copies);
                proof {
                    lemma_view_parts(copy);
                    assert forall|j: int| 0 <= j < items.len() implies copy@->Array_0[j]
                        == self@->Array_0[j] by {
                        assert(copies@[j]@ == items@[j]@);
                    }
                    assert(copy@->Array_0 =~= self@->Array_0);
                }
                copy
            },
            Json::Object(members) => {
                let mut copies: Vec<(String, Json)> = Vec::new();
                let mut i: usize = 0;
                while i < members.len()
                    invariant
                        i <= members.len(),
                        copies.len() == i,
                        *self == Json::Object(*members),
                        forall|j: int|
                            0 <= j < i ==> #[trigger] copies@[j].0@ == members@[j].0@
                                && copies@[j].1@ == members@[j].1@,
                    decreases members.len() - i,
                {
                    proof {
                        vstd::std_specs::vec::axiom_vec_index_decreases(*members, i as int);
                    }
                    copies.push((members[i].0.clone(), members[i].1.clone()));
                    i = i + 1;
                }
                let copy = Json::Object(copies);
                proof {
                    lemma_view_parts(copy);
                    assert(copy@->Object_0 =~= self@->Object_0);
                }
                copy
            },
        }
    }
}

} // verus!
