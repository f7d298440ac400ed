use vstd::prelude::*;

use crate::commons::str_eq;

verus! {

/// A number as a payload carries it. A number with a fraction or an exponent is
/// kept as its decimal text.
#[derive(Debug, PartialEq, Eq)]
pub enum JsonNumber {
    PosInt(u64),
    NegInt(i64),
    Float(String),
}

/// A parsed structured payload: the value of one field, or a whole record.
#[derive(Debug, PartialEq, Eq)]
pub enum JsonValue {
    Null,
    Bool(bool),
    Number(JsonNumber),
    String(String),
    Array(JsonList),
    Object(JsonMap),
}

/// The elements of an array, first to last.
#[derive(Debug, PartialEq, Eq)]
pub enum JsonList {
    Nil,
    Cons(Box<JsonValue>, Box<JsonList>),
}

/// The members of an object. The head holds the member written last; where a key
/// occurs twice, the occurrence nearer the head is the one that counts.
#[derive(Debug, PartialEq, Eq)]
pub enum JsonMap {
    Empty,
    Entry(String, Box<JsonValue>, Box<JsonMap>),
}

/// Why a payload could not be decoded.
#[derive(Debug, PartialEq, Eq)]
pub enum DecodeError {
    /// A record was expected and something else came.
    NotAnObject,
    /// A field that the record needs is absent.
    MissingField(String),
    /// A field is present with a shape that it cannot have.
    InvalidField(String),
}

impl DecodeError {
    /// `self` reports a fault of field `k` in the record `m`.
    pub open spec fn blames(self, m: Map<Seq<char>, JsonValue>, k: Seq<char>) -> bool {
        match self {
            DecodeError::MissingField(f) => f@ == k && !m.contains_key(k),
            DecodeError::InvalidField(f) => f@ == k && m.contains_key(k),
            DecodeError::NotAnObject => false,
        }
    }

    /// `self` reports a fault of some field of the record `m`.
    pub open spec fn is_fault_of(self, m: Map<Seq<char>, JsonValue>) -> bool {
        match self {
            DecodeError::MissingField(f) => !m.contains_key(f@),
            DecodeError::InvalidField(f) => m.contains_key(f@),
            DecodeError::NotAnObject => false,
        }
    }
}

impl JsonList {
    /// The elements, first to last.
    pub open spec fn elems(self) -> Seq<JsonValue>
        decreases self,
    {
        match self {
            JsonList::Nil => Seq::empty(),
            JsonList::Cons(h, t) => seq![*h].add(t.elems()),
        }
    }

    /// Whether every element is a string.
    pub open spec fn all_strings(self) -> bool {
        forall|i: int| 0 <= i < self.elems().len() ==> (#[trigger] self.elems()[i]) is String
    }

    /// The list holds exactly the strings `s`, in order.
    pub open spec fn holds_strings(self, s: Seq<String>) -> bool {
        &&& self.elems().len() == s.len()
        &&& forall|i: int|
            0 <= i < s.len() ==> (#[trigger] self.elems()[i]) == JsonValue::String(s[i])
    }

    /// Builds the list of `items`, in order.
    pub fn from_vec(items: Vec<JsonValue>) -> (r: JsonList)
        ensures
            r.elems() == items@,
    {
        let mut items = items;
        let ghost all = items@;
        let mut r = JsonList::Nil;
        while items.len() > 0
            invariant
                all == items@ + r.elems(),
            decreases items.len(),
        {
            let ghost before = items@;
            let x = items.pop().unwrap();
            proof {
                assert(before == items@.push(x));
                assert(seq![x].add(r.elems()) =~= seq![x] + r.elems());
                assert(items@ + (seq![x] + r.elems()) =~= before + r.elems());
            }
            r = JsonList::Cons(Box::new(x), Box::new(r));
        }
        assert(all =~= r.elems());
        r
    }

    /// Builds a list of strings.
    pub fn from_strings(items: &Vec<String>) -> (r: JsonList)
        ensures
            r.holds_strings(items@),
    {
        let mut i: usize = items.len();
        let mut r = JsonList::Nil;
        while i > 0
            invariant
                i <= items@.len(),
                r.holds_strings(items@.subrange(i as int, items@.len() as int)),
            decreases i,
        {
            i = i - 1;
            let s = items[i].clone();
            let ghost old_r = r;
            r = JsonList::Cons(Box::new(JsonValue::String(s)), Box::new(r));
            proof {
                let tail = items@.subrange(i + 1, items@.len() as int);
                let whole = items@.subrange(i as int, items@.len() as int);
                assert(r.elems() == seq![JsonValue::String(s)].add(old_r.elems()));
                assert forall|j: int| 0 <= j < whole.len() implies
                    (#[trigger] r.elems()[j]) == JsonValue::String(whole[j]) by {
                    if j > 0 {
                        assert(r.elems()[j] == old_r.elems()[j - 1]);
                        assert(whole[j] == tail[j - 1]);
                    }
                }
            }
        }
        assert(items@.subrange(0, items@.len() as int) =~= items@);
        r
    }

    /// A deep copy, equal to `self`.
    pub fn duplicate(&self) -> (r: JsonList)
        ensures
            r == *self,
        decreases self,
    {
        match self {
            JsonList::Nil => JsonList::Nil,
            JsonList::Cons(h, t) => JsonList::Cons(Box::new(h.duplicate()), Box::new(t.duplicate())),
        }
    }

    /// Reads the list as strings.
    pub fn to_strings(&self) -> (r: Option<Vec<String>>)
        ensures
            r is Some <==> self.all_strings(),
            r matches Some(v) ==> self.holds_strings(v@),
        decreases self,
    {
        match self {
            JsonList::Nil => Some(Vec::new()),
            JsonList::Cons(h, t) => {
                let rest = t.to_strings();
                proof {
                    assert(self.elems() == seq![**h] + t.elems());
                    assert forall|i: int| 0 <= i < t.elems().len() implies
                        (#[trigger] t.elems()[i]) == self.elems()[i + 1] by {}
                }
                match (&**h, rest) {
                    (JsonValue::String(s), Some(mut v)) => {
                        let ghost tail = v@;
                        v.insert(0, s.clone());
                        proof {
                            assert forall|i: int| 0 <= i < v@.len() implies
                                (#[trigger] self.elems()[i]) == JsonValue::String(v@[i]) by {
                                if i > 0 {
                                    assert(v@[i] == tail[i - 1]);
                                }
                            }
                        }
                        Some(v)
                    },
                    (JsonValue::String(_), None) => {
                        proof {
                            let i = choose|i: int|
                                0 <= i < t.elems().len() && !(#[trigger] t.elems()[i] is String);
                            assert(self.elems()[i + 1] == t.elems()[i]);
                        }
                        None
                    },
                    _ => {
                        assert(self.elems()[0] == **h);
                        None
                    },
                }
            },
        }
    }
}

/// A list holds one sequence of strings at most.
pub proof fn lemma_holds_strings_unique(l: JsonList, a: Seq<String>, b: Seq<String>)
    requires
        l.holds_strings(a),
        l.holds_strings(b),
    ensures
        a == b,
{
    assert forall|i: int| 0 <= i < a.len() implies a[i] == b[i] by {
        assert(l.elems()[i] == JsonValue::String(a[i]));
        assert(l.elems()[i] == JsonValue::String(b[i]));
    }
    assert(a =~= b);
}

impl JsonMap {
    /// The members as a map from key to value.
    pub open spec fn spec_view(self) -> Map<Seq<char>, JsonValue>
        decreases self,
    {
        match self {
            JsonMap::Empty => Map::empty(),
            JsonMap::Entry(k, v, rest) => rest.spec_view().insert(k@, *v),
        }
    }

    pub fn new() -> (r: JsonMap)
        ensures
            r@ == Map::<Seq<char>, JsonValue>::empty(),
    {
        JsonMap::Empty
    }

    /// The value under `key`.
    pub fn get(&self, key: &str) -> (r: Option<&JsonValue>)
        ensures
            r is Some <==> self@.contains_key(key@),
            r matches Some(v) ==> *v == self@[key@],
        decreases self,
    {
        match self {
            JsonMap::Empty => None,
            JsonMap::Entry(k, v, rest) => {
                if str_eq(k.as_str(), key) {
                    Some(&**v)
                } else {
                    rest.get(key)
                }
            },
        }
    }

    /// Sets `key` to `value`; a later write of a key supersedes an earlier one.
    pub fn insert(&mut self, key: String, value: JsonValue)
        ensures
            final(self)@ == old(self)@.insert(key@, value),
    {
        let mut rest = JsonMap::Empty;
        std::mem::swap(self, &mut rest);
        *self = JsonMap::Entry(key, Box::new(value), Box::new(rest));
    }

    /// Writes every member of `other` over this map, the members of `other`
    /// winning where both hold a key.
    pub fn append(&mut self, other: &JsonMap)
        ensures
            final(self)@ == old(self)@.union_prefer_right(other@),
        decreases other,
    {
        match other {
            JsonMap::Empty => {
                assert(old(self)@.union_prefer_right(other@) =~= old(self)@);
            },
            JsonMap::Entry(k, v, rest) => {
                self.append(rest);
                self.insert(k.clone(), v.duplicate());
                assert(final(self)@ =~= old(self)@.union_prefer_right(other@));
            },
        }
    }

    /// A deep copy, equal to `self`.
    pub fn duplicate(&self) -> (r: JsonMap)
        ensures
            r == *self,
        decreases self,
    {
        match self {
            JsonMap::Empty => JsonMap::Empty,
            JsonMap::Entry(k, v, rest) => JsonMap::Entry(
                k.clone(),
                Box::new(v.duplicate()),
                Box::new(rest.duplicate()),
            ),
        }
    }
}

impl Clone for JsonMap {
    fn clone(&self) -> JsonMap {
        self.duplicate()
    }
}

impl Clone for JsonList {
    fn clone(&self) -> JsonList {
        self.duplicate()
    }
}

impl Clone for JsonValue {
    fn clone(&self) -> JsonValue {
        self.duplicate()
    }
}

impl Clone for JsonNumber {
    fn clone(&self) -> JsonNumber {
        self.duplicate()
    }
}

impl View for JsonMap {
    type V = Map<Seq<char>, JsonValue>;

    open spec fn view(&self) -> Map<Seq<char>, JsonValue> {
        self.spec_view()
    }
}

impl JsonValue {
    /// A deep copy, equal to `self`.
    pub fn duplicate(&self) -> (r: JsonValue)
        ensures
            r == *self,
        decreases self,
    {
        match self {
            JsonValue::Null => JsonValue::Null,
            JsonValue::Bool(b) => JsonValue::Bool(*b),
            JsonValue::Number(n) => JsonValue::Number(n.duplicate()),
            JsonValue::String(s) => JsonValue::String(s.clone()),
            JsonValue::Array(l) => JsonValue::Array(l.duplicate()),
            JsonValue::Object(m) => JsonValue::Object(m.duplicate()),
        }
    }
}

impl JsonNumber {
    /// A deep copy, equal to `self`.
    pub fn duplicate(&self) -> (r: JsonNumber)
        ensures
            r == *self,
    {
        match self {
            JsonNumber::PosInt(n) => JsonNumber::PosInt(*n),
            JsonNumber::NegInt(n) => JsonNumber::NegInt(*n),
            JsonNumber::Float(s) => JsonNumber::Float(s.clone()),
        }
    }
}

} // verus!
