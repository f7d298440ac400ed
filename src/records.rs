use vstd::prelude::*;

use crate::fields::{absent_at, invalid, list_at, missing, obj_at};
use crate::json::{DecodeError, JsonList, JsonMap, JsonValue};

verus! {

/// A record that decodes from a payload object.
pub trait Record: Sized {
    /// Whether `m` holds a well-formed record of this kind.
    spec fn accepts(m: Map<Seq<char>, JsonValue>) -> bool;

    /// `self` is the record that `m` holds.
    spec fn read_from(self, m: Map<Seq<char>, JsonValue>) -> bool;

    /// Decodes the record that `m` holds.
    fn from_map(m: &JsonMap) -> (r: Result<Self, DecodeError>)
        ensures
            r is Ok <==> Self::accepts(m@),
            r matches Ok(x) ==> x.read_from(m@),
            r matches Err(e) ==> e.is_fault_of(m@),
    ;
}

/// A record that also encodes to a payload object.
pub trait Encode: Record {
    /// `self` and `other` agree on every field.
    spec fn same(self, other: Self) -> bool;

    /// Encodes the record; decoding the result gives it back.
    fn to_map(&self) -> (r: JsonMap)
        ensures
            Self::accepts(r@),
            self.read_from(r@),
    ;

    /// An object holds at most one record, up to `same`.
    proof fn lemma_read_unique(self, other: Self, m: Map<Seq<char>, JsonValue>)
        requires
            self.read_from(m),
            other.read_from(m),
        ensures
            self.same(other),
    ;
}

/// Whether `v` is an object that holds a well-formed record of kind `T`.
pub open spec fn accepts_value<T: Record>(v: JsonValue) -> bool {
    v is Object && T::accepts(v->Object_0@)
}

/// `x` is the record that the object `v` holds.
pub open spec fn read_from_value<T: Record>(x: T, v: JsonValue) -> bool {
    v is Object && x.read_from(v->Object_0@)
}

/// Every element of `l` holds a well-formed record of kind `T`.
pub open spec fn accepts_list<T: Record>(l: JsonList) -> bool {
    forall|i: int| 0 <= i < l.elems().len() ==> accepts_value::<T>(#[trigger] l.elems()[i])
}

/// `s` are the records that the elements of `l` hold, in order.
pub open spec fn reads_list<T: Record>(s: Seq<T>, l: JsonList) -> bool {
    &&& s.len() == l.elems().len()
    &&& forall|i: int| 0 <= i < s.len() ==> read_from_value(#[trigger] s[i], l.elems()[i])
}

/// `a` and `b` agree element by element.
pub open spec fn same_seq<T: Encode>(a: Seq<T>, b: Seq<T>) -> bool {
    &&& a.len() == b.len()
    &&& forall|i: int| 0 <= i < a.len() ==> (#[trigger] a[i]).same(b[i])
}

/// Decodes a record from a payload.
pub fn decode<T: Record>(v: &JsonValue) -> (r: Result<T, DecodeError>)
    ensures
        r is Ok <==> accepts_value::<T>(*v),
        r matches Ok(x) ==> read_from_value(x, *v),
        r matches Err(e) ==> if v is Object {
            e.is_fault_of(v->Object_0@)
        } else {
            e is NotAnObject
        },
{
    match v {
        JsonValue::Object(m) => T::from_map(m),
        _ => Err(DecodeError::NotAnObject),
    }
}

/// Decodes the records that the elements of `l` hold; `None` if one does not.
pub fn decode_list<T: Record>(l: &JsonList) -> (r: Option<Vec<T>>)
    ensures
        r is Some <==> accepts_list::<T>(*l),
        r matches Some(v) ==> reads_list(v@, *l),
    decreases l,
{
    match l {
        JsonList::Nil => Some(Vec::new()),
        JsonList::Cons(h, t) => {
            proof {
                assert(l.elems() == seq![**h] + t.elems());
                assert forall|i: int| 0 <= i < t.elems().len() implies (#[trigger] t.elems()[i])
                    == l.elems()[i + 1] by {}
            }
            let first = decode::<T>(&**h);
            let rest = decode_list::<T>(&**t);
            match (first, rest) {
                (Ok(x), Some(mut v)) => {
                    let ghost tail = v@;
                    v.insert(0, x);
                    proof {
                        assert forall|i: int| 0 <= i < v@.len() implies read_from_value(
                            #[trigger] v@[i],
                            l.elems()[i],
                        ) by {
                            if i > 0 {
                                assert(v@[i] == tail[i - 1]);
                            }
                        }
                        assert forall|i: int| 0 <= i < l.elems().len() implies accepts_value::<T>(
                            #[trigger] l.elems()[i],
                        ) by {
                            if i > 0 {
                                assert(l.elems()[i] == t.elems()[i - 1]);
                            }
                        }
                    }
                    Some(v)
                },
                (Ok(_), None) => {
                    proof {
                        let i = choose|i: int|
                            0 <= i < t.elems().len() && !accepts_value::<T>(
                                #[trigger] t.elems()[i],
                            );
                        assert(l.elems()[i + 1] == t.elems()[i]);
                    }
                    None
                },
                (Err(_), _) => {
                    assert(l.elems()[0] == **h);
                    None
                },
            }
        },
    }
}

/// Decodes the record nested under `key`.
pub fn record_at<T: Record>(m: &JsonMap, key: &str) -> (r: Result<T, DecodeError>)
    ensures
        r is Ok <==> (obj_at(m@, key@) matches Some(o) && T::accepts(o@)),
        r matches Ok(x) ==> (obj_at(m@, key@) matches Some(o) && x.read_from(o@)),
        r matches Err(e) ==> e.blames(m@, key@),
{
    match m.get(key) {
        None => Err(missing(key)),
        Some(JsonValue::Object(o)) => match T::from_map(o) {
            Ok(x) => Ok(x),
            Err(_) => Err(invalid(key)),
        },
        Some(_) => Err(invalid(key)),
    }
}

/// Decodes the optional record nested under `key`: absent and null give `None`.
pub fn opt_record_at<T: Record>(m: &JsonMap, key: &str) -> (r: Result<Option<T>, DecodeError>)
    ensures
        r is Ok <==> (absent_at(m@, key@) || (obj_at(m@, key@) matches Some(o) && T::accepts(
            o@,
        ))),
        r matches Ok(o) ==> match o {
            None => absent_at(m@, key@),
            Some(x) => obj_at(m@, key@) matches Some(n) && x.read_from(n@),
        },
        r matches Err(e) ==> e.blames(m@, key@),
{
    match m.get(key) {
        None => Ok(None),
        Some(JsonValue::Null) => Ok(None),
        Some(JsonValue::Object(o)) => match T::from_map(o) {
            Ok(x) => Ok(Some(x)),
            Err(_) => Err(invalid(key)),
        },
        Some(_) => Err(invalid(key)),
    }
}

/// Decodes the array of records under `key`.
pub fn records_at<T: Record>(m: &JsonMap, key: &str) -> (r: Result<Vec<T>, DecodeError>)
    ensures
        r is Ok <==> (list_at(m@, key@) matches Some(l) && accepts_list::<T>(l)),
        r matches Ok(v) ==> (list_at(m@, key@) matches Some(l) && reads_list(v@, l)),
        r matches Err(e) ==> e.blames(m@, key@),
{
    match m.get(key) {
        None => Err(missing(key)),
        Some(JsonValue::Array(l)) => match decode_list::<T>(l) {
            Some(v) => Ok(v),
            None => Err(invalid(key)),
        },
        Some(_) => Err(invalid(key)),
    }
}

/// Encodes `items` as an array of objects, in order.
pub fn encode_list<T: Encode>(items: &Vec<T>) -> (r: JsonList)
    ensures
        accepts_list::<T>(r),
        reads_list(items@, r),
{
    let mut out: Vec<JsonValue> = Vec::new();
    let mut i: usize = 0;
    while i < items.len()
        invariant
            i <= items@.len(),
            out@.len() == i,
            forall|j: int|
                0 <= j < i ==> accepts_value::<T>(#[trigger] out@[j]) && read_from_value(
                    items@[j],
                    out@[j],
                ),
        decreases items@.len() - i,
    {
        let m = items[i].to_map();
        out.push(JsonValue::Object(m));
        i = i + 1;
    }
    JsonList::from_vec(out)
}

/// Two lists of records read from one array agree element by element.
pub proof fn lemma_reads_list_unique<T: Encode>(a: Seq<T>, b: Seq<T>, l: JsonList)
    requires
        reads_list(a, l),
        reads_list(b, l),
    ensures
        same_seq(a, b),
{
    assert forall|i: int| 0 <= i < a.len() implies (#[trigger] a[i]).same(b[i]) by {
        a[i].lemma_read_unique(b[i], l.elems()[i]->Object_0@);
    }
}

} // verus!
