//! Conversion between the cross-language value and the values of the
//! embedded runtime.
//!
//! `PyValue` is the library's picture of a value of the embedded runtime: it
//! holds as plain data what the conversion reads. Whoever talks to the runtime
//! builds a `PyValue` from a runtime object and a runtime object from a
//! `PyValue`, one for one.

use crate::cross::clrepr::{
    entries_map, keys_distinct, keys_of, lemma_entries_map_dom, lemma_entries_map_index,
    lemma_object_entries, lemma_values_of, lemma_values_of_push, value_of, values_of,
    CLRepr,
    CLReprObject, CLValue, PythonRef, StringType,
};
use vstd::prelude::*;

verus! {

/// A value of the embedded runtime. `Float` carries the IEEE 754 binary64 bit
/// pattern; `SafeStr` is text wrapped so that the runtime never evaluates it;
/// `Object` is any value of no other shape, by handle.
#[derive(Debug, PartialEq)]
pub enum PyValue {
    NoneValue,
    Bool(bool),
    Int(i64),
    Float(u64),
    Str(String),
    SafeStr(String),
    Tuple(Vec<PyValue>),
    List(Vec<PyValue>),
    Dict(Vec<(PyValue, PyValue)>),
    Object(PythonRef),
}

/// The mathematical value that a `PyValue` stands for.
pub enum PyModel {
    NoneValue,
    Bool(bool),
    Int(i64),
    Float(u64),
    Str(Seq<char>),
    SafeStr(Seq<char>),
    Tuple(Seq<PyModel>),
    List(Seq<PyModel>),
    Dict(Seq<(PyModel, PyModel)>),
    Object(PythonRef),
}

/// The value of one `PyValue`.
pub open spec fn model_of(p: PyValue) -> PyModel
    decreases p,
{
    match p {
        PyValue::NoneValue => PyModel::NoneValue,
        PyValue::Bool(b) => PyModel::Bool(b),
        PyValue::Int(i) => PyModel::Int(i),
        PyValue::Float(f) => PyModel::Float(f),
        PyValue::Str(s) => PyModel::Str(s@),
        PyValue::SafeStr(s) => PyModel::SafeStr(s@),
        PyValue::Tuple(xs) => PyModel::Tuple(
            Seq::new(xs@.len(), |i: int| if 0 <= i < xs@.len() { model_of(xs@[i]) } else { PyModel::NoneValue }),
        ),
        PyValue::List(xs) => PyModel::List(
            Seq::new(xs@.len(), |i: int| if 0 <= i < xs@.len() { model_of(xs@[i]) } else { PyModel::NoneValue }),
        ),
        PyValue::Dict(items) => PyModel::Dict(
            Seq::new(
                items@.len(),
                |i: int| if 0 <= i < items@.len() {
                    (model_of(items@[i].0), model_of(items@[i].1))
                } else {
                    (PyModel::NoneValue, PyModel::NoneValue)
                },
            ),
        ),
        PyValue::Object(h) => PyModel::Object(h),
    }
}

impl View for PyValue {
    type V = PyModel;

    open spec fn view(&self) -> PyModel {
        model_of(*self)
    }
}

/// Why a value of the embedded runtime has no cross-language value.
#[derive(Debug, Clone, Copy, PartialEq, Eq, Structural)]
pub enum ConversionError {
    /// A dictionary has a key that is not plain text.
    DictKeyNotText,
}

/// Why a value of the embedded runtime could not be read as a host record.
#[derive(Debug, Clone, Copy, PartialEq, Eq, Structural)]
pub enum ExtractError {
    /// The value is not a dictionary.
    NotADict,
    /// The dictionary has no item under the key that was asked for.
    MissingKey,
    /// The value is of another shape than the field it is read into.
    WrongType,
    /// The text names no event type.
    InvalidEventType,
    /// The text names no message type.
    InvalidMessageType,
}

/// The text of a dictionary key, where the key is plain text.
pub open spec fn py_key(p: PyValue) -> Option<Seq<char>> {
    match p {
        PyValue::Str(s) => Some(s@),
        _ => None,
    }
}

/// The cross-language value of a runtime value, where it has one. A
/// dictionary has one when every key is plain text; of two items with the
/// same key the later counts.
pub open spec fn decode(p: PyValue) -> Option<CLValue>
    decreases p,
{
    match p {
        PyValue::NoneValue => Some(CLValue::Null),
        PyValue::Bool(b) => Some(CLValue::Bool(b)),
        PyValue::Int(i) => Some(CLValue::Int(i)),
        PyValue::Float(f) => Some(CLValue::Float(f)),
        PyValue::Str(s) => Some(CLValue::String(s@, StringType::Normal)),
        PyValue::SafeStr(s) => Some(CLValue::String(s@, StringType::Safe)),
        PyValue::Tuple(xs) => match decode_all(xs@) {
            Some(vs) => Some(CLValue::Tuple(vs)),
            None => None,
        },
        PyValue::List(xs) => match decode_all(xs@) {
            Some(vs) => Some(CLValue::Array(vs)),
            None => None,
        },
        PyValue::Dict(items) => match decode_items(items@) {
            Some(m) => Some(CLValue::Object(m)),
            None => None,
        },
        PyValue::Object(h) => Some(CLValue::PythonRef(h)),
    }
}

/// The values of a sequence of runtime values, in order, where each has one.
pub open spec fn decode_all(s: Seq<PyValue>) -> Option<Seq<CLValue>>
    decreases s,
{
    if s.len() == 0 {
        Some(Seq::empty())
    } else {
        match (decode_all(s.drop_last()), decode(s.last())) {
            (Some(vs), Some(v)) => Some(vs.push(v)),
            _ => None,
        }
    }
}

/// The map of a sequence of dictionary items, where every key is plain text
/// and every value has a cross-language value.
pub open spec fn decode_items(s: Seq<(PyValue, PyValue)>) -> Option<Map<Seq<char>, CLValue>>
    decreases s,
{
    if s.len() == 0 {
        Some(Map::empty())
    } else {
        match (decode_items(s.drop_last()), py_key(s.last().0), decode(s.last().1)) {
            (Some(m), Some(k), Some(v)) => Some(m.insert(k, v)),
            _ => None,
        }
    }
}

/// Whether the runtime value `p` is an image of the cross-language value `v`:
/// the same primitive, the same elements in the same order, or a dictionary
/// with exactly the object's entries, each once, in any order.
pub open spec fn represents(p: PyValue, v: CLValue) -> bool
    decreases p,
{
    match p {
        PyValue::NoneValue => v is Null,
        PyValue::Bool(b) => v == CLValue::Bool(b),
        PyValue::Int(i) => v == CLValue::Int(i),
        PyValue::Float(f) => v == CLValue::Float(f),
        PyValue::Str(s) => v == CLValue::String(s@, StringType::Normal),
        PyValue::SafeStr(s) => v == CLValue::String(s@, StringType::Safe),
        PyValue::Tuple(xs) => v matches CLValue::Tuple(vs) && represents_all(xs@, vs),
        PyValue::List(xs) => v matches CLValue::Array(vs) && represents_all(xs@, vs),
        PyValue::Dict(items) => v matches CLValue::Object(m) && represents_items(items@, m),
        PyValue::Object(h) => v == CLValue::PythonRef(h),
    }
}

/// Element by element, `xs` holds images of `vs`.
pub open spec fn represents_all(xs: Seq<PyValue>, vs: Seq<CLValue>) -> bool
    decreases xs,
{
    &&& xs.len() == vs.len()
    &&& forall|i: int| 0 <= i < xs.len() ==> represents(#[trigger] xs[i], vs[i])
}

/// The items are exactly the entries of `m`: each key is plain text and
/// occurs once, each value is an image of the map's value, and no key of the
/// map is missing.
pub open spec fn represents_items(items: Seq<(PyValue, PyValue)>, m: Map<Seq<char>, CLValue>) -> bool
    decreases items,
{
    &&& forall|i: int|
        0 <= i < items.len() ==> match py_key((#[trigger] items[i]).0) {
            Some(k) => m.contains_key(k) && represents(items[i].1, m[k]),
            None => false,
        }
    &&& forall|i: int, j: int|
        0 <= i < j < items.len() ==> py_key((#[trigger] items[i]).0) != py_key(
            (#[trigger] items[j]).0,
        )
    &&& forall|k: Seq<char>|
        m.contains_key(k) ==> exists|i: int|
            0 <= i < items.len() && py_key((#[trigger] items[i]).0) == Some(k)
}

/// Decoding one more element extends the decoded prefix, or fails with it.
proof fn lemma_decode_all_step(s: Seq<PyValue>, i: int)
    requires
        0 <= i < s.len(),
    ensures
        decode_all(s.take(i + 1)) == match (decode_all(s.take(i)), decode(s[i])) {
            (Some(vs), Some(v)) => Some(vs.push(v)),
            _ => None,
        },
{
    assert(s.take(i + 1).drop_last() =~= s.take(i));
}

/// Where a prefix cannot be decoded, the whole sequence cannot.
proof fn lemma_decode_all_fails(s: Seq<PyValue>, i: int)
    requires
        0 <= i <= s.len(),
        decode_all(s.take(i)) is None,
    ensures
        decode_all(s) is None,
    decreases s.len() - i,
{
    if i < s.len() {
        lemma_decode_all_step(s, i);
        lemma_decode_all_fails(s, i + 1);
    } else {
        assert(s.take(i) =~= s);
    }
}

/// Decoding one more item extends the decoded prefix, or fails with it.
proof fn lemma_decode_items_step(s: Seq<(PyValue, PyValue)>, i: int)
    requires
        0 <= i < s.len(),
    ensures
        decode_items(s.take(i + 1)) == match (
            decode_items(s.take(i)),
            py_key(s[i].0),
            decode(s[i].1),
        ) {
            (Some(m), Some(k), Some(v)) => Some(m.insert(k, v)),
            _ => None,
        },
{
    assert(s.take(i + 1).drop_last() =~= s.take(i));
}

/// Where a prefix of the items cannot be decoded, the whole cannot.
proof fn lemma_decode_items_fails(s: Seq<(PyValue, PyValue)>, i: int)
    requires
        0 <= i <= s.len(),
        decode_items(s.take(i)) is None,
    ensures
        decode_items(s) is None,
    decreases s.len() - i,
{
    if i < s.len() {
        lemma_decode_items_step(s, i);
        lemma_decode_items_fails(s, i + 1);
    } else {
        assert(s.take(i) =~= s);
    }
}

/// The cross-language values of the elements, or the first failure.
fn decode_vec(xs: &Vec<PyValue>) -> (r: Result<Vec<CLRepr>, ConversionError>)
    ensures
        match decode_all(xs@) {
            Some(vs) => r matches Ok(cs) && values_of(cs@) == vs,
            None => r == Err::<Vec<CLRepr>, ConversionError>(ConversionError::DictKeyNotText),
        },
    decreases xs,
{
    let mut out: Vec<CLRepr> = Vec::new();
    let mut i: usize = 0;
    while i < xs.len()
        invariant
            i <= xs.len(),
            decode_all(xs@.take(i as int)) == Some(values_of(out@)),
        decreases xs.len() - i,
    {
        proof {
            lemma_decode_all_step(xs@, i as int);
        }
        match CLRepr::from_python_ref(&xs[i]) {
            Ok(c) => {
                proof {
                    lemma_values_of_push(out@, c);
                }
                out.push(c);
            },
            Err(e) => {
                proof {
                    lemma_decode_all_fails(xs@, i + 1);
                }
                return Err(e);
            },
        }
        i += 1;
    }
    assert(xs@.take(xs.len() as int) =~= xs@);
    Ok(out)
}

/// The object of the items, or the first failure.
fn decode_dict(items: &Vec<(PyValue, PyValue)>) -> (r: Result<CLReprObject, ConversionError>)
    ensures
        match decode_items(items@) {
            Some(m) => r matches Ok(o) && o@ == m,
            None => r == Err::<CLReprObject, ConversionError>(ConversionError::DictKeyNotText),
        },
    decreases items,
{
    let mut out = CLReprObject::new();
    let mut i: usize = 0;
    while i < items.len()
        invariant
            i <= items.len(),
            decode_items(items@.take(i as int)) == Some(out@),
        decreases items.len() - i,
    {
        proof {
            lemma_decode_items_step(items@, i as int);
        }
        match &items[i].0 {
            PyValue::Str(k) => {
                match CLRepr::from_python_ref(&items[i].1) {
                    Ok(c) => {
                        out.insert(k.clone(), c);
                    },
                    Err(e) => {
                        proof {
                            lemma_decode_items_fails(items@, i + 1);
                        }
                        return Err(e);
                    },
                }
            },
            _ => {
                proof {
                    lemma_decode_items_fails(items@, i + 1);
                }
                return Err(ConversionError::DictKeyNotText);
            },
        }
        i += 1;
    }
    assert(items@.take(items.len() as int) =~= items@);
    Ok(out)
}

/// An image of each element, in order.
fn encode_vec(v: &Vec<CLRepr>) -> (r: Vec<PyValue>)
    ensures
        represents_all(r@, values_of(v@)),
    decreases v,
{
    proof {
        lemma_values_of(v@);
    }
    let mut out: Vec<PyValue> = Vec::new();
    let mut i: usize = 0;
    while i < v.len()
        invariant
            i <= v.len(),
            out@.len() == i,
            forall|j: int| 0 <= j < i ==> represents(#[trigger] out@[j], value_of(v@[j])),
        decreases v.len() - i,
    {
        let item = v[i].to_py();
        out.push(item);
        i += 1;
    }
    out
}

/// One item for each entry of the object, in the order of its keys.
fn encode_object(o: &CLReprObject) -> (r: Vec<(PyValue, PyValue)>)
    ensures
        represents_items(r@, o@),
        r@.len() == o.key_seq().len(),
        forall|i: int| 0 <= i < r@.len() ==> py_key((#[trigger] r@[i]).0) == Some(o.key_seq()[i]),
    decreases o,
{
    proof {
        use_type_invariant(o);
        lemma_object_entries(*o);
    }
    let mut out: Vec<(PyValue, PyValue)> = Vec::new();
    let mut i: usize = 0;
    while i < o.entries.len()
        invariant
            i <= o.entries.len(),
            out@.len() == i,
            keys_distinct(o.entries@),
            forall|j: int|
                0 <= j < i ==> py_key((#[trigger] out@[j]).0) == Some(o.entries@[j].0@)
                    && represents(out@[j].1, value_of(o.entries@[j].1)),
        decreases o.entries.len() - i,
    {
        let key = PyValue::Str(o.entries[i].0.clone());
        let value = o.entries[i].1.to_py();
        out.push((key, value));
        i += 1;
    }
    proof {
        let s = o.entries@;
        let m = entries_map(s);
        assert forall|j: int| 0 <= j < out@.len() implies match py_key((#[trigger] out@[j]).0) {
            Some(k) => m.contains_key(k) && represents(out@[j].1, m[k]),
            None => false,
        } by {
            lemma_entries_map_index(s, j);
        }
        assert forall|a: int, b: int| 0 <= a < b < out@.len() implies py_key(
            (#[trigger] out@[a]).0,
        ) != py_key((#[trigger] out@[b]).0) by {
            assert(s[a].0@ != s[b].0@);
        }
        assert forall|k: Seq<char>| m.contains_key(k) implies exists|j: int|
            0 <= j < out@.len() && py_key((#[trigger] out@[j]).0) == Some(k) by {
            lemma_entries_map_dom(s, k);
            let j = choose|j: int| 0 <= j < s.len() && (#[trigger] s[j]).0@ == k;
            assert(py_key(out@[j].0) == Some(k));
        }
    }
    out
}

impl CLRepr {
    /// The cross-language value of a runtime value. The conversion fails
    /// exactly when the value holds, at any depth, a dictionary with a key
    /// that is not plain text. A value of no primitive or collection shape
    /// becomes a `PythonRef`.
    pub fn from_python_ref(p: &PyValue) -> (r: Result<CLRepr, ConversionError>)
        ensures
            match decode(*p) {
                Some(v) => r matches Ok(c) && c@ == v,
                None => r == Err::<CLRepr, ConversionError>(ConversionError::DictKeyNotText),
            },
        decreases p,
    {
        match p {
            PyValue::NoneValue => Ok(CLRepr::Null),
            PyValue::Bool(b) => Ok(CLRepr::Bool(*b)),
            PyValue::Int(i) => Ok(CLRepr::Int(*i)),
            PyValue::Float(f) => Ok(CLRepr::Float(*f)),
            PyValue::Str(s) => Ok(CLRepr::String(s.clone(), StringType::Normal)),
            PyValue::SafeStr(s) => Ok(CLRepr::String(s.clone(), StringType::Safe)),
            PyValue::Tuple(xs) => match decode_vec(xs) {
                Ok(cs) => Ok(CLRepr::Tuple(cs)),
                Err(e) => Err(e),
            },
            PyValue::List(xs) => match decode_vec(xs) {
                Ok(cs) => Ok(CLRepr::Array(cs)),
                Err(e) => Err(e),
            },
            PyValue::Dict(items) => match decode_dict(items) {
                Ok(o) => Ok(CLRepr::Object(o)),
                Err(e) => Err(e),
            },
            PyValue::Object(h) => Ok(CLRepr::PythonRef(*h)),
        }
    }

    /// An image of the value in the embedded runtime; the value itself stays.
    pub fn to_py(&self) -> (p: PyValue)
        ensures
            represents(p, self@),
        decreases self,
    {
        match self {
            CLRepr::String(s, StringType::Normal) => PyValue::Str(s.clone()),
            CLRepr::String(s, StringType::Safe) => PyValue::SafeStr(s.clone()),
            CLRepr::Bool(b) => PyValue::Bool(*b),
            CLRepr::Float(f) => PyValue::Float(*f),
            CLRepr::Int(i) => PyValue::Int(*i),
            CLRepr::Tuple(v) => PyValue::Tuple(encode_vec(v)),
            CLRepr::Array(v) => PyValue::List(encode_vec(v)),
            CLRepr::Object(o) => PyValue::Dict(encode_object(o)),
            CLRepr::PythonRef(h) => PyValue::Object(*h),
            CLRepr::Null => PyValue::NoneValue,
        }
    }

    /// Gives up the value for its image in the embedded runtime. Every value
    /// has one.
    pub fn into_py(self) -> (p: PyValue)
        ensures
            represents(p, self@),
    {
        self.to_py()
    }
}

/// Converting a value to the embedded runtime and back gives the value
/// again: whatever is an image of `v` decodes to `v`.
pub proof fn lemma_round_trip(p: PyValue, v: CLValue)
    requires
        represents(p, v),
    ensures
        decode(p) == Some(v),
    decreases p,
{
    match p {
        PyValue::Tuple(xs) => {
            lemma_round_trip_all(xs@, v->Tuple_0);
        },
        PyValue::List(xs) => {
            lemma_round_trip_all(xs@, v->Array_0);
        },
        PyValue::Dict(items) => {
            lemma_round_trip_items(items@, v->Object_0);
        },
        _ => {},
    }
}

/// The round trip, element by element.
pub proof fn lemma_round_trip_all(xs: Seq<PyValue>, vs: Seq<CLValue>)
    requires
        represents_all(xs, vs),
    ensures
        decode_all(xs) == Some(vs),
    decreases xs,
{
    if xs.len() > 0 {
        let xs0 = xs.drop_last();
        let vs0 = vs.drop_last();
        assert(represents_all(xs0, vs0)) by {
            assert forall|i: int| 0 <= i < xs0.len() implies represents(#[trigger] xs0[i], vs0[i]) by {
                assert(represents(xs[i], vs[i]));
            }
        }
        lemma_round_trip_all(xs0, vs0);
        assert(represents(xs[xs.len() - 1], vs[xs.len() - 1]));
        lemma_round_trip(xs.last(), vs.last());
        assert(vs0.push(vs.last()) =~= vs);
    } else {
        assert(vs =~= Seq::empty());
    }
}

/// The round trip of a dictionary: items that are exactly the entries of a
/// map decode to that map.
pub proof fn lemma_round_trip_items(items: Seq<(PyValue, PyValue)>, m: Map<Seq<char>, CLValue>)
    requires
        represents_items(items, m),
    ensures
        decode_items(items) == Some(m),
    decreases items,
{
    if items.len() > 0 {
        let n = items.len() - 1;
        let items0 = items.drop_last();
        let last = items[n];
        let k = py_key(last.0)->Some_0;
        let m0 = m.remove(k);
        assert(represents_items(items0, m0)) by {
            assert forall|i: int| 0 <= i < items0.len() implies match py_key(
                (#[trigger] items0[i]).0,
            ) {
                Some(k0) => m0.contains_key(k0) && represents(items0[i].1, m0[k0]),
                None => false,
            } by {
                assert(items0[i] == items[i]);
                assert(py_key(items[i].0) != py_key(items[n].0));
            }
            assert forall|i: int, j: int| 0 <= i < j < items0.len() implies py_key(
                (#[trigger] items0[i]).0,
            ) != py_key((#[trigger] items0[j]).0) by {
                assert(items0[i] == items[i] && items0[j] == items[j]);
            }
            assert forall|k0: Seq<char>| m0.contains_key(k0) implies exists|i: int|
                0 <= i < items0.len() && py_key((#[trigger] items0[i]).0) == Some(k0) by {
                let i = choose|i: int|
                    0 <= i < items.len() && py_key((#[trigger] items[i]).0) == Some(k0);
                assert(i != n);
                assert(items0[i] == items[i]);
            }
        }
        lemma_round_trip_items(items0, m0);
        lemma_round_trip(last.1, m[k]);
        assert(m0.insert(k, m[k]) =~= m);
    } else {
        assert(m =~= Map::empty()) by {
            assert forall|k: Seq<char>| !m.contains_key(k) by {
                if m.contains_key(k) {
                    let i = choose|i: int|
                        0 <= i < items.len() && py_key((#[trigger] items[i]).0) == Some(k);
                }
            }
        }
    }
}

/// The round trip of a primitive value (text of either kind, a boolean, a
/// number, null): its image is that primitive alone, and decodes to it.
pub proof fn lemma_primitive_round_trip(p: PyValue, v: CLValue)
    requires
        v.kind().is_primitive(),
        represents(p, v),
    ensures
        decode(p) == Some(v),
        !(p is Tuple) && !(p is List) && !(p is Dict) && !(p is Object),
{
}

/// The value stored under a text key in a sequence of dictionary items; of
/// two items with the same key the later counts.
pub open spec fn lookup(items: Seq<(PyValue, PyValue)>, key: Seq<char>) -> Option<PyValue>
    decreases items.len(),
{
    if items.len() == 0 {
        None
    } else if py_key(items.last().0) == Some(key) {
        Some(items.last().1)
    } else {
        lookup(items.drop_last(), key)
    }
}

/// What subscripting a value with a text key gives.
pub open spec fn item_of(p: PyValue, key: Seq<char>) -> Result<PyValue, ExtractError> {
    match p {
        PyValue::Dict(items) => match lookup(items@, key) {
            Some(v) => Ok(v),
            None => Err(ExtractError::MissingKey),
        },
        _ => Err(ExtractError::NotADict),
    }
}

/// The text of a value that is plain text.
pub open spec fn text_of(p: PyValue) -> Result<Seq<char>, ExtractError> {
    match p {
        PyValue::Str(s) => Ok(s@),
        _ => Err(ExtractError::WrongType),
    }
}

/// The bit pattern of a value that is a floating-point number.
pub open spec fn float_bits_of(p: PyValue) -> Result<u64, ExtractError> {
    match p {
        PyValue::Float(f) => Ok(f),
        _ => Err(ExtractError::WrongType),
    }
}

/// An item of the suffix that starts at `i` is found by looking there first.
proof fn lemma_lookup_from(items: Seq<(PyValue, PyValue)>, key: Seq<char>, i: int)
    requires
        0 <= i <= items.len(),
        forall|j: int| i <= j < items.len() ==> py_key((#[trigger] items[j]).0) != Some(key),
    ensures
        lookup(items, key) == lookup(items.take(i), key),
    decreases items.len() - i,
{
    if i < items.len() {
        assert(py_key(items[items.len() - 1].0) != Some(key));
        let t = items.drop_last();
        assert forall|j: int| i <= j < t.len() implies py_key((#[trigger] t[j]).0) != Some(key) by {
            assert(t[j] == items[j]);
        }
        lemma_lookup_from(t, key, i);
        assert(t.take(i) =~= items.take(i));
    } else {
        assert(items.take(i) =~= items);
    }
}

/// The value stored under a text key among the items, the later of two.
fn find_item<'a>(items: &'a Vec<(PyValue, PyValue)>, key: &str) -> (r: Option<&'a PyValue>)
    ensures
        match lookup(items@, key@) {
            Some(v) => r matches Some(x) && *x == v,
            None => r is None,
        },
{
    let wanted = key.to_owned();
    let mut i: usize = items.len();
    while i > 0
        invariant
            i <= items.len(),
            wanted@ == key@,
            forall|j: int| i <= j < items.len() ==> py_key((#[trigger] items@[j]).0) != Some(key@),
        decreases i,
    {
        i -= 1;
        match &items[i].0 {
            PyValue::Str(k) => {
                if *k == wanted {
                    proof {
                        lemma_lookup_from(items@, key@, i + 1);
                        let t = items@.take(i + 1);
                        assert(t.last() == items@[i as int]);
                        assert(lookup(t, key@) == Some(t.last().1));
                    }
                    return Some(&items[i].1);
                }
            },
            _ => {},
        }
    }
    proof {
        lemma_lookup_from(items@, key@, 0);
    }
    None
}

impl PyValue {
    /// Subscripts the value with a text key, as the embedded runtime does for
    /// a dictionary.
    pub fn get_item(&self, key: &str) -> (r: Result<&PyValue, ExtractError>)
        ensures
            match item_of(*self, key@) {
                Ok(v) => r matches Ok(x) && *x == v,
                Err(e) => r == Err::<&PyValue, ExtractError>(e),
            },
    {
        match self {
            PyValue::Dict(items) => match find_item(items, key) {
                Some(v) => Ok(v),
                None => Err(ExtractError::MissingKey),
            },
            _ => Err(ExtractError::NotADict),
        }
    }

    /// The text of a value that is plain text.
    pub fn as_text(&self) -> (r: Result<&String, ExtractError>)
        ensures
            match text_of(*self) {
                Ok(t) => r matches Ok(s) && s@ == t,
                Err(e) => r == Err::<&String, ExtractError>(e),
            },
    {
        match self {
            PyValue::Str(s) => Ok(s),
            _ => Err(ExtractError::WrongType),
        }
    }

    /// The bit pattern of a value that is a floating-point number.
    pub fn as_float_bits(&self) -> (r: Result<u64, ExtractError>)
        ensures
            r == float_bits_of(*self),
    {
        match self {
            PyValue::Float(f) => Ok(*f),
            _ => Err(ExtractError::WrongType),
        }
    }
}

} // verus!
