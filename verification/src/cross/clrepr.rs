//! The cross-language value: a closed tagged union that both sides of the
//! bridge can build and take apart.

use vstd::prelude::*;
use vstd::set_lib::lemma_subset_equality;
use vstd::std_specs::cmp::PartialEqSpecImpl;

verus! {

/// How the text of a `CLRepr::String` is to be treated by the receiver.
#[derive(Debug, Clone, Copy, PartialEq, Eq, Structural)]
pub enum StringType {
    Normal,
    /// Text that must never be re-interpreted or executed.
    Safe,
}

/// The discriminant of a cross-language value.
#[derive(Debug, Clone, Copy, PartialEq, Eq, Structural)]
pub enum CLReprKind {
    String,
    Bool,
    Float,
    Int,
    Tuple,
    Array,
    Object,
    JsFunction,
    PythonRef,
    Null,
}

/// A handle to a value that the embedded runtime owns. The handle says
/// nothing about the value; only the runtime can resolve it.
#[derive(Debug, Clone, Copy, PartialEq, Eq, Structural)]
pub struct PythonRef {
    pub handle: u64,
}

/// The entries of a `CLRepr::Object`: text keys, each at most once.
#[derive(Debug)]
pub struct CLReprObject {
    pub(crate) entries: Vec<(String, CLRepr)>,
}

/// A value that crosses the boundary between the host and the embedded
/// runtime. `Float` carries the IEEE 754 binary64 bit pattern of the number.
#[derive(Debug)]
pub enum CLRepr {
    String(String, StringType),
    Bool(bool),
    Float(u64),
    Int(i64),
    Tuple(Vec<CLRepr>),
    Array(Vec<CLRepr>),
    Object(CLReprObject),
    PythonRef(PythonRef),
    Null,
}

/// The mathematical value that a `CLRepr` stands for.
pub enum CLValue {
    String(Seq<char>, StringType),
    Bool(bool),
    Float(u64),
    Int(i64),
    Tuple(Seq<CLValue>),
    Array(Seq<CLValue>),
    Object(Map<Seq<char>, CLValue>),
    PythonRef(PythonRef),
    Null,
}

/// A downcast met a value of another kind than the one asked for.
#[derive(Debug, Clone, Copy, PartialEq, Eq, Structural)]
pub struct TypeMismatch {
    pub expected: CLReprKind,
    pub actual: CLReprKind,
}

/// The value of one `CLRepr`.
pub open spec fn value_of(r: CLRepr) -> CLValue
    decreases r,
{
    match r {
        CLRepr::String(s, t) => CLValue::String(s@, t),
        CLRepr::Bool(b) => CLValue::Bool(b),
        CLRepr::Float(f) => CLValue::Float(f),
        CLRepr::Int(i) => CLValue::Int(i),
        CLRepr::Tuple(v) => CLValue::Tuple(values_of(v@)),
        CLRepr::Array(v) => CLValue::Array(values_of(v@)),
        CLRepr::Object(o) => CLValue::Object(object_value(o)),
        CLRepr::PythonRef(p) => CLValue::PythonRef(p),
        CLRepr::Null => CLValue::Null,
    }
}

/// The values of a sequence of `CLRepr`, in order.
pub open spec fn values_of(s: Seq<CLRepr>) -> Seq<CLValue>
    decreases s,
{
    if s.len() == 0 {
        Seq::empty()
    } else {
        values_of(s.drop_last()).push(value_of(s.last()))
    }
}

/// The map that a sequence of entries stands for. Where a key occurs more
/// than once, the last entry counts.
pub open spec fn entries_map(s: Seq<(String, CLRepr)>) -> Map<Seq<char>, CLValue>
    decreases s,
{
    if s.len() == 0 {
        Map::empty()
    } else {
        entries_map(s.drop_last()).insert(s.last().0@, value_of(s.last().1))
    }
}

/// The map that an object stands for.
pub closed spec fn object_value(o: CLReprObject) -> Map<Seq<char>, CLValue>
    decreases o,
{
    entries_map(o.entries@)
}

/// No key occurs in two entries.
pub open spec fn keys_distinct(s: Seq<(String, CLRepr)>) -> bool {
    forall|i: int, j: int| 0 <= i < j < s.len() ==> (#[trigger] s[i]).0@ != (#[trigger] s[j]).0@
}

/// The keys of a sequence of entries, in order.
pub open spec fn keys_of(s: Seq<(String, CLRepr)>) -> Seq<Seq<char>> {
    Seq::new(s.len(), |i: int| s[i].0@)
}

/// `values_of` maps `value_of` over the sequence.
pub proof fn lemma_values_of(s: Seq<CLRepr>)
    ensures
        values_of(s).len() == s.len(),
        forall|i: int| 0 <= i < s.len() ==> #[trigger] values_of(s)[i] == value_of(s[i]),
    decreases s.len(),
{
    if s.len() > 0 {
        lemma_values_of(s.drop_last());
    }
}

/// Appending an element appends its value.
pub proof fn lemma_values_of_push(s: Seq<CLRepr>, x: CLRepr)
    ensures
        values_of(s.push(x)) == values_of(s).push(value_of(x)),
{
    assert(s.push(x).drop_last() =~= s);
}

/// A key is in the map of a sequence of entries exactly when some entry has
/// it.
pub proof fn lemma_entries_map_dom(s: Seq<(String, CLRepr)>, k: Seq<char>)
    ensures
        entries_map(s).contains_key(k) <==> exists|i: int|
            0 <= i < s.len() && (#[trigger] s[i]).0@ == k,
        entries_map(s).dom().finite(),
    decreases s.len(),
{
    if s.len() > 0 {
        let t = s.drop_last();
        lemma_entries_map_dom(t, k);
        if entries_map(s).contains_key(k) {
            if s.last().0@ == k {
                assert(s[s.len() - 1].0@ == k);
            } else {
                let i = choose|i: int| 0 <= i < t.len() && (#[trigger] t[i]).0@ == k;
                assert(s[i].0@ == k);
            }
        }
        if exists|i: int| 0 <= i < s.len() && (#[trigger] s[i]).0@ == k {
            let i = choose|i: int| 0 <= i < s.len() && (#[trigger] s[i]).0@ == k;
            if i < s.len() - 1 {
                assert(t[i].0@ == k);
            }
        }
    }
}

/// With distinct keys, the map of a sequence of entries gives each entry's
/// key that entry's value.
pub proof fn lemma_entries_map_index(s: Seq<(String, CLRepr)>, i: int)
    requires
        keys_distinct(s),
        0 <= i < s.len(),
    ensures
        entries_map(s).contains_key(s[i].0@),
        entries_map(s)[s[i].0@] == value_of(s[i].1),
    decreases s.len(),
{
    let t = s.drop_last();
    if i < s.len() - 1 {
        assert(keys_distinct(t)) by {
            assert forall|a: int, b: int| 0 <= a < b < t.len() implies (#[trigger] t[a]).0@ != (
            #[trigger] t[b]).0@ by {
                assert(t[a] == s[a] && t[b] == s[b]);
            }
        }
        lemma_entries_map_index(t, i);
        assert(t[i] == s[i]);
        assert(s[i].0@ != s[s.len() - 1].0@);
    }
}

/// With distinct keys, the map has as many keys as there are entries.
pub proof fn lemma_entries_map_len(s: Seq<(String, CLRepr)>)
    requires
        keys_distinct(s),
    ensures
        entries_map(s).dom().finite(),
        entries_map(s).len() == s.len(),
    decreases s.len(),
{
    if s.len() > 0 {
        let t = s.drop_last();
        assert(keys_distinct(t)) by {
            assert forall|a: int, b: int| 0 <= a < b < t.len() implies (#[trigger] t[a]).0@ != (
            #[trigger] t[b]).0@ by {
                assert(t[a] == s[a] && t[b] == s[b]);
            }
        }
        lemma_entries_map_len(t);
        lemma_entries_map_dom(t, s.last().0@);
        if entries_map(t).contains_key(s.last().0@) {
            let i = choose|i: int| 0 <= i < t.len() && (#[trigger] t[i]).0@ == s.last().0@;
            assert(s[i].0@ == s[s.len() - 1].0@);
        }
    } else {
        assert(entries_map(s).dom() =~= Set::empty());
    }
}

/// Whether a string holds the characters of a string slice.
pub(crate) fn text_is(text: &String, wanted: &str) -> (r: bool)
    ensures
        r == (text@ == wanted@),
{
    *text == wanted.to_owned()
}

impl View for CLReprObject {
    type V = Map<Seq<char>, CLValue>;

    open spec fn view(&self) -> Map<Seq<char>, CLValue> {
        object_value(*self)
    }
}

impl View for CLRepr {
    type V = CLValue;

    open spec fn view(&self) -> CLValue {
        value_of(*self)
    }
}

/// What an object's map, validity and key order are in terms of its entries.
pub(crate) proof fn lemma_object_entries(o: CLReprObject)
    ensures
        o@ == entries_map(o.entries@),
        o.wf() == keys_distinct(o.entries@),
        o.key_seq() == keys_of(o.entries@),
{
}

impl CLReprObject {
    /// Every object holds each key at most once.
    #[verifier::type_invariant]
    pub closed spec fn wf(self) -> bool {
        keys_distinct(self.entries@)
    }

    /// The keys in the order in which `keys`, `iter` and `into_iter` give
    /// them.
    pub closed spec fn key_seq(self) -> Seq<Seq<char>> {
        keys_of(self.entries@)
    }

    /// The keys of an object are those of its map, each once.
    pub proof fn lemma_key_seq(self)
        requires
            self.wf(),
        ensures
            self.key_seq().no_duplicates(),
            self@.dom().finite(),
            self.key_seq().len() == self@.len(),
            forall|k: Seq<char>| self.key_seq().contains(k) <==> self@.contains_key(k),
    {
        let s = self.entries@;
        lemma_entries_map_len(s);
        assert forall|k: Seq<char>| self.key_seq().contains(k) <==> self@.contains_key(k) by {
            lemma_entries_map_dom(s, k);
            if self.key_seq().contains(k) {
                let i = choose|i: int| 0 <= i < self.key_seq().len() && self.key_seq()[i] == k;
                assert(s[i].0@ == k);
            }
            if self@.contains_key(k) {
                let i = choose|i: int| 0 <= i < s.len() && (#[trigger] s[i]).0@ == k;
                assert(self.key_seq()[i] == k);
            }
        }
    }

    /// An object without entries.
    pub fn new() -> (o: Self)
        ensures
            o@ == Map::<Seq<char>, CLValue>::empty(),
            o.key_seq() == Seq::<Seq<char>>::empty(),
    {
        let o = CLReprObject { entries: Vec::new() };
        assert(o.key_seq() =~= Seq::<Seq<char>>::empty());
        o
    }

    /// The number of entries.
    pub fn len(&self) -> (n: usize)
        ensures
            self@.dom().finite(),
            n == self@.len(),
            n == self.key_seq().len(),
    {
        proof {
            use_type_invariant(self);
            lemma_entries_map_len(self.entries@);
        }
        self.entries.len()
    }

    /// Where the entry with the given key stands, if there is one.
    fn position(&self, key: &str) -> (r: Option<usize>)
        ensures
            match r {
                Some(i) => i < self.entries.len() && self.entries[i as int].0@ == key@,
                None => forall|i: int|
                    0 <= i < self.entries.len() ==> (#[trigger] self.entries[i]).0@ != key@,
            },
    {
        let wanted = key.to_owned();
        let mut i: usize = 0;
        while i < self.entries.len()
            invariant
                i <= self.entries.len(),
                wanted@ == key@,
                forall|j: int| 0 <= j < i ==> (#[trigger] self.entries[j]).0@ != key@,
            decreases self.entries.len() - i,
        {
            if self.entries[i].0 == wanted {
                return Some(i);
            }
            i += 1;
        }
        None
    }

    /// The value stored under `key`, if any.
    pub fn get(&self, key: &str) -> (r: Option<&CLRepr>)
        ensures
            r is Some <==> self@.contains_key(key@),
            r matches Some(v) ==> v@ == self@[key@],
    {
        proof {
            use_type_invariant(self);
            lemma_entries_map_dom(self.entries@, key@);
        }
        match self.position(key) {
            Some(i) => {
                proof {
                    lemma_entries_map_index(self.entries@, i as int);
                }
                Some(&self.entries[i].1)
            },
            None => None,
        }
    }

    /// Stores `value` under `key`. Where the key was present its value is
    /// replaced and the previous one returned; the number of entries then
    /// stays as it was.
    pub fn insert(&mut self, key: String, value: CLRepr) -> (prev: Option<CLRepr>)
        ensures
            final(self)@ == old(self)@.insert(key@, value@),
            prev is Some <==> old(self)@.contains_key(key@),
            prev matches Some(p) ==> p@ == old(self)@[key@],
            final(self).key_seq().len() == if old(self)@.contains_key(key@) {
                old(self).key_seq().len()
            } else {
                old(self).key_seq().len() + 1
            },
    {
        proof {
            use_type_invariant(&*self);
            lemma_entries_map_dom(self.entries@, key@);
        }
        let ghost before = self.entries@;
        let found = self.position(key.as_str());
        let mut entries: Vec<(String, CLRepr)> = Vec::new();
        std::mem::swap(&mut self.entries, &mut entries);
        match found {
            Some(i) => {
                let removed = entries.remove(i);
                entries.insert(i, (key, value));
                let ghost after = entries@;
                proof {
                    lemma_entries_map_index(before, i as int);
                    assert(keys_distinct(after)) by {
                        assert forall|a: int, b: int| 0 <= a < b < after.len() implies (
                        #[trigger] after[a]).0@ != (#[trigger] after[b]).0@ by {
                            assert(after[a].0@ == before[a].0@);
                            assert(after[b].0@ == before[b].0@);
                        }
                    }
                    assert(entries_map(after) =~= entries_map(before).insert(key@, value@)) by {
                        assert forall|k: Seq<char>|
                            entries_map(after).contains_key(k) <==> entries_map(before).insert(
                                key@,
                                value@,
                            ).contains_key(k) by {
                            lemma_entries_map_dom(after, k);
                            lemma_entries_map_dom(before, k);
                            if entries_map(after).contains_key(k) {
                                let a = choose|a: int|
                                    0 <= a < after.len() && (#[trigger] after[a]).0@ == k;
                                assert(before[a].0@ == k);
                            }
                            if entries_map(before).contains_key(k) {
                                let a = choose|a: int|
                                    0 <= a < before.len() && (#[trigger] before[a]).0@ == k;
                                assert(after[a].0@ == k);
                            }
                            if k == key@ {
                                assert(after[i as int].0@ == k);
                            }
                        }
                        assert forall|k: Seq<char>|
                            entries_map(after).contains_key(k) implies entries_map(after)[k]
                            == entries_map(before).insert(key@, value@)[k] by {
                            lemma_entries_map_dom(after, k);
                            let a = choose|a: int|
                                0 <= a < after.len() && (#[trigger] after[a]).0@ == k;
                            lemma_entries_map_index(after, a);
                            if a != i {
                                lemma_entries_map_index(before, a);
                                assert(after[a] == before[a]);
                            }
                        }
                    }
                    assert(keys_of(after).len() == keys_of(before).len());
                }
                self.entries = entries;
                Some(removed.1)
            },
            None => {
                entries.push((key, value));
                let ghost after = entries@;
                proof {
                    assert(after.drop_last() =~= before);
                    assert(keys_distinct(after)) by {
                        assert forall|a: int, b: int| 0 <= a < b < after.len() implies (
                        #[trigger] after[a]).0@ != (#[trigger] after[b]).0@ by {
                            assert(after[a] == before[a]);
                            if b < before.len() {
                                assert(after[b] == before[b]);
                            }
                        }
                    }
                }
                self.entries = entries;
                None
            },
        }
    }

    /// The keys, each once, in the order of `key_seq`.
    pub fn keys(&self) -> (r: Vec<&String>)
        ensures
            r@.len() == self.key_seq().len(),
            forall|i: int| 0 <= i < r@.len() ==> (#[trigger] r@[i])@ == self.key_seq()[i],
    {
        let mut out: Vec<&String> = Vec::new();
        let mut i: usize = 0;
        while i < self.entries.len()
            invariant
                i <= self.entries.len(),
                out@.len() == i,
                forall|j: int| 0 <= j < i ==> (#[trigger] out@[j])@ == self.entries@[j].0@,
            decreases self.entries.len() - i,
        {
            out.push(&self.entries[i].0);
            i += 1;
        }
        out
    }

    /// The entries, each key once, in the order of `key_seq`.
    pub fn iter(&self) -> (r: Vec<(&String, &CLRepr)>)
        ensures
            r@.len() == self.key_seq().len(),
            forall|i: int|
                0 <= i < r@.len() ==> {
                    &&& (#[trigger] r@[i]).0@ == self.key_seq()[i]
                    &&& self@.contains_key(r@[i].0@)
                    &&& r@[i].1@ == self@[r@[i].0@]
                },
    {
        proof {
            use_type_invariant(self);
        }
        let mut out: Vec<(&String, &CLRepr)> = Vec::new();
        let mut i: usize = 0;
        while i < self.entries.len()
            invariant
                i <= self.entries.len(),
                out@.len() == i,
                keys_distinct(self.entries@),
                forall|j: int|
                    0 <= j < i ==> {
                        &&& (#[trigger] out@[j]).0@ == self.entries@[j].0@
                        &&& entries_map(self.entries@).contains_key(out@[j].0@)
                        &&& out@[j].1@ == entries_map(self.entries@)[out@[j].0@]
                    },
            decreases self.entries.len() - i,
        {
            proof {
                lemma_entries_map_index(self.entries@, i as int);
            }
            out.push((&self.entries[i].0, &self.entries[i].1));
            i += 1;
        }
        out
    }

    /// Gives up the object and hands out its entries, each key once, in the
    /// order of `key_seq`.
    pub fn into_iter(self) -> (r: Vec<(String, CLRepr)>)
        ensures
            keys_of(r@) == self.key_seq(),
            keys_distinct(r@),
            entries_map(r@) == self@,
    {
        proof {
            use_type_invariant(&self);
        }
        self.entries
    }
}

/// A copy of each element, in order.
pub(crate) fn clone_values(v: &Vec<CLRepr>) -> (r: Vec<CLRepr>)
    ensures
        values_of(r@) == values_of(v@),
    decreases v,
{
    let mut out: Vec<CLRepr> = Vec::new();
    let mut i: usize = 0;
    while i < v.len()
        invariant
            i <= v.len(),
            values_of(out@) == values_of(v@.take(i as int)),
        decreases v.len() - i,
    {
        let item = v[i].clone();
        proof {
            lemma_values_of_push(out@, item);
            lemma_values_of_push(v@.take(i as int), v@[i as int]);
            assert(v@.take(i as int).push(v@[i as int]) =~= v@.take(i + 1));
        }
        out.push(item);
        i += 1;
    }
    assert(v@.take(v.len() as int) =~= v@);
    out
}

/// A copy of each entry, in order.
fn clone_entries(v: &Vec<(String, CLRepr)>) -> (r: Vec<(String, CLRepr)>)
    ensures
        r@.len() == v@.len(),
        forall|i: int|
            0 <= i < v@.len() ==> (#[trigger] r@[i]).0@ == v@[i].0@ && value_of(r@[i].1)
                == value_of(v@[i].1),
    decreases v,
{
    let mut out: Vec<(String, CLRepr)> = Vec::new();
    let mut i: usize = 0;
    while i < v.len()
        invariant
            i <= v.len(),
            out@.len() == i,
            forall|j: int|
                0 <= j < i ==> (#[trigger] out@[j]).0@ == v@[j].0@ && value_of(out@[j].1)
                    == value_of(v@[j].1),
        decreases v.len() - i,
    {
        let key = v[i].0.clone();
        let value = v[i].1.clone();
        out.push((key, value));
        i += 1;
    }
    out
}

/// Two sequences of entries with the same keys and values, place by place,
/// stand for the same map.
proof fn lemma_entries_map_congruent(a: Seq<(String, CLRepr)>, b: Seq<(String, CLRepr)>)
    requires
        a.len() == b.len(),
        forall|i: int|
            0 <= i < a.len() ==> (#[trigger] a[i]).0@ == b[i].0@ && value_of(a[i].1) == value_of(
                b[i].1,
            ),
    ensures
        entries_map(a) == entries_map(b),
    decreases a.len(),
{
    if a.len() > 0 {
        let a0 = a.drop_last();
        let b0 = b.drop_last();
        assert forall|i: int| 0 <= i < a0.len() implies (#[trigger] a0[i]).0@ == b0[i].0@
            && value_of(a0[i].1) == value_of(b0[i].1) by {
            assert(a0[i] == a[i] && b0[i] == b[i]);
        }
        lemma_entries_map_congruent(a0, b0);
        assert(a[a.len() - 1].0@ == b[a.len() - 1].0@);
    }
}

impl Clone for CLReprObject {
    /// A copy that stands for the same map, with the keys in the same order.
    fn clone(&self) -> (r: Self)
        ensures
            r@ == self@,
            r.key_seq() == self.key_seq(),
        decreases self,
    {
        proof {
            use_type_invariant(self);
        }
        let entries = clone_entries(&self.entries);
        proof {
            lemma_entries_map_congruent(entries@, self.entries@);
            assert(keys_of(entries@) =~= keys_of(self.entries@));
            assert(keys_distinct(entries@)) by {
                assert forall|a: int, b: int| 0 <= a < b < entries@.len() implies (
                #[trigger] entries@[a]).0@ != (#[trigger] entries@[b]).0@ by {
                    assert(self.entries@[a].0@ != self.entries@[b].0@);
                }
            }
        }
        CLReprObject { entries }
    }
}

impl Clone for CLRepr {
    /// A copy that stands for the same value.
    fn clone(&self) -> (r: Self)
        ensures
            r@ == self@,
        decreases self,
    {
        match self {
            CLRepr::String(s, t) => CLRepr::String(s.clone(), *t),
            CLRepr::Bool(b) => CLRepr::Bool(*b),
            CLRepr::Float(f) => CLRepr::Float(*f),
            CLRepr::Int(i) => CLRepr::Int(*i),
            CLRepr::Tuple(v) => CLRepr::Tuple(clone_values(v)),
            CLRepr::Array(v) => CLRepr::Array(clone_values(v)),
            CLRepr::Object(o) => CLRepr::Object(o.clone()),
            CLRepr::PythonRef(p) => CLRepr::PythonRef(*p),
            CLRepr::Null => CLRepr::Null,
        }
    }
}

/// Whether two sequences hold equal values, place by place.
fn same_values(a: &Vec<CLRepr>, b: &Vec<CLRepr>) -> (r: bool)
    ensures
        r == (values_of(a@) == values_of(b@)),
    decreases a,
{
    proof {
        lemma_values_of(a@);
        lemma_values_of(b@);
    }
    if a.len() != b.len() {
        return false;
    }
    let mut i: usize = 0;
    while i < a.len()
        invariant
            i <= a.len(),
            a.len() == b.len(),
            values_of(a@).len() == a@.len(),
            values_of(b@).len() == b@.len(),
            forall|j: int| 0 <= j < a@.len() ==> #[trigger] values_of(a@)[j] == value_of(a@[j]),
            forall|j: int| 0 <= j < b@.len() ==> #[trigger] values_of(b@)[j] == value_of(b@[j]),
            forall|j: int| 0 <= j < i ==> value_of(#[trigger] a@[j]) == value_of(b@[j]),
        decreases a.len() - i,
    {
        if !a[i].same_value(&b[i]) {
            assert(values_of(a@)[i as int] != values_of(b@)[i as int]);
            return false;
        }
        i += 1;
    }
    assert(values_of(a@) =~= values_of(b@));
    true
}

/// Whether two objects stand for the same map.
fn same_entries(a: &CLReprObject, b: &CLReprObject) -> (r: bool)
    ensures
        r == (a@ == b@),
    decreases a,
{
    proof {
        use_type_invariant(a);
        use_type_invariant(b);
        lemma_entries_map_len(a.entries@);
        lemma_entries_map_len(b.entries@);
    }
    if a.entries.len() != b.entries.len() {
        return false;
    }
    let mut i: usize = 0;
    while i < a.entries.len()
        invariant
            i <= a.entries.len(),
            keys_distinct(a.entries@),
            forall|j: int|
                0 <= j < i ==> b@.contains_key((#[trigger] a.entries@[j]).0@) && b@[a.entries@[j].0@]
                    == value_of(a.entries@[j].1),
        decreases a.entries.len() - i,
    {
        proof {
            lemma_entries_map_index(a.entries@, i as int);
        }
        match b.get(a.entries[i].0.as_str()) {
            None => {
                return false;
            },
            Some(w) => {
                if !a.entries[i].1.same_value(w) {
                    return false;
                }
            },
        }
        i += 1;
    }
    proof {
        let s = a.entries@;
        assert forall|k: Seq<char>| #[trigger] a@.dom().contains(k) implies b@.dom().contains(k)
            && a@[k] == b@[k] by {
            lemma_entries_map_dom(s, k);
            let j = choose|j: int| 0 <= j < s.len() && (#[trigger] s[j]).0@ == k;
            lemma_entries_map_index(s, j);
            assert(b@.contains_key(s[j].0@));
        }
        assert(a@.dom().subset_of(b@.dom()));
        lemma_subset_equality(a@.dom(), b@.dom());
        assert(a@ =~= b@);
    }
    true
}

impl CLRepr {
    /// Whether two values are equal: the same variant with equal contents;
    /// for objects, the same keys with equal values, in any order.
    pub fn same_value(&self, other: &CLRepr) -> (r: bool)
        ensures
            r == (self@ == other@),
        decreases self,
    {
        match (self, other) {
            (CLRepr::String(s, k), CLRepr::String(t, l)) => *s == *t && *k
                == *l,
            (CLRepr::Bool(x), CLRepr::Bool(y)) => *x == *y,
            (CLRepr::Float(x), CLRepr::Float(y)) => *x == *y,
            (CLRepr::Int(x), CLRepr::Int(y)) => *x == *y,
            (CLRepr::Tuple(x), CLRepr::Tuple(y)) => same_values(x, y),
            (CLRepr::Array(x), CLRepr::Array(y)) => same_values(x, y),
            (CLRepr::Object(x), CLRepr::Object(y)) => same_entries(x, y),
            (CLRepr::PythonRef(x), CLRepr::PythonRef(y)) => x.handle == y.handle,
            (CLRepr::Null, CLRepr::Null) => true,
            _ => false,
        }
    }
}

impl PartialEq for CLRepr {
    fn eq(&self, other: &Self) -> (r: bool) {
        self.same_value(other)
    }
}

impl PartialEqSpecImpl for CLRepr {
    open spec fn obeys_eq_spec() -> bool {
        true
    }

    open spec fn eq_spec(&self, other: &Self) -> bool {
        self@ == other@
    }
}

impl PartialEq for CLReprObject {
    fn eq(&self, other: &Self) -> (r: bool) {
        same_entries(self, other)
    }
}

impl PartialEqSpecImpl for CLReprObject {
    open spec fn obeys_eq_spec() -> bool {
        true
    }

    open spec fn eq_spec(&self, other: &Self) -> bool {
        self@ == other@
    }
}

impl CLReprKind {
    /// Whether values of this kind nest no other value and carry no handle.
    pub open spec fn is_primitive(self) -> bool {
        self is String || self is Bool || self is Float || self is Int || self is Null
    }
}

impl CLValue {
    /// The discriminant of the value.
    pub open spec fn kind(self) -> CLReprKind {
        match self {
            CLValue::String(_, _) => CLReprKind::String,
            CLValue::Bool(_) => CLReprKind::Bool,
            CLValue::Float(_) => CLReprKind::Float,
            CLValue::Int(_) => CLReprKind::Int,
            CLValue::Tuple(_) => CLReprKind::Tuple,
            CLValue::Array(_) => CLReprKind::Array,
            CLValue::Object(_) => CLReprKind::Object,
            CLValue::PythonRef(_) => CLReprKind::PythonRef,
            CLValue::Null => CLReprKind::Null,
        }
    }
}

impl CLRepr {
    /// Whether the value is `Null`.
    pub fn is_null(&self) -> (r: bool)
        ensures
            r == (self@ is Null),
    {
        matches!(self, CLRepr::Null)
    }

    /// The discriminant; every variant has one.
    pub fn kind(&self) -> (k: CLReprKind)
        ensures
            k == self@.kind(),
            k != CLReprKind::JsFunction,
    {
        match self {
            CLRepr::String(_, _) => CLReprKind::String,
            CLRepr::Bool(_) => CLReprKind::Bool,
            CLRepr::Float(_) => CLReprKind::Float,
            CLRepr::Int(_) => CLReprKind::Int,
            CLRepr::Tuple(_) => CLReprKind::Tuple,
            CLRepr::Array(_) => CLReprKind::Array,
            CLRepr::Object(_) => CLReprKind::Object,
            CLRepr::PythonRef(_) => CLReprKind::PythonRef,
            CLRepr::Null => CLReprKind::Null,
        }
    }

    /// The object inside an `Object`; for any other value the mismatch, with
    /// the kind that was met.
    pub fn downcast_to_object(self) -> (r: Result<CLReprObject, TypeMismatch>)
        ensures
            match self {
                CLRepr::Object(o) => r == Ok::<CLReprObject, TypeMismatch>(o),
                _ => r == Err::<CLReprObject, TypeMismatch>(
                    TypeMismatch { expected: CLReprKind::Object, actual: self@.kind() },
                ),
            },
    {
        match self {
            CLRepr::Object(o) => Ok(o),
            other => Err(TypeMismatch { expected: CLReprKind::Object, actual: other.kind() }),
        }
    }
}

} // verus!
