//! Attributes: a key and a value of one of four kinds. A list of attributes
//! keeps the order in which it was built and may hold a key more than once.

use vstd::prelude::*;
use vstd::string::*;

verus! {

/// An attribute key. Dots may part it into segments, as in
/// `work_order.request_id`.
#[derive(Debug, PartialEq, Eq)]
pub struct Key {
    inner: String,
}

impl View for Key {
    type V = Seq<char>;

    closed spec fn view(&self) -> Seq<char> {
        self.inner@
    }
}

/// `segments` joined by dots.
pub open spec fn dotted(segments: Seq<Seq<char>>) -> Seq<char>
    decreases segments.len(),
{
    if segments.len() == 0 {
        Seq::empty()
    } else if segments.len() == 1 {
        segments[0]
    } else {
        dotted(segments.drop_last()) + seq!['.'] + segments.last()
    }
}

impl Key {
    pub fn new(key: &str) -> (result: Key)
        ensures
            result@ == key@,
    {
        Key { inner: String::from_str(key) }
    }

    /// The key made of `segments` joined by dots.
    pub fn from_segments(segments: &[&str]) -> (result: Key)
        ensures
            result@ == dotted(Seq::new(segments@.len(), |i: int| segments@[i]@)),
    {
        let ghost all = Seq::new(segments@.len(), |i: int| segments@[i]@);
        let mut inner = String::new();
        let mut i: usize = 0;
        while i < segments.len()
            invariant
                i <= segments.len(),
                all == Seq::new(segments@.len(), |i: int| segments@[i]@),
                inner@ == dotted(all.take(i as int)),
            decreases segments.len() - i,
        {
            proof {
                reveal_strlit(".");
                assert(all.take(i + 1).drop_last() =~= all.take(i as int));
                assert(all.take(i + 1).last() == segments@[i as int]@);
            }
            if i > 0 {
                inner.append(".");
            } else {
                assert(inner@ =~= Seq::<char>::empty());
                assert(Seq::<char>::empty() + segments@[0]@ =~= segments@[0]@);
            }
            inner.append(segments[i]);
            i += 1;
        }
        assert(all.take(i as int) =~= all);
        Key { inner }
    }

    pub fn as_str(&self) -> (text: &str)
        ensures
            text@ == self@,
    {
        self.inner.as_str()
    }
}

impl Clone for Key {
    fn clone(&self) -> (copy: Key)
        ensures
            copy@ == self@,
    {
        Key { inner: self.inner.clone() }
    }
}

/// What an attribute value is, as a plain value.
pub enum ValueView {
    Bool(bool),
    Integer(i64),
    Float(u64),
    String(Seq<char>),
}

/// An attribute value. A floating-point number is held as the 64 bits of its
/// IEEE 754 double-precision form: this library carries it and never computes
/// with it.
#[derive(Debug, PartialEq, Eq)]
pub enum Value {
    Bool(bool),
    Integer(i64),
    Float(u64),
    String(String),
}

impl View for Value {
    type V = ValueView;

    open spec fn view(&self) -> ValueView {
        match self {
            Value::Bool(b) => ValueView::Bool(*b),
            Value::Integer(i) => ValueView::Integer(*i),
            Value::Float(bits) => ValueView::Float(*bits),
            Value::String(s) => ValueView::String(s@),
        }
    }
}

impl Value {
    /// The text value `text`.
    pub fn string(text: &str) -> (value: Value)
        ensures
            value@ == ValueView::String(text@),
    {
        Value::String(String::from_str(text))
    }

    /// The text value that holds serialised JSON.
    pub fn json(serialized: String) -> (value: Value)
        ensures
            value@ == ValueView::String(serialized@),
    {
        Value::String(serialized)
    }
}

impl Clone for Value {
    fn clone(&self) -> (copy: Value)
        ensures
            copy@ == self@,
    {
        match self {
            Value::Bool(b) => Value::Bool(*b),
            Value::Integer(i) => Value::Integer(*i),
            Value::Float(bits) => Value::Float(*bits),
            Value::String(s) => Value::String(s.clone()),
        }
    }
}

/// What an attribute is, as a plain value.
pub struct KeyValueView {
    pub key: Seq<char>,
    pub value: ValueView,
}

/// One attribute.
#[derive(Debug, PartialEq, Eq)]
pub struct KeyValue {
    pub key: Key,
    pub value: Value,
}

impl View for KeyValue {
    type V = KeyValueView;

    open spec fn view(&self) -> KeyValueView {
        KeyValueView { key: self.key@, value: self.value@ }
    }
}

impl KeyValue {
    pub fn new(key: &str, value: Value) -> (attribute: KeyValue)
        ensures
            attribute@ == (KeyValueView { key: key@, value: value@ }),
    {
        KeyValue { key: Key::new(key), value }
    }
}

impl Clone for KeyValue {
    fn clone(&self) -> (copy: KeyValue)
        ensures
            copy@ == self@,
    {
        KeyValue { key: self.key.clone(), value: self.value.clone() }
    }
}

/// The views of a list of attributes, in order.
pub open spec fn attributes_view(attributes: Seq<KeyValue>) -> Seq<KeyValueView> {
    Seq::new(attributes.len(), |i: int| attributes[i]@)
}

/// Copies a list of attributes: the same attributes in the same order, a key
/// that occurs twice still twice.
pub fn clone_attributes(attributes: &[KeyValue]) -> (copy: Vec<KeyValue>)
    ensures
        attributes_view(copy@) == attributes_view(attributes@),
{
    let mut copy: Vec<KeyValue> = Vec::new();
    let mut i: usize = 0;
    while i < attributes.len()
        invariant
            i <= attributes.len(),
            copy@.len() == i,
            forall|j: int| 0 <= j < i ==> (#[trigger] copy@[j])@ == attributes@[j]@,
        decreases attributes.len() - i,
    {
        copy.push(attributes[i].clone());
        i += 1;
    }
    assert(attributes_view(copy@) =~= attributes_view(attributes@));
    copy
}

/// Builds a list of attributes from pairs of key and value, in the order
/// given. Nothing is merged: a key given twice occurs twice.
pub fn kvset(pairs: &[(&str, Value)]) -> (attributes: Vec<KeyValue>)
    ensures
        attributes@.len() == pairs@.len(),
        forall|i: int|
            0 <= i < pairs@.len() ==> (#[trigger] attributes@[i])@ == (KeyValueView {
                key: pairs@[i].0@,
                value: pairs@[i].1@,
            }),
{
    let mut attributes: Vec<KeyValue> = Vec::new();
    let mut i: usize = 0;
    while i < pairs.len()
        invariant
            i <= pairs.len(),
            attributes@.len() == i,
            forall|j: int|
                0 <= j < i ==> (#[trigger] attributes@[j])@ == (KeyValueView {
                    key: pairs@[j].0@,
                    value: pairs@[j].1@,
                }),
        decreases pairs.len() - i,
    {
        attributes.push(KeyValue::new(pairs[i].0, pairs[i].1.clone()));
        i += 1;
    }
    attributes
}

/// The views of a list of key-value pairs, in order.
pub open spec fn pairs_view(pairs: Seq<(Key, Value)>) -> Seq<KeyValueView> {
    Seq::new(pairs.len(), |i: int| KeyValueView { key: pairs[i].0@, value: pairs[i].1@ })
}

/// Copies a list of key-value pairs: the same pairs in the same order.
pub fn clone_pairs(pairs: &[(Key, Value)]) -> (copy: Vec<(Key, Value)>)
    ensures
        pairs_view(copy@) == pairs_view(pairs@),
{
    let mut copy: Vec<(Key, Value)> = Vec::new();
    let mut i: usize = 0;
    while i < pairs.len()
        invariant
            i <= pairs.len(),
            copy@.len() == i,
            forall|j: int|
                0 <= j < i ==> (#[trigger] copy@[j]).0@ == pairs@[j].0@ && copy@[j].1@
                    == pairs@[j].1@,
        decreases pairs.len() - i,
    {
        copy.push((pairs[i].0.clone(), pairs[i].1.clone()));
        i += 1;
    }
    assert(pairs_view(copy@) =~= pairs_view(pairs@));
    copy
}

/// Builds the attributes of a log record from pairs of key and value, in the
/// order given. Nothing is merged: a key given twice occurs twice.
pub fn anykvset(pairs: &[(&str, Value)]) -> (attributes: Vec<(Key, Value)>)
    ensures
        attributes@.len() == pairs@.len(),
        forall|i: int|
            0 <= i < pairs@.len() ==> (#[trigger] attributes@[i]).0@ == pairs@[i].0@
                && attributes@[i].1@ == pairs@[i].1@,
{
    let mut attributes: Vec<(Key, Value)> = Vec::new();
    let mut i: usize = 0;
    while i < pairs.len()
        invariant
            i <= pairs.len(),
            attributes@.len() == i,
            forall|j: int|
                0 <= j < i ==> (#[trigger] attributes@[j]).0@ == pairs@[j].0@
                    && attributes@[j].1@ == pairs@[j].1@,
        decreases pairs.len() - i,
    {
        attributes.push((Key::new(pairs[i].0), pairs[i].1.clone()));
        i += 1;
    }
    attributes
}

/// `format!` with `{:?}`: the `Debug` form of `value`. What the text is lies
/// with the type's own `Debug` impl; nothing is claimed of it.
#[verifier::external_body]
fn debug_text<T: std::fmt::Debug>(value: &T) -> String {
    format!("{:?}", value)
}

impl Value {
    /// The text value that holds the `Debug` form of `value`.
    pub fn debug<T: std::fmt::Debug>(value: &T) -> (result: Value)
        ensures
            result@ is String,
    {
        Value::String(debug_text(value))
    }
}

} // verus!
