//! Conversions between what the client computes and what the host sees, and
//! the delivery of a command's outcome to its continuation.

use crate::error::{classify, classify_spec, ClassifiedError, ClientErrors, ExternalError};
use crate::host::{lemma_array_view, texts, values, HostType, HostValue, SessionKind, Value};
pub use crate::range::to_bound_range;
use vstd::prelude::*;
use vstd::slice::*;
use vstd::string::*;
use vstd::utf8::*;

verus! {

/// A key and its value, both as bytes.
#[derive(Clone, Debug, PartialEq, Eq)]
pub struct KvPair(pub Vec<u8>, pub Vec<u8>);

impl View for KvPair {
    type V = (Seq<u8>, Seq<u8>);

    open spec fn view(&self) -> (Seq<u8>, Seq<u8>) {
        (self.0@, self.1@)
    }
}

impl KvPair {
    /// The pair of a key and a value that the host gave as text: each is
    /// stored by the bytes of its encoding.
    pub fn new(key: String, value: String) -> (r: KvPair)
        ensures
            r@ == (encode_utf8(key@), encode_utf8(value@)),
    {
        KvPair(key.as_str().as_bytes_vec(), value.as_str().as_bytes_vec())
    }
}

/// A logical timestamp of the store, by its version number.
#[derive(Clone, Copy, Debug, PartialEq, Eq, Structural)]
pub struct Timestamp {
    pub version: u64,
}

/// The host value of a byte sequence: the text that it encodes where it is
/// valid text, the bytes themselves where it is not.
pub open spec fn text_or_bytes(bytes: Seq<u8>) -> Value {
    if valid_utf8(bytes) {
        Value::Text(decode_utf8(bytes))
    } else {
        Value::Bytes(bytes)
    }
}

/// `std::str::from_utf8`: the string slice over `bytes` where they are valid
/// UTF-8, nothing where they are not. The slice has the bytes it was made from.
#[verifier::external_body]
fn utf8_text(bytes: &[u8]) -> (r: Option<&str>)
    ensures
        r is Some <==> valid_utf8(bytes@),
        r matches Some(s) ==> encode_utf8(s@) == bytes@,
{
    match std::str::from_utf8(bytes) {
        Ok(s) => Some(s),
        Err(_) => None,
    }
}

/// The host value of the bytes of a key or of a value.
fn bytes_value(bytes: &Vec<u8>) -> (r: HostValue)
    ensures
        r@ == text_or_bytes(bytes@),
{
    match utf8_text(bytes.as_slice()) {
        Some(s) => {
            proof {
                encode_utf8_decode_utf8(s@);
            }
            HostValue::Text(s.to_owned())
        },
        None => HostValue::Bytes(slice_to_vec(bytes.as_slice())),
    }
}

/// Converts the bytes of a key or of a value into a host value.
pub fn bytes_to_js_string(bytes: Vec<u8>) -> (r: HostValue)
    ensures
        r@ == text_or_bytes(bytes@),
{
    bytes_value(&bytes)
}

/// A result that can be handed to the host.
pub trait ToJS: Sized {
    /// The host value that this result becomes.
    spec fn host_value(&self) -> Value;

    /// Converts the result into its host value.
    fn to_js_value(self) -> (r: HostValue)
        ensures
            r@ == self.host_value(),
    ;
}

/// The host values of a list of keys, in the same order.
pub open spec fn key_values(keys: Seq<Vec<u8>>) -> Seq<Value> {
    keys.map_values(|k: Vec<u8>| text_or_bytes(k@))
}

/// The host value of a pair: the two-element array of key and value.
pub open spec fn pair_value(pair: (Seq<u8>, Seq<u8>)) -> Value {
    Value::Array(seq![text_or_bytes(pair.0), text_or_bytes(pair.1)])
}

/// The host values of a list of pairs, in the same order.
pub open spec fn pair_values(pairs: Seq<KvPair>) -> Seq<Value> {
    pairs.map_values(|p: KvPair| pair_value(p@))
}

/// Converts a list of pairs into a host array of two-element arrays.
pub fn rust_pairs_to_js_array(pairs: Vec<KvPair>) -> (r: HostValue)
    ensures
        r@ == Value::Array(pair_values(pairs@)),
{
    let mut out: Vec<HostValue> = Vec::new();
    let mut i: usize = 0;
    while i < pairs.len()
        invariant
            i <= pairs@.len(),
            out@.len() == i,
            forall|j: int| 0 <= j < i ==> (#[trigger] out@[j])@ == pair_value(pairs@[j]@),
        decreases pairs@.len() - i,
    {
        let key = bytes_value(&pairs[i].0);
        let value = bytes_value(&pairs[i].1);
        let both: Vec<HostValue> = vec![key, value];
        proof {
            lemma_array_view(both);
            assert(values(both@) =~= seq![
                text_or_bytes(pairs@[i as int]@.0),
                text_or_bytes(pairs@[i as int]@.1),
            ]);
        }
        out.push(HostValue::Array(both));
        i += 1;
    }
    proof {
        lemma_array_view(out);
        assert(values(out@) =~= pair_values(pairs@));
    }
    HostValue::Array(out)
}

/// Converts a list of keys into a host array.
pub fn rust_keys_to_js_array(keys: Vec<Vec<u8>>) -> (r: HostValue)
    ensures
        r@ == Value::Array(key_values(keys@)),
{
    let mut out: Vec<HostValue> = Vec::new();
    let mut i: usize = 0;
    while i < keys.len()
        invariant
            i <= keys@.len(),
            out@.len() == i,
            forall|j: int| 0 <= j < i ==> (#[trigger] out@[j])@ == text_or_bytes(keys@[j]@),
        decreases keys@.len() - i,
    {
        out.push(bytes_value(&keys[i]));
        i += 1;
    }
    proof {
        lemma_array_view(out);
        assert(values(out@) =~= key_values(keys@));
    }
    HostValue::Array(out)
}

impl ToJS for () {
    open spec fn host_value(&self) -> Value {
        Value::Undefined
    }

    fn to_js_value(self) -> (r: HostValue) {
        HostValue::Undefined
    }
}

impl ToJS for bool {
    open spec fn host_value(&self) -> Value {
        Value::Boolean(*self)
    }

    fn to_js_value(self) -> (r: HostValue) {
        HostValue::Boolean(self)
    }
}

impl ToJS for Vec<u8> {
    open spec fn host_value(&self) -> Value {
        text_or_bytes(self@)
    }

    fn to_js_value(self) -> (r: HostValue) {
        bytes_to_js_string(self)
    }
}

impl ToJS for Vec<Vec<u8>> {
    open spec fn host_value(&self) -> Value {
        Value::Array(key_values(self@))
    }

    fn to_js_value(self) -> (r: HostValue) {
        rust_keys_to_js_array(self)
    }
}

impl ToJS for Vec<KvPair> {
    open spec fn host_value(&self) -> Value {
        Value::Array(pair_values(self@))
    }

    fn to_js_value(self) -> (r: HostValue) {
        rust_pairs_to_js_array(self)
    }
}

impl ToJS for SessionKind {
    open spec fn host_value(&self) -> Value {
        Value::Session(*self)
    }

    fn to_js_value(self) -> (r: HostValue) {
        HostValue::Session(self)
    }
}

impl ToJS for Timestamp {
    open spec fn host_value(&self) -> Value {
        Value::Number(self.version)
    }

    fn to_js_value(self) -> (r: HostValue) {
        HostValue::Number(self.version)
    }
}

impl<T: ToJS> ToJS for Option<T> {
    open spec fn host_value(&self) -> Value {
        match self {
            Some(t) => t.host_value(),
            None => Value::Undefined,
        }
    }

    fn to_js_value(self) -> (r: HostValue) {
        match self {
            Some(t) => t.to_js_value(),
            None => HostValue::Undefined,
        }
    }
}

/// Whether every item is a text.
pub open spec fn all_text(items: Seq<Value>) -> bool {
    forall|i: int| 0 <= i < items.len() ==> (#[trigger] items[i]) is Text
}

/// Reads a host array of strings as a list of keys, in the same order.
pub fn js_array_to_rust_keys(array: &Vec<HostValue>) -> (r: Vec<String>)
    requires
        all_text(values(array@)),
    ensures
        texts(r@) == values(array@).map_values(|v: Value| v->Text_0),
{
    let mut keys: Vec<String> = Vec::new();
    let mut i: usize = 0;
    while i < array.len()
        invariant
            i <= array@.len(),
            all_text(values(array@)),
            keys@.len() == i,
            forall|j: int| 0 <= j < i ==> (#[trigger] keys@[j])@ == array@[j]@->Text_0,
        decreases array@.len() - i,
    {
        assert(values(array@)[i as int] is Text);
        keys.push(array[i].as_text().clone());
        i += 1;
    }
    assert(texts(keys@) =~= values(array@).map_values(|v: Value| v->Text_0));
    keys
}

/// Whether a host value is an array that starts with two strings.
pub open spec fn is_pair(v: Value) -> bool {
    &&& v is Array
    &&& v->Array_0.len() >= 2
    &&& v->Array_0[0] is Text
    &&& v->Array_0[1] is Text
}

/// The pair that an item of a host array stands for: an array gives the pair
/// of its first two strings, anything else gives none.
pub open spec fn pair_of(v: Value) -> Option<(Seq<u8>, Seq<u8>)> {
    if v is Array {
        Some((encode_utf8(v->Array_0[0]->Text_0), encode_utf8(v->Array_0[1]->Text_0)))
    } else {
        None
    }
}

/// The pairs that the items of a host array stand for, in the same order.
pub open spec fn pairs_in(items: Seq<Value>) -> Seq<(Seq<u8>, Seq<u8>)> {
    items.filter_map(|v: Value| pair_of(v))
}

/// A list of pairs, as contracts see it.
pub open spec fn pair_views(pairs: Seq<KvPair>) -> Seq<(Seq<u8>, Seq<u8>)> {
    pairs.map_values(|p: KvPair| p@)
}

/// Whether every item that is an array starts with two strings.
pub open spec fn well_paired(items: Seq<Value>) -> bool {
    forall|i: int| 0 <= i < items.len() && (#[trigger] items[i]) is Array ==> is_pair(items[i])
}

/// Whether every item of a host array is a string.
pub fn is_key_array(array: &Vec<HostValue>) -> (r: bool)
    ensures
        r == all_text(values(array@)),
{
    let mut i: usize = 0;
    while i < array.len()
        invariant
            i <= array@.len(),
            forall|j: int| 0 <= j < i ==> (#[trigger] values(array@)[j]) is Text,
        decreases array@.len() - i,
    {
        if !array[i].is_of(HostType::Text) {
            assert(!(values(array@)[i as int] is Text));
            return false;
        }
        i += 1;
    }
    true
}

/// Whether every item of a host array that is itself an array starts with
/// two strings.
pub fn is_pair_array(array: &Vec<HostValue>) -> (r: bool)
    ensures
        r == well_paired(values(array@)),
{
    let mut i: usize = 0;
    while i < array.len()
        invariant
            i <= array@.len(),
            forall|j: int|
                0 <= j < i && (#[trigger] values(array@)[j]) is Array ==> is_pair(values(array@)[j]),
        decreases array@.len() - i,
    {
        if array[i].is_of(HostType::Array) {
            let items = array[i].as_array();
            let starts_with_two_strings = items.len() >= 2 && items[0].is_of(HostType::Text)
                && items[1].is_of(HostType::Text);
            if !starts_with_two_strings {
                assert(!is_pair(values(array@)[i as int]));
                return false;
            }
        }
        i += 1;
    }
    true
}

/// Reads a host array of two-element arrays as a list of pairs, in the same
/// order. An item that is no array is passed over.
pub fn js_array_to_rust_pairs(array: &Vec<HostValue>) -> (r: Vec<KvPair>)
    requires
        well_paired(values(array@)),
    ensures
        pair_views(r@) == pairs_in(values(array@)),
{
    let mut pairs: Vec<KvPair> = Vec::new();
    let mut i: usize = 0;
    assert(values(array@).take(0) =~= Seq::<Value>::empty());
    while i < array.len()
        invariant
            i <= array@.len(),
            well_paired(values(array@)),
            pair_views(pairs@) =~= pairs_in(values(array@).take(i as int)),
        decreases array@.len() - i,
    {
        let ghost before = values(array@).take(i as int);
        let ghost after = values(array@).take(i + 1);
        assert(after.drop_last() =~= before);
        assert(after.last() == values(array@)[i as int]);
        if array[i].is_of(HostType::Array) {
            let items = array[i].as_array();
            let key = items[0].as_text().clone();
            let value = items[1].as_text().clone();
            pairs.push(KvPair::new(key, value));
        }
        i += 1;
    }
    assert(values(array@).take(i as int) =~= values(array@));
    pairs
}

/// A text that the host stores comes back to it unchanged: the bytes of its
/// encoding are valid text, and their host value is the text itself.
pub proof fn lemma_text_round_trip(text: Seq<char>)
    ensures
        text_or_bytes(encode_utf8(text)) == Value::Text(text),
{
    encode_utf8_valid_utf8(text);
    encode_utf8_decode_utf8(text);
}

/// Bytes that are valid text reach the host as a text with exactly those
/// bytes, and bytes that are not reach it as they are.
pub proof fn lemma_bytes_are_kept(bytes: Seq<u8>)
    ensures
        valid_utf8(bytes) ==> text_or_bytes(bytes) is Text && encode_utf8(
            text_or_bytes(bytes)->Text_0,
        ) == bytes,
        !valid_utf8(bytes) ==> text_or_bytes(bytes) == Value::Bytes(bytes),
{
    if valid_utf8(bytes) {
        decode_utf8_encode_utf8(bytes);
    }
}

/// The two slots that a continuation is called with, for an outcome whose
/// error is classified already: the error object or the "no error" sentinel,
/// then the value or the "no value" sentinel.
pub open spec fn delivery<T: ToJS>(result: Result<T, ClassifiedError>) -> Seq<Value> {
    match result {
        Ok(value) => seq![Value::Null, value.host_value()],
        Err(error) => seq![error@.host_error(), Value::Undefined],
    }
}

/// The two slots that a continuation is called with, for an outcome as the
/// client reports it: its error is classified and then delivered by its kind.
pub open spec fn completion<T: ToJS>(result: Result<T, ExternalError>) -> Seq<Value> {
    match result {
        Ok(value) => seq![Value::Null, value.host_value()],
        Err(err) => seq![classify_spec(err@).host_error(), Value::Undefined],
    }
}

/// Every outcome fills exactly one of the two slots: a success leaves the
/// error slot at its sentinel, a failure puts an error object there and leaves
/// the value slot at its sentinel.
pub proof fn lemma_one_slot_is_filled<T: ToJS>(result: Result<T, ExternalError>)
    ensures
        completion(result).len() == 2,
        result is Ok <==> completion(result)[0] == Value::Null,
        result is Err <==> completion(result)[0] is Error,
        result is Err ==> completion(result)[1] == Value::Undefined,
        result matches Ok(value) ==> completion(result)[1] == value.host_value(),
{
}

/// Turns an outcome whose error is classified already into the arguments of
/// the one call of the continuation.
pub fn send_classified<T: ToJS>(errors: &ClientErrors, result: Result<T, ClassifiedError>) -> (args:
    Vec<HostValue>)
    requires
        errors.wf(),
        result matches Err(error) ==> errors.registered(error@.class()),
    ensures
        values(args@) == delivery(result),
{
    let args: Vec<HostValue> = match result {
        Ok(value) => vec![HostValue::Null, value.to_js_value()],
        Err(error) => vec![error.into_host_error(errors), HostValue::Undefined],
    };
    assert(values(args@) =~= delivery(result));
    args
}

/// Turns the outcome of a command into the arguments of the one call of its
/// continuation: a success becomes `(null, value)`, a failure becomes
/// `(error, undefined)` with the error object of its kind.
pub fn send_result<T: ToJS>(errors: &ClientErrors, result: Result<T, ExternalError>) -> (args: Vec<
    HostValue,
>)
    requires
        errors.wf(),
        result matches Err(err) ==> errors.registered(classify_spec(err@).class()),
    ensures
        values(args@) == completion(result),
{
    match result {
        Ok(value) => send_classified(errors, Ok(value)),
        Err(err) => send_classified::<T>(errors, Err(classify(err))),
    }
}

} // verus!
