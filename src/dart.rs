//! How each message is laid out for the Dart side, and how that layout is
//! handed to the bridge runtime as a Dart object.

use vstd::prelude::*;

use crate::api::{RustResponse, RustResponseUnique, RustSignal};
use flutter_rust_bridge::IntoDart;

verus! {

/// A value as the Dart side receives it, before the runtime encodes it.
#[derive(Debug)]
pub enum DartValue {
    Bool(bool),
    Int32(i32),
    Text(String),
    Bytes(Vec<u8>),
    List(Vec<DartValue>),
}

pub open spec fn is_bool(v: DartValue, b: bool) -> bool {
    match v {
        DartValue::Bool(x) => x == b,
        _ => false,
    }
}

pub open spec fn is_int32(v: DartValue, n: i32) -> bool {
    match v {
        DartValue::Int32(x) => x == n,
        _ => false,
    }
}

pub open spec fn is_text(v: DartValue, s: Seq<char>) -> bool {
    match v {
        DartValue::Text(x) => x@ == s,
        _ => false,
    }
}

pub open spec fn is_bytes(v: DartValue, s: Seq<u8>) -> bool {
    match v {
        DartValue::Bytes(x) => x@ == s,
        _ => false,
    }
}

/// The items of a list value; a value that is no list has none.
pub open spec fn list_items(v: DartValue) -> Seq<DartValue> {
    match v {
        DartValue::List(items) => items@,
        _ => Seq::empty(),
    }
}

/// A response goes to Dart as the list `[successful, bytes]`.
pub open spec fn is_response_layout(v: DartValue, r: RustResponse) -> bool {
    &&& v is List
    &&& list_items(v).len() == 2
    &&& is_bool(list_items(v)[0], r.successful)
    &&& is_bytes(list_items(v)[1], r.bytes@)
}

/// A response with its id goes to Dart as the list `[id, response]`.
pub open spec fn is_response_unique_layout(v: DartValue, r: RustResponseUnique) -> bool {
    &&& v is List
    &&& list_items(v).len() == 2
    &&& is_int32(list_items(v)[0], r.id)
    &&& is_response_layout(list_items(v)[1], r.response)
}

/// A signal goes to Dart as the list `[address, bytes]`.
pub open spec fn is_signal_layout(v: DartValue, s: RustSignal) -> bool {
    &&& v is List
    &&& list_items(v).len() == 2
    &&& is_text(list_items(v)[0], s.address@)
    &&& is_bytes(list_items(v)[1], s.bytes@)
}

/// The Dart object that the bridge runtime posts to the Dart side.
#[verifier::external_type_specification]
#[verifier::external_body]
pub struct ExDartAbi(flutter_rust_bridge::DartAbi);

/// What a Dart object holds, as the Dart side will read it.
pub enum DartModel {
    Bool(bool),
    Int32(i32),
    Text(Seq<char>),
    Bytes(Seq<u8>),
    List(Seq<DartModel>),
}

/// Whether a string holds a NUL character, which a Dart string built from a
/// C string cannot carry.
pub open spec fn has_nul(s: Seq<char>) -> bool {
    exists|i: int| 0 <= i < s.len() && s[i] == '\0'
}

/// The text that reaches Dart for a string: the string itself, or the empty
/// string where it holds a NUL character.
pub open spec fn dart_text(s: Seq<char>) -> Seq<char> {
    if has_nul(s) {
        Seq::empty()
    } else {
        s
    }
}

/// What the Dart side reads for a value: each leaf as it is (text as
/// `dart_text` gives it), and a list as its items' models in order.
pub open spec fn dart_model(v: DartValue) -> DartModel
    decreases v,
{
    match v {
        DartValue::Bool(b) => DartModel::Bool(b),
        DartValue::Int32(n) => DartModel::Int32(n),
        DartValue::Text(s) => DartModel::Text(dart_text(s@)),
        DartValue::Bytes(b) => DartModel::Bytes(b@),
        // The guard only makes each recursive call visibly on an item; every
        // index of the new sequence is in range.
        DartValue::List(items) => DartModel::List(
            Seq::new(items@.len(), |i: int| if 0 <= i < items@.len() { dart_model(items@[i]) } else { DartModel::Bool(false) }),
        ),
    }
}

/// A Dart object built by the bridge runtime, with what it holds.
pub struct DartObject {
    obj: flutter_rust_bridge::DartAbi,
    model: Ghost<DartModel>,
}

impl DartObject {
    /// What the Dart side reads from this object.
    pub closed spec fn model(&self) -> DartModel {
        self.model@
    }

    /// The object itself, to be posted to Dart.
    pub fn into_dart_abi(self) -> flutter_rust_bridge::DartAbi {
        self.obj
    }
}

/// Relies on flutter_rust_bridge's `IntoDart` for `bool` (allo-isolate): a Dart bool.
#[verifier::external_body]
fn bool_into_dart(b: bool) -> (r: DartObject)
    ensures
        r.model() == DartModel::Bool(b),
{
    DartObject { obj: b.into_dart(), model: Ghost(DartModel::Bool(b)) }
}

/// Relies on flutter_rust_bridge's `IntoDart` for `i32` (allo-isolate): a Dart 32-bit int.
#[verifier::external_body]
fn int32_into_dart(n: i32) -> (r: DartObject)
    ensures
        r.model() == DartModel::Int32(n),
{
    DartObject { obj: n.into_dart(), model: Ghost(DartModel::Int32(n)) }
}

/// Relies on flutter_rust_bridge's `IntoDart` for `String` (allo-isolate): a Dart
/// string made from a C string, which falls back to the empty string where the
/// text holds a NUL character.
#[verifier::external_body]
fn text_into_dart(s: String) -> (r: DartObject)
    ensures
        r.model() == DartModel::Text(dart_text(s@)),
{
    let model = Ghost(DartModel::Text(dart_text(s@)));
    DartObject { obj: s.into_dart(), model }
}

/// Relies on flutter_rust_bridge's `IntoDart` for `Vec<u8>` (allo-isolate): a Dart
/// `Uint8List` holding the bytes.
#[verifier::external_body]
fn bytes_into_dart(b: Vec<u8>) -> (r: DartObject)
    ensures
        r.model() == DartModel::Bytes(b@),
{
    let model = Ghost(DartModel::Bytes(b@));
    DartObject { obj: b.into_dart(), model }
}

/// Relies on flutter_rust_bridge's `IntoDart` for a `Vec` of Dart objects
/// (allo-isolate): a Dart list of the items in their order.
#[verifier::external_body]
fn list_into_dart(items: Vec<DartObject>) -> (r: DartObject)
    ensures
        r.model() == DartModel::List(Seq::new(items@.len(), |i: int| items@[i].model())),
{
    let model = Ghost(DartModel::List(Seq::new(items@.len(), |i: int| items@[i].model())));
    let objs: Vec<flutter_rust_bridge::DartAbi> = items.into_iter().map(|o| o.obj).collect();
    DartObject { obj: objs.into_dart(), model }
}

impl DartValue {
    /// Hands the value to the bridge runtime, list items in their order.
    pub fn into_dart(self) -> (r: DartObject)
        ensures
            r.model() == dart_model(self),
        decreases self,
    {
        match self {
            DartValue::Bool(b) => bool_into_dart(b),
            DartValue::Int32(n) => int32_into_dart(n),
            DartValue::Text(s) => text_into_dart(s),
            DartValue::Bytes(b) => bytes_into_dart(b),
            DartValue::List(items) => {
                let ghost all = items;
                let mut rest = items;
                let mut out: Vec<DartObject> = Vec::new();
                while rest.len() > 0
                    invariant
                        rest@ == all@.subrange(0, rest@.len() as int),
                        rest@.len() <= all@.len(),
                        self == DartValue::List(all),
                        out@.len() == all@.len() - rest@.len(),
                        forall|j: int|
                            0 <= j < out@.len() ==> #[trigger] out@[j].model() == dart_model(
                                all@[rest@.len() + j],
                            ),
                    decreases rest.len(),
                {
                    let item = rest.pop().unwrap();
                    proof {
                        assert(item == all@[rest@.len() as int]);
                        vstd::std_specs::vec::axiom_vec_index_decreases(all, rest@.len() as int);
                        assert(all == self->List_0);
                        assert(decreases_to!(self => self->List_0));
                        assert(decreases_to!(self => item));
                    }
                    let encoded = item.into_dart();
                    out.insert(0, encoded);
                }
                let r = list_into_dart(out);
                proof {
                    let got = r.model()->List_0;
                    let want = dart_model(self)->List_0;
                    assert(got.len() == want.len());
                    assert forall|i: int| 0 <= i < got.len() implies got[i] == want[i] by {
                        assert(got[i] == out@[i].model());
                        assert(want[i] == dart_model(all@[i]));
                    }
                    assert(got =~= want);
                }
                r
            },
        }
    }
}

impl RustResponse {
    pub fn into_dart_value(self) -> (v: DartValue)
        ensures
            is_response_layout(v, self),
    {
        DartValue::List(vec![DartValue::Bool(self.successful), DartValue::Bytes(self.bytes)])
    }
}

impl RustResponseUnique {
    pub fn into_dart_value(self) -> (v: DartValue)
        ensures
            is_response_unique_layout(v, self),
    {
        let response = self.response.into_dart_value();
        DartValue::List(vec![DartValue::Int32(self.id), response])
    }
}

impl RustSignal {
    pub fn into_dart_value(self) -> (v: DartValue)
        ensures
            is_signal_layout(v, self),
    {
        DartValue::List(vec![DartValue::Text(self.address), DartValue::Bytes(self.bytes)])
    }
}

} // verus!
