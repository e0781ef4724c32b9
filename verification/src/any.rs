//! The type-erasure container.
//!
//! A host type meeting the capability set — a canonical name, a stable type
//! tag, a faithful encoding of its values into plain words, and a display
//! form — can be boxed into a `ValueAny` and flow through the value system
//! without the central value definition knowing it. Downcasting checks the
//! tag: on a match it decodes the original value back; on a mismatch it
//! returns the container unchanged, so a failed attempt loses nothing.

use vstd::prelude::*;

use crate::cast::Type;
use crate::text::{int_digits, int_to_string};

verus! {

/// The capability set a host type must meet to be held dynamically.
///
/// `type_id_spec` is the type's tag: registration must give distinct tags to
/// distinct types. `decode_spec` must undo `encode_spec`, which each
/// implementation proves once in `lemma_decode_encode`; that proof is what
/// makes boxing lossless.
pub trait Bounds: Type + Sized {
    /// The tag of the type.
    spec fn type_id_spec() -> int;

    /// The encoding of a value into plain words.
    spec fn encode_spec(self) -> Seq<u64>;

    /// The value an encoding decodes to.
    spec fn decode_spec(data: Seq<u64>) -> Self;

    /// The display form of a value.
    spec fn display_spec(self) -> Seq<char>;

    /// Decoding undoes encoding: boxing a value loses nothing.
    proof fn lemma_decode_encode(self)
        ensures
            Self::decode_spec(self.encode_spec()) == self,
    ;

    /// The tag of the type.
    fn type_id() -> (r: u64)
        ensures
            r as int == Self::type_id_spec(),
    ;

    /// Encodes a value into plain words.
    fn encode(self) -> (r: Vec<u64>)
        ensures
            r@ == self.encode_spec(),
    ;

    /// Decodes a value from plain words.
    fn decode(data: &Vec<u64>) -> (r: Self)
        ensures
            r == Self::decode_spec(data@),
    ;

    /// The display form of a value.
    fn display(&self) -> (r: String)
        ensures
            r@ == self.display_spec(),
    ;
}

/// A wrapper around one boxed instance of a host type.
#[derive(Debug)]
pub struct ValueAny {
    pub id: u64,
    pub name: String,
    pub data: Vec<u64>,
    pub display: String,
}

/// Whether `a` is the container that boxing `x` yields.
pub open spec fn boxes<T: Bounds>(x: T, a: ValueAny) -> bool {
    &&& a.id as int == T::type_id_spec()
    &&& a.name@ == T::type_label_spec()
    &&& a.data@ == x.encode_spec()
    &&& a.display@ == x.display_spec()
}

/// Equality of two containers: the same type tag and equal encoded values.
/// The capability set makes the name a function of the type and the display
/// form a function of the value, so comparing them too changes nothing for a
/// type that meets it.
pub open spec fn any_eq(a: ValueAny, b: ValueAny) -> bool {
    &&& a.id == b.id
    &&& a.name@ == b.name@
    &&& a.data@ == b.data@
    &&& a.display@ == b.display@
}

impl ValueAny {
    /// Boxes an instance of a host type meeting the capability set.
    pub fn new<T: Bounds>(any: T) -> (r: Self)
        ensures
            boxes(any, r),
    {
        let display = any.display();
        let data = any.encode();
        ValueAny { id: T::type_id(), name: T::type_label(), data, display }
    }

    /// Whether the boxed instance is of type `T`.
    pub fn is<T: Bounds>(&self) -> (r: bool)
        ensures
            r == (self.id as int == T::type_id_spec()),
    {
        self.id == T::type_id()
    }

    /// Tries to downcast to a specific type: on a tag match the boxed
    /// instance is decoded back; otherwise the container itself is returned
    /// unchanged.
    pub fn downcast<T: Bounds>(self) -> (r: Result<T, ValueAny>)
        ensures
            self.id as int == T::type_id_spec() ==> (r matches Result::Ok(t) && t
                == T::decode_spec(self.data@)),
            self.id as int != T::type_id_spec() ==> r == Result::<T, ValueAny>::Err(self),
    {
        if self.is::<T>() {
            Result::Ok(T::decode(&self.data))
        } else {
            Result::Err(self)
        }
    }

    /// Tries to downcast without consuming the container; on a tag match the
    /// result is a decoded copy of the boxed instance.
    pub fn downcast_ref<T: Bounds>(&self) -> (r: Option<T>)
        ensures
            self.id as int == T::type_id_spec() ==> (r matches Some(t) && t == T::decode_spec(
                self.data@,
            )),
            self.id as int != T::type_id_spec() ==> r is None,
    {
        if self.is::<T>() {
            Some(T::decode(&self.data))
        } else {
            None
        }
    }

    /// The canonical name of the boxed instance's type.
    pub fn type_label(&self) -> (r: String)
        ensures
            r@ == self.name@,
    {
        self.name.clone()
    }

    /// The display form of the boxed instance.
    pub fn to_text(&self) -> (r: String)
        ensures
            r@ == self.display@,
    {
        self.display.clone()
    }
}

impl Clone for ValueAny {
    /// Clone produces a new container boxing the same concrete type with an
    /// equal payload: the tag, name, encoded value and display form are all
    /// kept, so the copy downcasts and compares exactly as the original.
    fn clone(&self) -> (r: Self)
        ensures
            r.id == self.id,
            r.name == self.name,
            r.data@ == self.data@,
            r.display == self.display,
            any_eq(r, *self),
    {
        let mut data: Vec<u64> = Vec::new();
        let mut i: usize = 0;
        while i < self.data.len()
            invariant
                i <= self.data@.len(),
                data@.len() == i as int,
                forall|j: int| 0 <= j < i ==> data@[j] == self.data@[j],
            decreases self.data@.len() - i,
        {
            data.push(self.data[i]);
            i = i + 1;
        }
        proof {
            assert(data@ =~= self.data@);
        }
        ValueAny { id: self.id, name: self.name.clone(), data, display: self.display.clone() }
    }
}

/// Boxing a host value and downcasting to the same type returns the
/// original value unchanged.
pub proof fn lemma_box_roundtrip<T: Bounds>(x: T, a: ValueAny)
    requires
        boxes(x, a),
    ensures
        T::decode_spec(a.data@) == x,
{
    x.lemma_decode_encode();
}

/// Downcasting a boxed value to an unrelated type — one with a different
/// tag — misses, so `downcast` returns the container unchanged: a failed
/// attempt loses nothing. Distinct tags stand for distinct concrete types
/// here: that registration gives every type its own tag is the obligation
/// the capability set documents, since plain type inequality is not a
/// statement the contracts can make.
pub proof fn lemma_downcast_mismatch<T: Bounds, U: Bounds>(x: T, a: ValueAny)
    requires
        boxes(x, a),
        T::type_id_spec() != U::type_id_spec(),
    ensures
        a.id as int != U::type_id_spec(),
{
}

/// Two containers boxing different concrete types — distinct tags, under
/// the registration obligation above — are never equal, regardless of
/// their payloads.
pub proof fn lemma_any_type_mismatch(a: ValueAny, b: ValueAny)
    requires
        a.id != b.id,
    ensures
        !any_eq(a, b),
{
}

/// Word-by-word equality of two data encodings.
fn data_eq(a: &Vec<u64>, b: &Vec<u64>) -> (r: bool)
    ensures
        r == (a@ == b@),
{
    if a.len() != b.len() {
        proof {
            assert(a@.len() != b@.len());
        }
        return false;
    }
    let mut i: usize = 0;
    while i < a.len()
        invariant
            i <= a.len(),
            a@.len() == b@.len(),
            forall|j: int| 0 <= j < i ==> a@[j] == b@[j],
        decreases a.len() - i,
    {
        if a[i] != b[i] {
            return false;
        }
        i = i + 1;
    }
    proof {
        assert(a@ =~= b@);
    }
    true
}

impl PartialEq for ValueAny {
    /// Containers are equal when the boxed instances have the same type and
    /// compare equal; a type mismatch is "not equal", never an error.
    fn eq(&self, other: &Self) -> (r: bool) {
        self.id == other.id && self.name == other.name && data_eq(&self.data, &other.data)
            && self.display == other.display
    }
}

impl vstd::std_specs::cmp::PartialEqSpecImpl for ValueAny {
    open spec fn obeys_eq_spec() -> bool {
        true
    }

    open spec fn eq_spec(&self, other: &ValueAny) -> bool {
        any_eq(*self, *other)
    }
}

/// The built-in integer type boxed as a host type: one word carrying the
/// integer's bits.
impl Bounds for i64 {
    open spec fn type_id_spec() -> int {
        1
    }

    open spec fn encode_spec(self) -> Seq<u64> {
        seq![self as u64]
    }

    open spec fn decode_spec(data: Seq<u64>) -> i64 {
        if data.len() >= 1 {
            data[0] as i64
        } else {
            0
        }
    }

    open spec fn display_spec(self) -> Seq<char> {
        int_digits(self as int)
    }

    proof fn lemma_decode_encode(self) {
        assert(self as u64 as i64 == self) by (bit_vector);
    }

    fn type_id() -> u64 {
        1
    }

    fn encode(self) -> (r: Vec<u64>) {
        let mut r: Vec<u64> = Vec::new();
        r.push(self as u64);
        proof {
            assert(r@ =~= self.encode_spec());
        }
        r
    }

    fn decode(data: &Vec<u64>) -> (r: i64) {
        if data.len() >= 1 {
            data[0] as i64
        } else {
            0
        }
    }

    fn display(&self) -> (r: String) {
        int_to_string(*self)
    }
}

/// The built-in boolean type boxed as a host type: one word, one or zero.
impl Bounds for bool {
    open spec fn type_id_spec() -> int {
        2
    }

    open spec fn encode_spec(self) -> Seq<u64> {
        seq![
            if self {
                1u64
            } else {
                0u64
            },
        ]
    }

    open spec fn decode_spec(data: Seq<u64>) -> bool {
        data.len() >= 1 && data[0] == 1
    }

    open spec fn display_spec(self) -> Seq<char> {
        if self {
            "true"@
        } else {
            "false"@
        }
    }

    proof fn lemma_decode_encode(self) {
    }

    fn type_id() -> u64 {
        2
    }

    fn encode(self) -> (r: Vec<u64>) {
        let mut r: Vec<u64> = Vec::new();
        r.push(if self {
            1
        } else {
            0
        });
        proof {
            assert(r@ =~= self.encode_spec());
        }
        r
    }

    fn decode(data: &Vec<u64>) -> (r: bool) {
        data.len() >= 1 && data[0] == 1
    }

    fn display(&self) -> (r: String) {
        if *self {
            String::from_str("true")
        } else {
            String::from_str("false")
        }
    }
}

} // verus!
