//! The type registration contract and the cast protocol.
//!
//! A host type becomes usable with the value system by declaring a canonical
//! name; casting a value to a host type yields success, success with a
//! warning, or failure carrying the original value unconsumed. Each
//! implementation declares in `accepts` exactly which values convert — the
//! direct variant match and its coercions — and in `casts_to` what the
//! converted result is; the protocol's contract then promises a result for
//! exactly those values and the untouched original for every other.

use vstd::prelude::*;

use crate::color::Color;
use crate::fixed::Fixed;
use crate::float::Float64;
use crate::func::ValueFunc;
use crate::geom::{Angle, Length, LengthUnit, Linear, Relative};
use crate::markup::Template;
use crate::syntax::Spanned;
use crate::text::int_digits;
use crate::value::{Value, ValueDict};

verus! {

/// Types that can be stored in values: each declares a canonical name used
/// in diagnostics and queries.
pub trait Type {
    /// The canonical name of the type.
    spec fn type_label_spec() -> Seq<char>;

    /// The canonical name of the type.
    fn type_label() -> (n: String)
        ensures
            n@ == Self::type_label_spec(),
    ;
}

/// The result of casting a value to a specific type.
#[derive(Debug, Clone, PartialEq)]
pub enum CastResult<T, V> {
    /// The value was cast successfully.
    Success(T),
    /// The value was cast successfully, but with a warning message.
    Warn(T, String),
    /// The value could not be cast into the specified type.
    Failure(V),
}

impl Type for bool {
    open spec fn type_label_spec() -> Seq<char> {
        "boolean"@
    }

    fn type_label() -> (n: String) {
        String::from_str("boolean")
    }
}

impl Type for i64 {
    open spec fn type_label_spec() -> Seq<char> {
        "integer"@
    }

    fn type_label() -> (n: String) {
        String::from_str("integer")
    }
}

impl Type for crate::float::Float64 {
    open spec fn type_label_spec() -> Seq<char> {
        "float"@
    }

    fn type_label() -> (n: String) {
        String::from_str("float")
    }
}

impl Type for crate::geom::Length {
    open spec fn type_label_spec() -> Seq<char> {
        "length"@
    }

    fn type_label() -> (n: String) {
        String::from_str("length")
    }
}

impl Type for crate::geom::Angle {
    open spec fn type_label_spec() -> Seq<char> {
        "angle"@
    }

    fn type_label() -> (n: String) {
        String::from_str("angle")
    }
}

impl Type for crate::geom::Relative {
    open spec fn type_label_spec() -> Seq<char> {
        "relative"@
    }

    fn type_label() -> (n: String) {
        String::from_str("relative")
    }
}

impl Type for crate::geom::Linear {
    open spec fn type_label_spec() -> Seq<char> {
        "linear"@
    }

    fn type_label() -> (n: String) {
        String::from_str("linear")
    }
}

impl Type for crate::color::Color {
    open spec fn type_label_spec() -> Seq<char> {
        "color"@
    }

    fn type_label() -> (n: String) {
        String::from_str("color")
    }
}

impl Type for String {
    open spec fn type_label_spec() -> Seq<char> {
        "string"@
    }

    fn type_label() -> (n: String) {
        String::from_str("string")
    }
}

impl Type for crate::markup::Template {
    open spec fn type_label_spec() -> Seq<char> {
        "template"@
    }

    fn type_label() -> (n: String) {
        String::from_str("template")
    }
}

impl Type for crate::func::ValueFunc {
    open spec fn type_label_spec() -> Seq<char> {
        "function"@
    }

    fn type_label() -> (n: String) {
        String::from_str("function")
    }
}

impl<T, V> CastResult<T, V> {
    /// The conversion result, discarding a possibly existing warning.
    pub fn ok(self) -> (r: Option<T>)
        ensures
            match self {
                CastResult::Success(t) => r == Some(t),
                CastResult::Warn(t, _) => r == Some(t),
                CastResult::Failure(_) => r is None,
            },
    {
        match self {
            CastResult::Success(t) => Some(t),
            CastResult::Warn(t, _) => Some(t),
            CastResult::Failure(_) => None,
        }
    }
}

/// Cast from a value to a specific type.
///
/// `accepts` holds of exactly the values that convert: the direct variant
/// match and each declared coercion. `casts_to` says what the conversion
/// yields. The protocol's contract: an accepted value yields its conversion
/// — plainly, unless the type declares in `may_warn` that it may attach a
/// warning — and any other value comes back unconsumed as the failure
/// payload, so the caller may retry against another type or report it.
pub trait Cast<V>: Type + Sized {
    /// Whether the value converts into `Self`.
    spec fn accepts(v: V) -> bool;

    /// Whether `t` is what converting `v` yields.
    spec fn casts_to(v: V, t: Self) -> bool;

    /// Whether a conversion may come with a warning. False for every
    /// built-in type — their accepted casts are plain successes — and kept
    /// in the protocol for host-type extensibility.
    spec fn may_warn() -> bool;

    /// Try to cast the value into an instance of `Self`.
    fn cast(value: V) -> (r: CastResult<Self, V>)
        ensures
            Self::accepts(value) ==> match r {
                CastResult::Success(t) => Self::casts_to(value, t),
                CastResult::Warn(t, _) => Self::may_warn() && Self::casts_to(value, t),
                CastResult::Failure(_) => false,
            },
            !Self::accepts(value) ==> r == CastResult::<Self, V>::Failure(value),
    ;
}

impl Value {
    /// Try to cast the value into a specific type.
    pub fn cast<T: Cast<Value>>(self) -> (r: CastResult<T, Value>)
        ensures
            T::accepts(self) ==> match r {
                CastResult::Success(t) => T::casts_to(self, t),
                CastResult::Warn(t, _) => T::may_warn() && T::casts_to(self, t),
                CastResult::Failure(_) => false,
            },
            !T::accepts(self) ==> r == CastResult::<T, Value>::Failure(self),
    {
        T::cast(self)
    }

    /// A string value from a string slice — the contracted form of the
    /// implicit `&str` conversion, whose specification hook cannot name the
    /// `String` it builds.
    pub fn of_str(v: &str) -> (r: Value)
        ensures
            r matches Value::Str(s) && s@ == v@,
    {
        Value::Str(v.to_owned())
    }
}

impl Type for Value {
    open spec fn type_label_spec() -> Seq<char> {
        "value"@
    }

    fn type_label() -> (n: String) {
        String::from_str("value")
    }
}

impl Cast<Value> for Value {
    open spec fn accepts(v: Value) -> bool {
        true
    }

    open spec fn casts_to(v: Value, t: Value) -> bool {
        t == v
    }

    open spec fn may_warn() -> bool {
        false
    }

    fn cast(value: Value) -> (r: CastResult<Value, Value>) {
        CastResult::Success(value)
    }
}

impl Cast<Value> for bool {
    open spec fn accepts(v: Value) -> bool {
        v is Bool
    }

    open spec fn casts_to(v: Value, t: bool) -> bool {
        v matches Value::Bool(b) && t == b
    }

    open spec fn may_warn() -> bool {
        false
    }

    fn cast(value: Value) -> (r: CastResult<bool, Value>) {
        match value {
            Value::Bool(b) => CastResult::Success(b),
            v => CastResult::Failure(v),
        }
    }
}

impl Cast<Value> for i64 {
    open spec fn accepts(v: Value) -> bool {
        v is Int
    }

    open spec fn casts_to(v: Value, t: i64) -> bool {
        v matches Value::Int(n) && t == n
    }

    open spec fn may_warn() -> bool {
        false
    }

    fn cast(value: Value) -> (r: CastResult<i64, Value>) {
        match value {
            Value::Int(n) => CastResult::Success(n),
            v => CastResult::Failure(v),
        }
    }
}

impl Cast<Value> for Float64 {
    open spec fn accepts(v: Value) -> bool {
        v is Float || v is Int
    }

    open spec fn casts_to(v: Value, t: Float64) -> bool {
        match v {
            Value::Float(f) => t.repr@ == f.repr@,
            Value::Int(n) => t.repr@ == int_digits(n as int) + ".0"@,
            _ => false,
        }
    }

    open spec fn may_warn() -> bool {
        false
    }

    fn cast(value: Value) -> (r: CastResult<Float64, Value>) {
        match value {
            Value::Float(f) => CastResult::Success(f),
            Value::Int(n) => CastResult::Success(Float64::from_int(n)),
            v => CastResult::Failure(v),
        }
    }
}

impl Cast<Value> for Length {
    open spec fn accepts(v: Value) -> bool {
        v is Length
    }

    open spec fn casts_to(v: Value, t: Length) -> bool {
        v matches Value::Length(l) && t == l
    }

    open spec fn may_warn() -> bool {
        false
    }

    fn cast(value: Value) -> (r: CastResult<Length, Value>) {
        match value {
            Value::Length(l) => CastResult::Success(l),
            v => CastResult::Failure(v),
        }
    }
}

impl Cast<Value> for Angle {
    open spec fn accepts(v: Value) -> bool {
        v is Angle
    }

    open spec fn casts_to(v: Value, t: Angle) -> bool {
        v matches Value::Angle(a) && t == a
    }

    open spec fn may_warn() -> bool {
        false
    }

    fn cast(value: Value) -> (r: CastResult<Angle, Value>) {
        match value {
            Value::Angle(a) => CastResult::Success(a),
            v => CastResult::Failure(v),
        }
    }
}

impl Cast<Value> for Relative {
    open spec fn accepts(v: Value) -> bool {
        v is Relative
    }

    open spec fn casts_to(v: Value, t: Relative) -> bool {
        v matches Value::Relative(r) && t == r
    }

    open spec fn may_warn() -> bool {
        false
    }

    fn cast(value: Value) -> (r: CastResult<Relative, Value>) {
        match value {
            Value::Relative(r) => CastResult::Success(r),
            v => CastResult::Failure(v),
        }
    }
}

impl Cast<Value> for Linear {
    open spec fn accepts(v: Value) -> bool {
        v is Linear || v is Length || v is Relative
    }

    open spec fn casts_to(v: Value, t: Linear) -> bool {
        match v {
            Value::Linear(l) => t == l,
            Value::Length(l) => t == (Linear {
                rel: Relative { percent: Fixed { thousandths: 0 } },
                abs: l,
            }),
            Value::Relative(r) => t == (Linear {
                rel: r,
                abs: Length { val: Fixed { thousandths: 0 }, unit: LengthUnit::Pt },
            }),
            _ => false,
        }
    }

    open spec fn may_warn() -> bool {
        false
    }

    fn cast(value: Value) -> (r: CastResult<Linear, Value>) {
        match value {
            Value::Linear(l) => CastResult::Success(l),
            Value::Length(l) => CastResult::Success(Linear::from_length(l)),
            Value::Relative(r) => CastResult::Success(Linear::from_relative(r)),
            v => CastResult::Failure(v),
        }
    }
}

impl Cast<Value> for Color {
    open spec fn accepts(v: Value) -> bool {
        v is Color
    }

    open spec fn casts_to(v: Value, t: Color) -> bool {
        v matches Value::Color(c) && t == c
    }

    open spec fn may_warn() -> bool {
        false
    }

    fn cast(value: Value) -> (r: CastResult<Color, Value>) {
        match value {
            Value::Color(c) => CastResult::Success(c),
            v => CastResult::Failure(v),
        }
    }
}

impl Cast<Value> for String {
    open spec fn accepts(v: Value) -> bool {
        v is Str
    }

    open spec fn casts_to(v: Value, t: String) -> bool {
        v matches Value::Str(s) && t == s
    }

    open spec fn may_warn() -> bool {
        false
    }

    fn cast(value: Value) -> (r: CastResult<String, Value>) {
        match value {
            Value::Str(s) => CastResult::Success(s),
            v => CastResult::Failure(v),
        }
    }
}

impl Type for Vec<Value> {
    open spec fn type_label_spec() -> Seq<char> {
        "array"@
    }

    fn type_label() -> (n: String) {
        String::from_str("array")
    }
}

impl Cast<Value> for Vec<Value> {
    open spec fn accepts(v: Value) -> bool {
        v is Array
    }

    open spec fn casts_to(v: Value, t: Vec<Value>) -> bool {
        v matches Value::Array(items) && t == items
    }

    open spec fn may_warn() -> bool {
        false
    }

    fn cast(value: Value) -> (r: CastResult<Vec<Value>, Value>) {
        match value {
            Value::Array(items) => CastResult::Success(items),
            v => CastResult::Failure(v),
        }
    }
}

impl Type for ValueDict {
    open spec fn type_label_spec() -> Seq<char> {
        "dictionary"@
    }

    fn type_label() -> (n: String) {
        String::from_str("dictionary")
    }
}

impl Cast<Value> for ValueDict {
    open spec fn accepts(v: Value) -> bool {
        v is Dict
    }

    open spec fn casts_to(v: Value, t: ValueDict) -> bool {
        v matches Value::Dict(d) && t == d
    }

    open spec fn may_warn() -> bool {
        false
    }

    fn cast(value: Value) -> (r: CastResult<ValueDict, Value>) {
        match value {
            Value::Dict(d) => CastResult::Success(d),
            v => CastResult::Failure(v),
        }
    }
}

impl Cast<Value> for Template {
    open spec fn accepts(v: Value) -> bool {
        v is Template
    }

    open spec fn casts_to(v: Value, t: Template) -> bool {
        v matches Value::Template(tree) && t == tree
    }

    open spec fn may_warn() -> bool {
        false
    }

    fn cast(value: Value) -> (r: CastResult<Template, Value>) {
        match value {
            Value::Template(tree) => CastResult::Success(tree),
            v => CastResult::Failure(v),
        }
    }
}

impl Cast<Value> for ValueFunc {
    open spec fn accepts(v: Value) -> bool {
        v is Func
    }

    open spec fn casts_to(v: Value, t: ValueFunc) -> bool {
        v matches Value::Func(f) && t == f
    }

    open spec fn may_warn() -> bool {
        false
    }

    fn cast(value: Value) -> (r: CastResult<ValueFunc, Value>) {
        match value {
            Value::Func(f) => CastResult::Success(f),
            v => CastResult::Failure(v),
        }
    }
}

/// A value is built implicitly from any registered host type.
impl From<bool> for Value {
    fn from(v: bool) -> Self {
        Value::Bool(v)
    }
}

impl vstd::std_specs::convert::FromSpecImpl<bool> for Value {
    open spec fn obeys_from_spec() -> bool {
        true
    }

    open spec fn from_spec(v: bool) -> Value {
        Value::Bool(v)
    }
}

impl From<i64> for Value {
    fn from(v: i64) -> Self {
        Value::Int(v)
    }
}

impl vstd::std_specs::convert::FromSpecImpl<i64> for Value {
    open spec fn obeys_from_spec() -> bool {
        true
    }

    open spec fn from_spec(v: i64) -> Value {
        Value::Int(v)
    }
}

impl From<Float64> for Value {
    fn from(v: Float64) -> Self {
        Value::Float(v)
    }
}

impl vstd::std_specs::convert::FromSpecImpl<Float64> for Value {
    open spec fn obeys_from_spec() -> bool {
        true
    }

    open spec fn from_spec(v: Float64) -> Value {
        Value::Float(v)
    }
}

impl From<Length> for Value {
    fn from(v: Length) -> Self {
        Value::Length(v)
    }
}

impl vstd::std_specs::convert::FromSpecImpl<Length> for Value {
    open spec fn obeys_from_spec() -> bool {
        true
    }

    open spec fn from_spec(v: Length) -> Value {
        Value::Length(v)
    }
}

impl From<Angle> for Value {
    fn from(v: Angle) -> Self {
        Value::Angle(v)
    }
}

impl vstd::std_specs::convert::FromSpecImpl<Angle> for Value {
    open spec fn obeys_from_spec() -> bool {
        true
    }

    open spec fn from_spec(v: Angle) -> Value {
        Value::Angle(v)
    }
}

impl From<Relative> for Value {
    fn from(v: Relative) -> Self {
        Value::Relative(v)
    }
}

impl vstd::std_specs::convert::FromSpecImpl<Relative> for Value {
    open spec fn obeys_from_spec() -> bool {
        true
    }

    open spec fn from_spec(v: Relative) -> Value {
        Value::Relative(v)
    }
}

impl From<Linear> for Value {
    fn from(v: Linear) -> Self {
        Value::Linear(v)
    }
}

impl vstd::std_specs::convert::FromSpecImpl<Linear> for Value {
    open spec fn obeys_from_spec() -> bool {
        true
    }

    open spec fn from_spec(v: Linear) -> Value {
        Value::Linear(v)
    }
}

impl From<Color> for Value {
    fn from(v: Color) -> Self {
        Value::Color(v)
    }
}

impl vstd::std_specs::convert::FromSpecImpl<Color> for Value {
    open spec fn obeys_from_spec() -> bool {
        true
    }

    open spec fn from_spec(v: Color) -> Value {
        Value::Color(v)
    }
}

impl From<String> for Value {
    fn from(v: String) -> Self {
        Value::Str(v)
    }
}

impl vstd::std_specs::convert::FromSpecImpl<String> for Value {
    open spec fn obeys_from_spec() -> bool {
        true
    }

    open spec fn from_spec(v: String) -> Value {
        Value::Str(v)
    }
}

impl From<Vec<Value>> for Value {
    fn from(v: Vec<Value>) -> Self {
        Value::Array(v)
    }
}

impl vstd::std_specs::convert::FromSpecImpl<Vec<Value>> for Value {
    open spec fn obeys_from_spec() -> bool {
        true
    }

    open spec fn from_spec(v: Vec<Value>) -> Value {
        Value::Array(v)
    }
}

impl From<ValueDict> for Value {
    fn from(v: ValueDict) -> Self {
        Value::Dict(v)
    }
}

impl vstd::std_specs::convert::FromSpecImpl<ValueDict> for Value {
    open spec fn obeys_from_spec() -> bool {
        true
    }

    open spec fn from_spec(v: ValueDict) -> Value {
        Value::Dict(v)
    }
}

impl From<Template> for Value {
    fn from(v: Template) -> Self {
        Value::Template(v)
    }
}

impl vstd::std_specs::convert::FromSpecImpl<Template> for Value {
    open spec fn obeys_from_spec() -> bool {
        true
    }

    open spec fn from_spec(v: Template) -> Value {
        Value::Template(v)
    }
}

impl From<ValueFunc> for Value {
    fn from(v: ValueFunc) -> Self {
        Value::Func(v)
    }
}

impl vstd::std_specs::convert::FromSpecImpl<ValueFunc> for Value {
    open spec fn obeys_from_spec() -> bool {
        true
    }

    open spec fn from_spec(v: ValueFunc) -> Value {
        Value::Func(v)
    }
}

impl From<crate::any::ValueAny> for Value {
    fn from(v: crate::any::ValueAny) -> Self {
        Value::Any(v)
    }
}

impl vstd::std_specs::convert::FromSpecImpl<crate::any::ValueAny> for Value {
    open spec fn obeys_from_spec() -> bool {
        true
    }

    open spec fn from_spec(v: crate::any::ValueAny) -> Value {
        Value::Any(v)
    }
}

impl<'a> From<&'a str> for Value {
    fn from(v: &'a str) -> Self {
        Value::Str(v.to_owned())
    }
}

/// The specification hook stays disabled: spec code cannot construct the
/// `String` the conversion builds. `Value::of_str` is the contracted form.
impl<'a> vstd::std_specs::convert::FromSpecImpl<&'a str> for Value {
    open spec fn obeys_from_spec() -> bool {
        false
    }

    open spec fn from_spec(v: &'a str) -> Value {
        arbitrary()
    }
}

/// For every primitive variant with a registered host type, casting to that
/// type succeeds exactly on that variant (plus its declared coercions) and
/// returns the payload unchanged; on every other value the protocol's
/// contract returns the original value untouched.
pub proof fn lemma_primitive_cast_exact(v: Value)
    ensures
        <bool as Cast<Value>>::accepts(v) <==> v is Bool,
        forall|t: bool|
            #[trigger] <bool as Cast<Value>>::casts_to(v, t) <==> (v matches Value::Bool(b) && t
                == b),
        <i64 as Cast<Value>>::accepts(v) <==> v is Int,
        forall|t: i64|
            #[trigger] <i64 as Cast<Value>>::casts_to(v, t) <==> (v matches Value::Int(n) && t
                == n),
        <Float64 as Cast<Value>>::accepts(v) <==> (v is Float || v is Int),
        <Length as Cast<Value>>::accepts(v) <==> v is Length,
        forall|t: Length|
            #[trigger] <Length as Cast<Value>>::casts_to(v, t) <==> (v matches Value::Length(l)
                && t == l),
        <Angle as Cast<Value>>::accepts(v) <==> v is Angle,
        <Relative as Cast<Value>>::accepts(v) <==> v is Relative,
        <Linear as Cast<Value>>::accepts(v) <==> (v is Linear || v is Length || v is Relative),
        <Color as Cast<Value>>::accepts(v) <==> v is Color,
        <String as Cast<Value>>::accepts(v) <==> v is Str,
        forall|t: String|
            #[trigger] <String as Cast<Value>>::casts_to(v, t) <==> (v matches Value::Str(s) && t
                == s),
        <Vec<Value> as Cast<Value>>::accepts(v) <==> v is Array,
        <ValueDict as Cast<Value>>::accepts(v) <==> v is Dict,
        <Template as Cast<Value>>::accepts(v) <==> v is Template,
        <ValueFunc as Cast<Value>>::accepts(v) <==> v is Func,
        !<bool as Cast<Value>>::may_warn(),
        !<i64 as Cast<Value>>::may_warn(),
        !<Float64 as Cast<Value>>::may_warn(),
        !<Length as Cast<Value>>::may_warn(),
        !<Angle as Cast<Value>>::may_warn(),
        !<Relative as Cast<Value>>::may_warn(),
        !<Linear as Cast<Value>>::may_warn(),
        !<Color as Cast<Value>>::may_warn(),
        !<String as Cast<Value>>::may_warn(),
        !<Vec<Value> as Cast<Value>>::may_warn(),
        !<ValueDict as Cast<Value>>::may_warn(),
        !<Template as Cast<Value>>::may_warn(),
        !<ValueFunc as Cast<Value>>::may_warn(),
        !<Value as Cast<Value>>::may_warn(),
{
}

/// The declared numeric coercions: an integer casts to a float as that
/// integer's decimal text with `.0`; a length and a relative value cast to
/// the combined measure. The coercions are not symmetric: a combined
/// measure casts back to neither a length nor a relative value.
pub proof fn lemma_numeric_coercions(n: i64, l: Length, r: Relative, lin: Linear)
    ensures
        <Float64 as Cast<Value>>::accepts(Value::Int(n)),
        forall|t: Float64|
            #[trigger] <Float64 as Cast<Value>>::casts_to(Value::Int(n), t) <==> t.repr@
                == int_digits(n as int) + ".0"@,
        <Linear as Cast<Value>>::accepts(Value::Length(l)),
        forall|t: Linear|
            #[trigger] <Linear as Cast<Value>>::casts_to(Value::Length(l), t) <==> t == (Linear {
                rel: Relative { percent: Fixed { thousandths: 0 } },
                abs: l,
            }),
        <Linear as Cast<Value>>::accepts(Value::Relative(r)),
        forall|t: Linear|
            #[trigger] <Linear as Cast<Value>>::casts_to(Value::Relative(r), t) <==> t
                == (Linear {
                rel: r,
                abs: Length { val: Fixed { thousandths: 0 }, unit: LengthUnit::Pt },
            }),
        !<Length as Cast<Value>>::accepts(Value::Linear(lin)),
        !<Relative as Cast<Value>>::accepts(Value::Linear(lin)),
{
}

impl<T: Type> Type for Spanned<T> {
    open spec fn type_label_spec() -> Seq<char> {
        T::type_label_spec()
    }

    fn type_label() -> (n: String) {
        T::type_label()
    }
}

/// A cast on a tagged value unwraps the tag; on failure the tagged original
/// is rebuilt, so diagnostics keep pointing at the right source span.
impl<T: Cast<Value>> Cast<Spanned<Value>> for T {
    open spec fn accepts(v: Spanned<Value>) -> bool {
        T::accepts(v.v)
    }

    open spec fn casts_to(v: Spanned<Value>, t: T) -> bool {
        T::casts_to(v.v, t)
    }

    open spec fn may_warn() -> bool {
        T::may_warn()
    }

    fn cast(value: Spanned<Value>) -> (r: CastResult<T, Spanned<Value>>) {
        let span = value.span;
        proof {
            assert((Spanned { v: value.v, span: value.span }) == value);
        }
        match T::cast(value.v) {
            CastResult::Success(t) => CastResult::Success(t),
            CastResult::Warn(t, m) => CastResult::Warn(t, m),
            CastResult::Failure(v) => CastResult::Failure(Spanned { v, span }),
        }
    }
}

/// A cast to a tagged type carries the span onto the result as well.
impl<T: Cast<Value>> Cast<Spanned<Value>> for Spanned<T> {
    open spec fn accepts(v: Spanned<Value>) -> bool {
        T::accepts(v.v)
    }

    open spec fn casts_to(v: Spanned<Value>, t: Spanned<T>) -> bool {
        T::casts_to(v.v, t.v) && t.span == v.span
    }

    open spec fn may_warn() -> bool {
        T::may_warn()
    }

    fn cast(value: Spanned<Value>) -> (r: CastResult<Spanned<T>, Spanned<Value>>) {
        let span = value.span;
        proof {
            assert((Spanned { v: value.v, span: value.span }) == value);
        }
        match T::cast(value.v) {
            CastResult::Success(t) => CastResult::Success(Spanned { v: t, span }),
            CastResult::Warn(t, m) => CastResult::Warn(Spanned { v: t, span }, m),
            CastResult::Failure(v) => CastResult::Failure(Spanned { v, span }),
        }
    }
}

} // verus!
