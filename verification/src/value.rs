//! The computational value: one variant container for every runtime datum,
//! with its type query, numeric query, canonical renderer, equality, and the
//! bridge that evaluates a value into document output.

use vstd::prelude::*;

use crate::any::{any_eq, ValueAny};
use crate::color::{color_text, Color};
use crate::float::Float64;
use crate::func::{func_text, ValueFunc};
use crate::geom::{angle_text, length_text, linear_text, relative_text, Angle, Length, Linear,
    Relative};
use crate::markup::{node_text, node_texts, EvalContext, OutputNode, Template};
use crate::text::{int_digits, int_to_string, lex_lt, quote_str, quoted, str_lt};

verus! {

/// A computational value.
#[derive(Debug)]
pub enum Value {
    /// The value that indicates the absence of a meaningful value.
    Nil,
    /// A boolean: `true, false`.
    Bool(bool),
    /// An integer: `120`.
    Int(i64),
    /// A floating-point number: `1.2`, `10e-4`.
    Float(Float64),
    /// A length: `12pt`, `3cm`.
    Length(Length),
    /// An angle: `1.5rad`, `90deg`.
    Angle(Angle),
    /// A relative value: `50%`.
    Relative(Relative),
    /// A combination of an absolute length and a relative value: `20% + 5cm`.
    Linear(Linear),
    /// A color value: `#f79143ff`.
    Color(Color),
    /// A string: `"string"`.
    Str(String),
    /// An array value: `(1, "hi", 12cm)`.
    Array(Vec<Value>),
    /// A dictionary value: `(color: #f79143, pattern: dashed)`.
    Dict(ValueDict),
    /// A template value: `[*Hi* there]`.
    Template(Template),
    /// An executable function.
    Func(ValueFunc),
    /// Any object.
    Any(ValueAny),
    /// The result of invalid operations.
    Error,
}

/// An array value.
pub type ValueArray = Vec<Value>;

/// A dictionary value: a key-ordered mapping from strings to values.
///
/// The entries are kept with unique keys in strictly increasing
/// lexicographic order — the well-formedness invariant that `new`
/// establishes and `insert` preserves. The ordering affects serialization,
/// not semantics.
#[derive(Debug)]
pub struct ValueDict {
    pub entries: Vec<(String, Value)>,
}

/// Whether the keys of an entry sequence are unique and strictly sorted.
pub open spec fn keys_strictly_sorted(s: Seq<(String, Value)>) -> bool {
    forall|i: int, j: int| 0 <= i < j < s.len() ==> lex_lt(s[i].0@, s[j].0@)
}

/// The entry sequence that inserting a binding into a sorted entry
/// sequence yields: placed before the first greater key, replacing an
/// equal one.
pub open spec fn insert_entry(s: Seq<(String, Value)>, key: String, value: Value) -> Seq<
    (String, Value),
>
    decreases s.len(),
{
    if s.len() == 0 {
        seq![(key, value)]
    } else if lex_lt(key@, s[0].0@) {
        seq![(key, value)] + s
    } else if key@ == s[0].0@ {
        seq![(key, value)] + s.subrange(1, s.len() as int)
    } else {
        seq![s[0]] + insert_entry(s.subrange(1, s.len() as int), key, value)
    }
}

/// The canonical lowercase tag of a value's type; for a boxed host value it
/// is the boxed type's registered name.
pub open spec fn type_label_spec(v: Value) -> Seq<char> {
    match v {
        Value::Nil => "none"@,
        Value::Bool(_) => "boolean"@,
        Value::Int(_) => "integer"@,
        Value::Float(_) => "float"@,
        Value::Length(_) => "length"@,
        Value::Angle(_) => "angle"@,
        Value::Relative(_) => "relative"@,
        Value::Linear(_) => "linear"@,
        Value::Color(_) => "color"@,
        Value::Str(_) => "string"@,
        Value::Array(_) => "array"@,
        Value::Dict(_) => "dictionary"@,
        Value::Template(_) => "template"@,
        Value::Func(_) => "function"@,
        Value::Any(a) => a.name@,
        Value::Error => "error"@,
    }
}

/// Whether a value is numeric.
pub open spec fn is_numeric_spec(v: Value) -> bool {
    v is Int || v is Float || v is Length || v is Angle || v is Relative || v is Linear
}

/// The canonical text of a value.
pub open spec fn pretty_spec(v: Value) -> Seq<char>
    decreases v,
{
    match v {
        Value::Nil => "none"@,
        Value::Bool(b) => if b {
            "true"@
        } else {
            "false"@
        },
        Value::Int(n) => int_digits(n as int),
        Value::Float(f) => f.repr@,
        Value::Length(l) => length_text(l),
        Value::Angle(a) => angle_text(a),
        Value::Relative(r) => relative_text(r),
        Value::Linear(l) => linear_text(l),
        Value::Color(c) => color_text(c),
        Value::Str(s) => quoted(s@),
        Value::Array(items) => "("@ + pretty_items(items@) + (if items@.len() == 1 {
            ","@
        } else {
            Seq::<char>::empty()
        }) + ")"@,
        Value::Dict(d) => if d.entries@.len() == 0 {
            "(:)"@
        } else {
            "("@ + pretty_entries(d.entries@) + ")"@
        },
        Value::Template(t) => "["@ + t.repr@ + "]"@,
        Value::Func(f) => func_text(f),
        Value::Any(a) => a.display@,
        Value::Error => "(error)"@,
    }
}

/// The items of an array, rendered and comma-joined.
pub open spec fn pretty_items(items: Seq<Value>) -> Seq<char>
    decreases items,
{
    if items.len() == 0 {
        Seq::<char>::empty()
    } else if items.len() == 1 {
        pretty_spec(items[0])
    } else {
        pretty_spec(items[0]) + ", "@ + pretty_items(items.subrange(1, items.len() as int))
    }
}

/// The entries of a dictionary, rendered `key: value` and comma-joined.
pub open spec fn pretty_entries(entries: Seq<(String, Value)>) -> Seq<char>
    decreases entries,
{
    if entries.len() == 0 {
        Seq::<char>::empty()
    } else if entries.len() == 1 {
        entries[0].0@ + ": "@ + pretty_spec(entries[0].1)
    } else {
        entries[0].0@ + ": "@ + pretty_spec(entries[0].1) + ", "@ + pretty_entries(
            entries.subrange(1, entries.len() as int),
        )
    }
}

/// Equality of two values.
///
/// Every variant compares by content, with two deliberate exceptions:
/// two function values never compare equal, even copies of one instance;
/// and two boxed host values compare by type tag and encoded content, so a
/// type mismatch is "not equal", never an error.
pub open spec fn eq_val(a: Value, b: Value) -> bool
    decreases a,
{
    match a {
        Value::Nil => b is Nil,
        Value::Bool(x) => b matches Value::Bool(y) && x == y,
        Value::Int(x) => b matches Value::Int(y) && x == y,
        Value::Float(x) => b matches Value::Float(y) && x.repr@ == y.repr@,
        Value::Length(x) => b matches Value::Length(y) && x == y,
        Value::Angle(x) => b matches Value::Angle(y) && x == y,
        Value::Relative(x) => b matches Value::Relative(y) && x == y,
        Value::Linear(x) => b matches Value::Linear(y) && x == y,
        Value::Color(x) => b matches Value::Color(y) && x == y,
        Value::Str(x) => b matches Value::Str(y) && x@ == y@,
        Value::Array(x) => b matches Value::Array(y) && x@.len() == y@.len() && (forall|i: int|
            0 <= i < x@.len() ==> eq_val(x@[i], y@[i])),
        Value::Dict(x) => b matches Value::Dict(y) && x.entries@.len() == y.entries@.len() && (
        forall|i: int|
            0 <= i < x.entries@.len() ==> x.entries@[i].0@ == y.entries@[i].0@ && eq_val(
                x.entries@[i].1,
                y.entries@[i].1,
            )),
        Value::Template(x) => b matches Value::Template(y) && x.repr@ == y.repr@ && node_texts(
            x.content@,
        ) == node_texts(y.content@),
        Value::Func(_) => false,
        Value::Any(x) => b matches Value::Any(y) && any_eq(x, y),
        Value::Error => b is Error,
    }
}

/// Whether `b` is a faithful copy of `a`: the same variant with the same
/// content, piece by piece. Unlike `eq_val` this relation does not treat
/// function values as incomparable — a copy of a function value keeps its
/// name — so it is what cloning promises.
pub open spec fn mirrors(a: Value, b: Value) -> bool
    decreases a,
{
    match a {
        Value::Nil => b is Nil,
        Value::Bool(x) => b matches Value::Bool(y) && x == y,
        Value::Int(x) => b matches Value::Int(y) && x == y,
        Value::Float(x) => b matches Value::Float(y) && x == y,
        Value::Length(x) => b matches Value::Length(y) && x == y,
        Value::Angle(x) => b matches Value::Angle(y) && x == y,
        Value::Relative(x) => b matches Value::Relative(y) && x == y,
        Value::Linear(x) => b matches Value::Linear(y) && x == y,
        Value::Color(x) => b matches Value::Color(y) && x == y,
        Value::Str(x) => b matches Value::Str(y) && x == y,
        Value::Array(x) => b matches Value::Array(y) && x@.len() == y@.len() && (forall|i: int|
            0 <= i < x@.len() ==> mirrors(x@[i], y@[i])),
        Value::Dict(x) => b matches Value::Dict(y) && x.entries@.len() == y.entries@.len() && (
        forall|i: int|
            0 <= i < x.entries@.len() ==> x.entries@[i].0 == y.entries@[i].0 && mirrors(
                x.entries@[i].1,
                y.entries@[i].1,
            )),
        Value::Template(x) => b matches Value::Template(y) && x.repr == y.repr && x.content@
            == y.content@,
        Value::Func(x) => b matches Value::Func(y) && x == y,
        Value::Any(x) => b matches Value::Any(y) && x.id == y.id && x.name == y.name && x.data@
            == y.data@ && x.display == y.display,
        Value::Error => b is Error,
    }
}

impl Value {
    /// The name of the stored value's type.
    pub fn type_label(&self) -> (r: String)
        ensures
            r@ == type_label_spec(*self),
    {
        match self {
            Value::Nil => String::from_str("none"),
            Value::Bool(_) => String::from_str("boolean"),
            Value::Int(_) => String::from_str("integer"),
            Value::Float(_) => String::from_str("float"),
            Value::Length(_) => String::from_str("length"),
            Value::Angle(_) => String::from_str("angle"),
            Value::Relative(_) => String::from_str("relative"),
            Value::Linear(_) => String::from_str("linear"),
            Value::Color(_) => String::from_str("color"),
            Value::Str(_) => String::from_str("string"),
            Value::Array(_) => String::from_str("array"),
            Value::Dict(_) => String::from_str("dictionary"),
            Value::Template(_) => String::from_str("template"),
            Value::Func(_) => String::from_str("function"),
            Value::Any(v) => v.type_label(),
            Value::Error => String::from_str("error"),
        }
    }

    /// Whether the value is numeric.
    pub fn is_numeric(&self) -> (r: bool)
        ensures
            r == is_numeric_spec(*self),
    {
        match self {
            Value::Int(_) => true,
            Value::Float(_) => true,
            Value::Length(_) => true,
            Value::Angle(_) => true,
            Value::Relative(_) => true,
            Value::Linear(_) => true,
            _ => false,
        }
    }

    /// Renders the value in its canonical textual form.
    pub fn pretty(&self) -> (r: String)
        ensures
            r@ == pretty_spec(*self),
        decreases *self,
    {
        match self {
            Value::Nil => String::from_str("none"),
            Value::Bool(b) => {
                if *b {
                    String::from_str("true")
                } else {
                    String::from_str("false")
                }
            },
            Value::Int(n) => int_to_string(*n),
            Value::Float(f) => f.to_text(),
            Value::Length(l) => l.to_text(),
            Value::Angle(a) => a.to_text(),
            Value::Relative(rel) => rel.to_text(),
            Value::Linear(l) => l.to_text(),
            Value::Color(c) => c.to_text(),
            Value::Str(s) => quote_str(s.as_str()),
            Value::Array(items) => pretty_array(items),
            Value::Dict(d) => d.pretty(),
            Value::Template(t) => {
                let mut r = String::from_str("[");
                r.append(t.repr.as_str());
                r.append("]");
                proof {
                    assert(r@ =~= pretty_spec(*self));
                }
                r
            },
            Value::Func(f) => f.to_text(),
            Value::Any(a) => a.to_text(),
            Value::Error => String::from_str("(error)"),
        }
    }

    /// Evaluates the value into document output: nothing for `None`, the
    /// text itself for a string, the subtree's output for a template, and
    /// one text node with the canonical rendering for everything else.
    pub fn eval(&self, ctx: &mut EvalContext)
        ensures
            match *self {
                Value::Nil => final(ctx).out@ == old(ctx).out@,
                Value::Str(s) => node_texts(final(ctx).out@) == node_texts(old(ctx).out@).push(
                    s@,
                ),
                Value::Template(t) => node_texts(final(ctx).out@) == node_texts(old(ctx).out@)
                    + node_texts(t.content@),
                _ => node_texts(final(ctx).out@) == node_texts(old(ctx).out@).push(
                    pretty_spec(*self),
                ),
            },
    {
        match self {
            Value::Nil => {
            },
            Value::Str(s) => {
                let node = ctx.make_text_node(s.clone());
                ctx.push(node);
                proof {
                    assert(node_texts(ctx.out@) =~= node_texts(old(ctx).out@).push(s@));
                }
            },
            Value::Template(t) => {
                t.eval(ctx);
            },
            _ => {
                let text = self.pretty();
                let node = ctx.make_text_node(text);
                ctx.push(node);
                proof {
                    assert(node_texts(ctx.out@) =~= node_texts(old(ctx).out@).push(
                        pretty_spec(*self),
                    ));
                }
            },
        }
    }
}

/// A faithful copy of every value in an array.
fn clone_values(items: &Vec<Value>) -> (r: Vec<Value>)
    ensures
        r@.len() == items@.len(),
        forall|i: int| 0 <= i < items@.len() ==> mirrors(items@[i], r@[i]),
    decreases *items,
{
    let mut r: Vec<Value> = Vec::new();
    let mut j: usize = 0;
    while j < items.len()
        invariant
            j <= items@.len(),
            r@.len() == j as int,
            forall|i: int| 0 <= i < j ==> mirrors(items@[i], r@[i]),
        decreases items@.len() - j,
    {
        proof {
            assert(decreases_to!(*items => items@[j as int]));
        }
        r.push(items[j].clone());
        j = j + 1;
    }
    r
}

impl Clone for Value {
    /// A deep, faithful copy: the same variant with the same content. A
    /// function value's shared callable stays shared at the host.
    fn clone(&self) -> (r: Self)
        ensures
            mirrors(*self, r),
        decreases *self,
    {
        match self {
            Value::Nil => Value::Nil,
            Value::Bool(b) => Value::Bool(*b),
            Value::Int(n) => Value::Int(*n),
            Value::Float(f) => Value::Float(f.clone()),
            Value::Length(l) => Value::Length(*l),
            Value::Angle(a) => Value::Angle(*a),
            Value::Relative(r) => Value::Relative(*r),
            Value::Linear(l) => Value::Linear(*l),
            Value::Color(c) => Value::Color(*c),
            Value::Str(s) => Value::Str(s.clone()),
            Value::Array(items) => Value::Array(clone_values(items)),
            Value::Dict(d) => Value::Dict(d.clone()),
            Value::Template(t) => Value::Template(t.clone()),
            Value::Func(f) => Value::Func(f.clone()),
            Value::Any(a) => Value::Any(a.clone()),
            Value::Error => Value::Error,
        }
    }
}

impl Clone for ValueDict {
    /// A deep copy with the same keys in the same order and faithful copies
    /// of the values; well-formedness carries over.
    fn clone(&self) -> (r: Self)
        ensures
            r.entries@.len() == self.entries@.len(),
            forall|i: int|
                0 <= i < self.entries@.len() ==> r.entries@[i].0 == self.entries@[i].0
                    && mirrors(self.entries@[i].1, r.entries@[i].1),
            keys_strictly_sorted(self.entries@) ==> keys_strictly_sorted(r.entries@),
        decreases *self,
    {
        let mut entries: Vec<(String, Value)> = Vec::new();
        let mut j: usize = 0;
        while j < self.entries.len()
            invariant
                j <= self.entries@.len(),
                entries@.len() == j as int,
                forall|i: int|
                    0 <= i < j ==> entries@[i].0 == self.entries@[i].0 && mirrors(
                        self.entries@[i].1,
                        entries@[i].1,
                    ),
            decreases self.entries@.len() - j,
        {
            proof {
                assert(decreases_to!(*self => self.entries@[j as int].1));
            }
            let key = self.entries[j].0.clone();
            let value = self.entries[j].1.clone();
            entries.push((key, value));
            j = j + 1;
        }
        proof {
            if keys_strictly_sorted(self.entries@) {
                assert forall|i: int, j2: int|
                    0 <= i < j2 < entries@.len() implies lex_lt(
                    entries@[i].0@,
                    entries@[j2].0@,
                ) by {
                    assert(entries@[i].0 == self.entries@[i].0);
                    assert(entries@[j2].0 == self.entries@[j2].0);
                    assert(lex_lt(self.entries@[i].0@, self.entries@[j2].0@));
                }
            }
        }
        ValueDict { entries }
    }
}

proof fn lemma_pretty_items_step(items: Seq<Value>, i: int)
    requires
        1 <= i < items.len(),
    ensures
        pretty_items(items.take(i + 1)) == pretty_items(items.take(i)) + ", "@ + pretty_spec(
            items[i],
        ),
    decreases i,
{
    if i == 1 {
        assert(items.take(2).subrange(1, 2) =~= seq![items[1]]);
        assert(items.take(1) =~= seq![items[0]]);
        assert(pretty_items(seq![items[1]]) == pretty_spec(items[1]));
        assert(pretty_items(items.take(1)) == pretty_spec(items[0]));
        assert(items.take(2)[0] == items[0]);
        assert(pretty_items(items.take(2)) =~= pretty_items(items.take(1)) + ", "@
            + pretty_spec(items[1]));
    } else {
        let t = items.subrange(1, items.len() as int);
        lemma_pretty_items_step(t, i - 1);
        assert(items.take(i + 1).subrange(1, i + 1) =~= t.take(i));
        assert(items.take(i).subrange(1, i) =~= t.take(i - 1));
        assert(t[i - 1] == items[i]);
        assert(pretty_items(items.take(i + 1)) =~= pretty_items(items.take(i)) + ", "@
            + pretty_spec(items[i]));
    }
}

/// Renders an array value: comma-joined items in parentheses, with a
/// trailing comma when there is exactly one element.
pub fn pretty_array(items: &Vec<Value>) -> (r: String)
    ensures
        r@ == "("@ + pretty_items(items@) + (if items@.len() == 1 {
            ","@
        } else {
            Seq::<char>::empty()
        }) + ")"@,
    decreases *items,
{
    let mut r = String::from_str("(");
    let mut j: usize = 0;
    while j < items.len()
        invariant
            j <= items@.len(),
            j == 0 ==> r@ == "("@,
            j > 0 ==> r@ == "("@ + pretty_items(items@.take(j as int)),
        decreases items@.len() - j,
    {
        if j > 0 {
            r.append(", ");
        }
        proof {
            assert(decreases_to!(*items => items@[j as int]));
        }
        let piece = items[j].pretty();
        r.append(piece.as_str());
        proof {
            if j == 0 {
                assert(items@.take(1) =~= seq![items@[0]]);
                assert(r@ =~= "("@ + pretty_items(items@.take(1)));
            } else {
                lemma_pretty_items_step(items@, j as int);
                assert(r@ =~= "("@ + pretty_items(items@.take(j as int + 1)));
            }
        }
        j = j + 1;
    }
    if items.len() == 1 {
        r.append(",");
    }
    r.append(")");
    proof {
        assert(items@.take(items@.len() as int) =~= items@);
        assert(r@ =~= "("@ + pretty_items(items@) + (if items@.len() == 1 {
            ","@
        } else {
            Seq::<char>::empty()
        }) + ")"@);
    }
    r
}

proof fn lemma_pretty_entries_step(entries: Seq<(String, Value)>, i: int)
    requires
        1 <= i < entries.len(),
    ensures
        pretty_entries(entries.take(i + 1)) == pretty_entries(entries.take(i)) + ", "@
            + entries[i].0@ + ": "@ + pretty_spec(entries[i].1),
    decreases i,
{
    if i == 1 {
        assert(entries.take(2).subrange(1, 2) =~= seq![entries[1]]);
        assert(entries.take(1) =~= seq![entries[0]]);
        assert(pretty_entries(seq![entries[1]]) =~= entries[1].0@ + ": "@ + pretty_spec(
            entries[1].1,
        ));
        assert(pretty_entries(entries.take(1)) =~= entries[0].0@ + ": "@ + pretty_spec(
            entries[0].1,
        ));
        assert(entries.take(2)[0] == entries[0]);
        assert(pretty_entries(entries.take(2)) =~= pretty_entries(entries.take(1)) + ", "@
            + entries[1].0@ + ": "@ + pretty_spec(entries[1].1));
    } else {
        let t = entries.subrange(1, entries.len() as int);
        lemma_pretty_entries_step(t, i - 1);
        assert(entries.take(i + 1).subrange(1, i + 1) =~= t.take(i));
        assert(entries.take(i).subrange(1, i) =~= t.take(i - 1));
        assert(t[i - 1] == entries[i]);
        assert(pretty_entries(entries.take(i + 1)) =~= pretty_entries(entries.take(i)) + ", "@
            + entries[i].0@ + ": "@ + pretty_spec(entries[i].1));
    }
}

impl ValueDict {
    /// An empty dictionary.
    pub fn new() -> (d: Self)
        ensures
            d.entries@ == Seq::<(String, Value)>::empty(),
            keys_strictly_sorted(d.entries@),
    {
        ValueDict { entries: Vec::new() }
    }

    /// The number of entries.
    pub fn len(&self) -> (n: usize)
        ensures
            n == self.entries@.len(),
    {
        self.entries.len()
    }

    /// Whether the dictionary has no entries.
    pub fn is_empty(&self) -> (r: bool)
        ensures
            r == (self.entries@.len() == 0),
    {
        self.entries.len() == 0
    }

    /// Renders the dictionary: `key: value` pairs comma-joined in
    /// parentheses; the empty dictionary renders as `(:)` to keep it apart
    /// from the empty array `()`.
    pub fn pretty(&self) -> (r: String)
        ensures
            r@ == (if self.entries@.len() == 0 {
                "(:)"@
            } else {
                "("@ + pretty_entries(self.entries@) + ")"@
            }),
        decreases *self,
    {
        if self.entries.len() == 0 {
            return String::from_str("(:)");
        }
        let mut r = String::from_str("(");
        let mut j: usize = 0;
        while j < self.entries.len()
            invariant
                j <= self.entries@.len(),
                j == 0 ==> r@ == "("@,
                j > 0 ==> r@ == "("@ + pretty_entries(self.entries@.take(j as int)),
            decreases self.entries@.len() - j,
        {
            if j > 0 {
                r.append(", ");
            }
            r.append(self.entries[j].0.as_str());
            r.append(": ");
            proof {
                assert(decreases_to!(*self => self.entries@[j as int].1));
            }
            let piece = self.entries[j].1.pretty();
            r.append(piece.as_str());
            proof {
                if j == 0 {
                    assert(self.entries@.take(1) =~= seq![self.entries@[0]]);
                    assert(r@ =~= "("@ + pretty_entries(self.entries@.take(1)));
                } else {
                    lemma_pretty_entries_step(self.entries@, j as int);
                    assert(r@ =~= "("@ + pretty_entries(self.entries@.take(j as int + 1)));
                }
            }
            j = j + 1;
        }
        r.append(")");
        proof {
            assert(self.entries@.take(self.entries@.len() as int) =~= self.entries@);
            assert(r@ =~= "("@ + pretty_entries(self.entries@) + ")"@);
        }
        r
    }

    /// Inserts a binding: placed before the first greater key, replacing an
    /// equal one, so unique, sorted keys stay unique and sorted.
    pub fn insert(&mut self, key: String, value: Value)
        ensures
            final(self).entries@ == insert_entry(old(self).entries@, key, value),
            keys_strictly_sorted(old(self).entries@) ==> keys_strictly_sorted(
                final(self).entries@,
            ),
    {
        let ghost s = self.entries@;
        let mut pos: usize = 0;
        while pos < self.entries.len() && str_lt(self.entries[pos].0.as_str(), key.as_str())
            invariant
                pos <= self.entries@.len(),
                self.entries@ == s,
                forall|k: int| 0 <= k < pos ==> lex_lt(self.entries@[k].0@, key@),
            decreases self.entries@.len() - pos,
        {
            pos = pos + 1;
        }
        proof {
            s.insert_ensures(pos as int, (key, value));
        }
        if pos < self.entries.len() && crate::text::str_eq(
            self.entries[pos].0.as_str(),
            key.as_str(),
        ) {
            proof {
                lemma_insert_entry_at(s, key, value, pos as int);
            }
            self.entries.set(pos, (key, value));
            proof {
                if keys_strictly_sorted(s) {
                    assert forall|i: int, j: int|
                        0 <= i < j < self.entries@.len() implies lex_lt(
                        self.entries@[i].0@,
                        self.entries@[j].0@,
                    ) by {
                        assert(lex_lt(s[i].0@, s[j].0@));
                    }
                }
            }
        } else {
            proof {
                lemma_insert_entry_at(s, key, value, pos as int);
            }
            self.entries.insert(pos, (key, value));
            proof {
                if keys_strictly_sorted(s) {
                    if (pos as int) < s.len() {
                        assert(!lex_lt(s[pos as int].0@, key@));
                        assert(key@ != s[pos as int].0@);
                        crate::text::lemma_lex_total(key@, s[pos as int].0@);
                        assert(lex_lt(key@, s[pos as int].0@));
                    }
                    assert forall|i: int, j: int|
                        0 <= i < j < self.entries@.len() implies lex_lt(
                        self.entries@[i].0@,
                        self.entries@[j].0@,
                    ) by {
                        let p = pos as int;
                        if j < p {
                            assert(self.entries@[i] == s[i]);
                            assert(self.entries@[j] == s[j]);
                        } else if i < p && j == p {
                            assert(self.entries@[i] == s[i]);
                            assert(lex_lt(s[i].0@, key@));
                        } else if i < p && j > p {
                            assert(self.entries@[i] == s[i]);
                            assert(self.entries@[j] == s[j - 1]);
                            assert(lex_lt(s[i].0@, s[j - 1].0@));
                        } else if i == p && j > p {
                            assert(self.entries@[j] == s[j - 1]);
                            if j - 1 > p {
                                assert(lex_lt(s[p].0@, s[j - 1].0@));
                                crate::text::lemma_lex_trans(key@, s[p].0@, s[j - 1].0@);
                            }
                        } else {
                            assert(self.entries@[i] == s[i - 1]);
                            assert(self.entries@[j] == s[j - 1]);
                            assert(lex_lt(s[i - 1].0@, s[j - 1].0@));
                        }
                    }
                }
            }
        }
    }

    /// The value bound to a key, if any.
    pub fn get(&self, key: &str) -> (r: Option<&Value>)
        ensures
            match r {
                Some(v) => exists|i: int|
                    0 <= i < self.entries@.len() && self.entries@[i].0@ == key@ && *v
                        == self.entries@[i].1,
                None => forall|i: int|
                    0 <= i < self.entries@.len() ==> self.entries@[i].0@ != key@,
            },
    {
        let mut j: usize = 0;
        while j < self.entries.len()
            invariant
                j <= self.entries@.len(),
                forall|k: int| 0 <= k < j ==> self.entries@[k].0@ != key@,
            decreases self.entries@.len() - j,
        {
            if crate::text::str_eq(self.entries[j].0.as_str(), key) {
                return Some(&self.entries[j].1);
            }
            j = j + 1;
        }
        None
    }
}

proof fn lemma_insert_entry_at(s: Seq<(String, Value)>, key: String, value: Value, pos: int)
    requires
        0 <= pos <= s.len(),
        forall|k: int| 0 <= k < pos ==> lex_lt(s[k].0@, key@),
        pos < s.len() ==> !lex_lt(s[pos].0@, key@),
    ensures
        pos < s.len() && s[pos].0@ == key@ ==> insert_entry(s, key, value) == s.update(
            pos,
            (key, value),
        ),
        !(pos < s.len() && s[pos].0@ == key@) ==> insert_entry(s, key, value) == s.insert(
            pos,
            (key, value),
        ),
    decreases s.len(),
{
    s.insert_ensures(pos, (key, value));
    if pos == 0 {
        if s.len() == 0 {
            assert(insert_entry(s, key, value) =~= s.insert(0, (key, value)));
        } else if lex_lt(key@, s[0].0@) {
            assert(insert_entry(s, key, value) =~= s.insert(0, (key, value)));
        } else if key@ == s[0].0@ {
            assert(insert_entry(s, key, value) =~= s.update(0, (key, value)));
        } else {
            crate::text::lemma_lex_total(key@, s[0].0@);
        }
    } else {
        assert(lex_lt(s[0].0@, key@));
        if lex_lt(key@, s[0].0@) {
            crate::text::lemma_lex_trans(s[0].0@, key@, s[0].0@);
            crate::text::lemma_lex_irrefl(s[0].0@);
        }
        if key@ == s[0].0@ {
            crate::text::lemma_lex_irrefl(key@);
        }
        let t = s.subrange(1, s.len() as int);
        assert forall|k: int| 0 <= k < pos - 1 implies lex_lt(t[k].0@, key@) by {
            assert(t[k] == s[k + 1]);
        }
        assert(pos - 1 < t.len() ==> !lex_lt(t[pos - 1].0@, key@)) by {
            if pos - 1 < t.len() {
                assert(t[pos - 1] == s[pos]);
            }
        }
        lemma_insert_entry_at(t, key, value, pos - 1);
        t.insert_ensures(pos - 1, (key, value));
        if pos < s.len() && s[pos].0@ == key@ {
            assert(t[pos - 1] == s[pos]);
            assert(insert_entry(s, key, value) =~= s.update(pos, (key, value)));
        } else {
            assert(insert_entry(s, key, value) =~= s.insert(pos, (key, value)));
        }
    }
}

/// Element-by-element equality of two arrays of values.
fn values_eq(x: &Vec<Value>, y: &Vec<Value>) -> (r: bool)
    ensures
        r == (x@.len() == y@.len() && (forall|i: int| 0 <= i < x@.len() ==> eq_val(x@[i], y@[i]))),
    decreases *x,
{
    if x.len() != y.len() {
        return false;
    }
    let mut j: usize = 0;
    while j < x.len()
        invariant
            j <= x@.len(),
            x@.len() == y@.len(),
            forall|k: int| 0 <= k < j ==> eq_val(x@[k], y@[k]),
        decreases x@.len() - j,
    {
        proof {
            assert(decreases_to!(*x => x@[j as int]));
        }
        if !value_eq(&x[j], &y[j]) {
            proof {
                assert(!eq_val(x@[j as int], y@[j as int]));
            }
            return false;
        }
        j = j + 1;
    }
    true
}

/// Entry-by-entry equality of two sorted entry sequences: same keys in the
/// same order, with equal values.
fn entries_eq(x: &Vec<(String, Value)>, y: &Vec<(String, Value)>) -> (r: bool)
    ensures
        r == (x@.len() == y@.len() && (forall|i: int|
            0 <= i < x@.len() ==> x@[i].0@ == y@[i].0@ && eq_val(x@[i].1, y@[i].1))),
    decreases *x,
{
    if x.len() != y.len() {
        return false;
    }
    let mut j: usize = 0;
    while j < x.len()
        invariant
            j <= x@.len(),
            x@.len() == y@.len(),
            forall|k: int| 0 <= k < j ==> x@[k].0@ == y@[k].0@ && eq_val(x@[k].1, y@[k].1),
        decreases x@.len() - j,
    {
        if x[j].0 != y[j].0 {
            proof {
                assert(!(x@[j as int].0@ == y@[j as int].0@ && eq_val(x@[j as int].1,
                    y@[j as int].1)));
            }
            return false;
        }
        proof {
            assert(decreases_to!(*x => x@[j as int].1));
        }
        if !value_eq(&x[j].1, &y[j].1) {
            proof {
                assert(!(x@[j as int].0@ == y@[j as int].0@ && eq_val(x@[j as int].1,
                    y@[j as int].1)));
            }
            return false;
        }
        j = j + 1;
    }
    true
}

/// Node-by-node equality of the texts of two output sequences.
fn contents_eq(x: &Vec<OutputNode>, y: &Vec<OutputNode>) -> (r: bool)
    ensures
        r == (node_texts(x@) == node_texts(y@)),
{
    if x.len() != y.len() {
        proof {
            assert(node_texts(x@).len() != node_texts(y@).len());
        }
        return false;
    }
    let mut j: usize = 0;
    while j < x.len()
        invariant
            j <= x@.len(),
            x@.len() == y@.len(),
            forall|k: int| 0 <= k < j ==> node_text(x@[k]) == node_text(y@[k]),
        decreases x@.len() - j,
    {
        if !crate::markup::node_eq(&x[j], &y[j]) {
            proof {
                assert(node_texts(x@)[j as int] == node_text(x@[j as int]));
                assert(node_texts(y@)[j as int] == node_text(y@[j as int]));
                assert(node_texts(x@) != node_texts(y@));
            }
            return false;
        }
        j = j + 1;
    }
    proof {
        assert forall|k: int|
            0 <= k < x@.len() implies node_texts(x@)[k] == node_texts(y@)[k] by {
            assert(node_texts(x@)[k] == node_text(x@[k]));
            assert(node_texts(y@)[k] == node_text(y@[k]));
        }
        assert(node_texts(x@) =~= node_texts(y@));
    }
    true
}

/// Equality of two values, as `eq_val` states it.
pub fn value_eq(a: &Value, b: &Value) -> (r: bool)
    ensures
        r == eq_val(*a, *b),
    decreases *a,
{
    match a {
        Value::Nil => match b {
            Value::Nil => true,
            _ => false,
        },
        Value::Bool(x) => match b {
            Value::Bool(y) => x == y,
            _ => false,
        },
        Value::Int(x) => match b {
            Value::Int(y) => x == y,
            _ => false,
        },
        Value::Float(x) => match b {
            Value::Float(y) => x.repr == y.repr,
            _ => false,
        },
        Value::Length(x) => match b {
            Value::Length(y) => x == y,
            _ => false,
        },
        Value::Angle(x) => match b {
            Value::Angle(y) => x == y,
            _ => false,
        },
        Value::Relative(x) => match b {
            Value::Relative(y) => x == y,
            _ => false,
        },
        Value::Linear(x) => match b {
            Value::Linear(y) => x == y,
            _ => false,
        },
        Value::Color(x) => match b {
            Value::Color(y) => x == y,
            _ => false,
        },
        Value::Str(x) => match b {
            Value::Str(y) => x.eq(y),
            _ => false,
        },
        Value::Array(x) => match b {
            Value::Array(y) => {
                proof {
                    assert(decreases_to!(*a => *x));
                }
                values_eq(x, y)
            },
            _ => false,
        },
        Value::Dict(x) => match b {
            Value::Dict(y) => {
                proof {
                    assert(decreases_to!(*a => *x));
                    assert(decreases_to!(*x => x.entries));
                }
                entries_eq(&x.entries, &y.entries)
            },
            _ => false,
        },
        Value::Template(x) => match b {
            Value::Template(y) => {
                if x.repr != y.repr {
                    return false;
                }
                contents_eq(&x.content, &y.content)
            },
            _ => false,
        },
        Value::Func(_) => false,
        Value::Any(x) => match b {
            Value::Any(y) => x == y,
            _ => false,
        },
        Value::Error => match b {
            Value::Error => true,
            _ => false,
        },
    }
}

/// Two function values never compare equal — not even two copies of one
/// instance: functions are defined as incomparable.
pub proof fn lemma_funcs_never_equal(f: ValueFunc, g: ValueFunc)
    ensures
        !eq_val(Value::Func(f), Value::Func(g)),
{
}

proof fn lemma_eq_items_render(x: Seq<Value>, y: Seq<Value>)
    requires
        x.len() == y.len(),
        forall|i: int| 0 <= i < x.len() ==> eq_val(x[i], y[i]),
    ensures
        pretty_items(x) == pretty_items(y),
    decreases x,
{
    if x.len() > 0 {
        lemma_eq_renders_same(x[0], y[0]);
        if x.len() > 1 {
            let xt = x.subrange(1, x.len() as int);
            let yt = y.subrange(1, y.len() as int);
            assert forall|i: int| 0 <= i < xt.len() implies eq_val(xt[i], yt[i]) by {
                assert(xt[i] == x[i + 1]);
                assert(yt[i] == y[i + 1]);
            }
            lemma_eq_items_render(xt, yt);
        }
    }
}

proof fn lemma_eq_entries_render(x: Seq<(String, Value)>, y: Seq<(String, Value)>)
    requires
        x.len() == y.len(),
        forall|i: int| 0 <= i < x.len() ==> x[i].0@ == y[i].0@ && eq_val(x[i].1, y[i].1),
    ensures
        pretty_entries(x) == pretty_entries(y),
    decreases x,
{
    if x.len() > 0 {
        lemma_eq_renders_same(x[0].1, y[0].1);
        if x.len() > 1 {
            let xt = x.subrange(1, x.len() as int);
            let yt = y.subrange(1, y.len() as int);
            assert forall|i: int|
                0 <= i < xt.len() implies xt[i].0@ == yt[i].0@ && eq_val(xt[i].1, yt[i].1) by {
                assert(xt[i] == x[i + 1]);
                assert(yt[i] == y[i + 1]);
            }
            lemma_eq_entries_render(xt, yt);
        }
    }
}

/// Rendering is deterministic: equal values render to identical text.
pub proof fn lemma_eq_renders_same(a: Value, b: Value)
    requires
        eq_val(a, b),
    ensures
        pretty_spec(a) == pretty_spec(b),
    decreases a,
{
    match a {
        Value::Array(x) => match b {
            Value::Array(y) => {
                lemma_eq_items_render(x@, y@);
            },
            _ => {
            },
        },
        Value::Dict(x) => match b {
            Value::Dict(y) => {
                lemma_eq_entries_render(x.entries@, y.entries@);
            },
            _ => {
            },
        },
        _ => {
        },
    }
}

impl PartialEq for Value {
    /// Equality of two values; function values never compare equal.
    fn eq(&self, other: &Self) -> (r: bool) {
        value_eq(self, other)
    }
}

impl vstd::std_specs::cmp::PartialEqSpecImpl for Value {
    open spec fn obeys_eq_spec() -> bool {
        true
    }

    open spec fn eq_spec(&self, other: &Value) -> bool {
        eq_val(*self, *other)
    }
}

impl Default for Value {
    /// The default value is the absent one.
    fn default() -> (r: Self)
        ensures
            r == Value::Nil,
    {
        Value::Nil
    }
}

} // verus!
