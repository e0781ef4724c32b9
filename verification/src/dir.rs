//! A layout direction: a host type with no variant of its own.
//!
//! It registers through the capability set and travels through the value
//! system boxed; its cast shows the protocol's resolution for open-ended
//! host types: when the input is a boxed host value, try the downcast, and
//! on a mismatch hand the container back untouched inside the original
//! value.

use vstd::prelude::*;

use crate::any::{Bounds, ValueAny};
use crate::cast::{Cast, CastResult, Type};
use crate::value::Value;

verus! {

/// The direction text flows in.
#[derive(Debug, Clone, Copy, PartialEq, Eq, Structural)]
pub enum Dir {
    Ltr,
    Rtl,
}

impl Type for Dir {
    open spec fn type_label_spec() -> Seq<char> {
        "direction"@
    }

    fn type_label() -> (n: String) {
        String::from_str("direction")
    }
}

impl Bounds for Dir {
    open spec fn type_id_spec() -> int {
        3
    }

    open spec fn encode_spec(self) -> Seq<u64> {
        seq![
            match self {
                Dir::Ltr => 0u64,
                Dir::Rtl => 1u64,
            },
        ]
    }

    open spec fn decode_spec(data: Seq<u64>) -> Dir {
        if data.len() >= 1 && data[0] == 1 {
            Dir::Rtl
        } else {
            Dir::Ltr
        }
    }

    open spec fn display_spec(self) -> Seq<char> {
        match self {
            Dir::Ltr => "ltr"@,
            Dir::Rtl => "rtl"@,
        }
    }

    proof fn lemma_decode_encode(self) {
    }

    fn type_id() -> u64 {
        3
    }

    fn encode(self) -> (r: Vec<u64>) {
        let mut r: Vec<u64> = Vec::new();
        r.push(
            match self {
                Dir::Ltr => 0,
                Dir::Rtl => 1,
            },
        );
        proof {
            assert(r@ =~= self.encode_spec());
        }
        r
    }

    fn decode(data: &Vec<u64>) -> (r: Dir) {
        if data.len() >= 1 && data[0] == 1 {
            Dir::Rtl
        } else {
            Dir::Ltr
        }
    }

    fn display(&self) -> (r: String) {
        match self {
            Dir::Ltr => String::from_str("ltr"),
            Dir::Rtl => String::from_str("rtl"),
        }
    }
}

impl Cast<Value> for Dir {
    open spec fn accepts(v: Value) -> bool {
        v matches Value::Any(a) && a.id as int == Dir::type_id_spec()
    }

    open spec fn casts_to(v: Value, t: Dir) -> bool {
        v matches Value::Any(a) && a.id as int == Dir::type_id_spec() && t == Dir::decode_spec(
            a.data@,
        )
    }

    open spec fn may_warn() -> bool {
        false
    }

    fn cast(value: Value) -> (r: CastResult<Dir, Value>) {
        match value {
            Value::Any(any) => match any.downcast::<Dir>() {
                Result::Ok(t) => CastResult::Success(t),
                Result::Err(any) => CastResult::Failure(Value::Any(any)),
            },
            v => CastResult::Failure(v),
        }
    }
}

} // verus!
