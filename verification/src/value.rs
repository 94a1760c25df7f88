//! Lazy witness values: a field element that is `Known` at proving time and
//! `Unknown` at key-generation time. Combinators propagate `Unknown`
//! without evaluating the underlying field operation, so the same circuit
//! logic runs in both phases.
use vstd::prelude::*;

use crate::field::{Felt, pasta_add, pasta_mul};

verus! {

/// A lazily known field element. The view is `Some` of the element's byte
/// representation when it is known, `None` when it is not.
#[derive(Clone, Copy, Debug)]
pub enum Value {
    Known(Felt),
    Unknown,
}

impl View for Value {
    type V = Option<Seq<u8>>;

    open spec fn view(&self) -> Option<Seq<u8>> {
        match *self {
            Value::Known(f) => Some(f@),
            Value::Unknown => None,
        }
    }
}

/// The product of two lazy values: unknown as soon as either side is.
pub open spec fn spec_mul_value(a: Option<Seq<u8>>, b: Option<Seq<u8>>) -> Option<Seq<u8>> {
    match (a, b) {
        (Some(x), Some(y)) => Some(pasta_mul(x, y)),
        _ => None,
    }
}

/// The sum of two lazy values: unknown as soon as either side is.
pub open spec fn spec_add_value(a: Option<Seq<u8>>, b: Option<Seq<u8>>) -> Option<Seq<u8>> {
    match (a, b) {
        (Some(x), Some(y)) => Some(pasta_add(x, y)),
        _ => None,
    }
}

impl Value {
    pub fn known(f: Felt) -> (r: Value)
        ensures
            r@ == Some(f@),
    {
        Value::Known(f)
    }

    pub fn unknown() -> (r: Value)
        ensures
            r@ == None::<Seq<u8>>,
    {
        Value::Unknown
    }

    pub fn is_known(&self) -> (r: bool)
        ensures
            r <==> self@ is Some,
    {
        match *self {
            Value::Known(_) => true,
            Value::Unknown => false,
        }
    }

    /// Maps a unary operation over the value. On `Unknown` the operation is
    /// never evaluated — the closure is not even required to be callable —
    /// and the result stays `Unknown`.
    pub fn map<F: FnOnce(Felt) -> Felt>(self, f: F) -> (r: Value)
        requires
            forall|x: Felt| self == Value::Known(x) ==> f.requires((x,)),
        ensures
            match self {
                Value::Unknown => r == Value::Unknown,
                Value::Known(x) => r matches Value::Known(y) && f.ensures((x,), y),
            },
    {
        match self {
            Value::Known(x) => Value::Known(f(x)),
            Value::Unknown => Value::Unknown,
        }
    }

    /// Combines two lazy values with a binary operation. On `Unknown` the
    /// operation is never evaluated and the result stays `Unknown`.
    pub fn combine<F: FnOnce(Felt, Felt) -> Felt>(self, other: Value, f: F) -> (r: Value)
        requires
            forall|x: Felt, y: Felt|
                self == Value::Known(x) && other == Value::Known(y) ==> f.requires((x, y)),
        ensures
            match (self, other) {
                (Value::Known(x), Value::Known(y)) => (r matches Value::Known(z) && f.ensures(
                    (x, y),
                    z,
                )),
                _ => r == Value::Unknown,
            },
    {
        match (self, other) {
            (Value::Known(x), Value::Known(y)) => Value::Known(f(x, y)),
            _ => Value::Unknown,
        }
    }

    /// Lazy field multiplication: `Unknown` as soon as either side is.
    pub fn mul(&self, other: &Value) -> (r: Value)
        ensures
            r@ == spec_mul_value(self@, other@),
    {
        self.combine(*other, |x: Felt, y: Felt| -> (z: Felt)
            ensures
                z@ == pasta_mul(x@, y@),
            { x.mul(&y) })
    }

    /// Lazy field addition: `Unknown` as soon as either side is.
    pub fn add(&self, other: &Value) -> (r: Value)
        ensures
            r@ == spec_add_value(self@, other@),
    {
        self.combine(*other, |x: Felt, y: Felt| -> (z: Felt)
            ensures
                z@ == pasta_add(x@, y@),
            { x.add(&y) })
    }
}

} // verus!
