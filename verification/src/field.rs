//! Field elements of the proof backend's finite field (the Pasta base
//! field), held by their canonical 32-byte little-endian representation.
//!
//! The arithmetic itself is supplied by the outside proving crate; this
//! module wraps it behind trusted items whose contracts speak only of the
//! byte representations.
use vstd::prelude::*;

use halo2_proofs::pasta::Fp;
use ff::PrimeField;

verus! {

/// What `Fp::from(x)` followed by `Fp::to_repr` returns: the canonical
/// little-endian byte representation of the field element `x mod p`.
pub uninterp spec fn pasta_from_u64(x: u64) -> Seq<u8>;

/// What multiplying two Pasta field elements, given and returned as
/// canonical byte representations, yields.
pub uninterp spec fn pasta_mul(a: Seq<u8>, b: Seq<u8>) -> Seq<u8>;

/// What adding two Pasta field elements, given and returned as canonical
/// byte representations, yields.
pub uninterp spec fn pasta_add(a: Seq<u8>, b: Seq<u8>) -> Seq<u8>;

/// An element of the backend's finite field. Arithmetic (`+`, `*`) is
/// provided externally; a `Felt` only carries the canonical byte
/// representation, which is what all contracts speak of. Equal byte
/// representations denote equal field elements and vice versa, because the
/// representation is canonical.
#[derive(Clone, Copy, Debug)]
pub struct Felt {
    repr: [u8; 32],
}

impl View for Felt {
    type V = Seq<u8>;

    closed spec fn view(&self) -> Seq<u8> {
        self.repr@
    }
}

impl Felt {
    /// Relies on `Fp::from(u64)` and `Fp::to_repr` of the Pasta field in
    /// halo2's `pasta` module: both are pure functions of their argument.
    #[verifier::external_body]
    pub fn from_u64(x: u64) -> (r: Felt)
        ensures
            r@ == pasta_from_u64(x),
    {
        Felt { repr: Fp::from(x).to_repr() }
    }

    /// Relies on `Fp::from_repr`, field multiplication and `Fp::to_repr`
    /// of the Pasta field: a pure function of the two byte representations.
    /// A non-canonical representation is read as zero rather than rejected.
    #[verifier::external_body]
    pub(crate) fn mul(&self, other: &Felt) -> (r: Felt)
        ensures
            r@ == pasta_mul(self@, other@),
    {
        let a = Fp::from_repr(self.repr).unwrap_or(Fp::from(0));
        let b = Fp::from_repr(other.repr).unwrap_or(Fp::from(0));
        Felt { repr: (a * b).to_repr() }
    }

    /// Relies on `Fp::from_repr`, field addition and `Fp::to_repr` of the
    /// Pasta field: a pure function of the two byte representations.
    /// A non-canonical representation is read as zero rather than rejected.
    #[verifier::external_body]
    pub(crate) fn add(&self, other: &Felt) -> (r: Felt)
        ensures
            r@ == pasta_add(self@, other@),
    {
        let a = Fp::from_repr(self.repr).unwrap_or(Fp::from(0));
        let b = Fp::from_repr(other.repr).unwrap_or(Fp::from(0));
        Felt { repr: (a + b).to_repr() }
    }

    /// The canonical byte representation, as a plain vector.
    pub fn to_bytes(&self) -> (r: Vec<u8>)
        ensures
            r@ == self@,
    {
        let mut r: Vec<u8> = Vec::new();
        let mut i: usize = 0;
        while i < 32
            invariant
                i <= 32,
                r@.len() == i,
                forall|j: int| 0 <= j < i ==> r@[j] == self@[j],
            decreases 32 - i,
        {
            r.push(self.repr[i]);
            i = i + 1;
        }
        proof {
            assert(r@ =~= self@);
        }
        r
    }

    /// Equality of field elements: the representation is canonical, so two
    /// elements are equal exactly when their bytes are.
    pub fn eq_felt(&self, other: &Felt) -> (r: bool)
        ensures
            r <==> self@ == other@,
    {
        let mut i: usize = 0;
        while i < 32
            invariant
                i <= 32,
                forall|j: int| 0 <= j < i ==> self@[j] == other@[j],
            decreases 32 - i,
        {
            if self.repr[i] != other.repr[i] {
                return false;
            }
            i = i + 1;
        }
        proof {
            assert(self@ =~= other@);
        }
        true
    }
}

} // verus!
