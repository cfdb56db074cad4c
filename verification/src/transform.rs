//! Pure-translation transforms: a 3-component integer vector with a zero
//! identity and componentwise (wrapping) addition as composition.

use vstd::prelude::*;

verus! {

/// A translation in 3-space. This is the only transform the scene model
/// carries: no rotation or scale.
#[derive(Debug, Clone, Copy, PartialEq, Eq, Structural)]
pub struct PolyVector {
    pub x: i64,
    pub y: i64,
    pub z: i64,
}

/// Componentwise wrapping addition of two translations.
pub open spec fn vadd(a: PolyVector, b: PolyVector) -> PolyVector {
    PolyVector {
        x: vstd::wrapping::i64_specs::wrapping_add(a.x, b.x),
        y: vstd::wrapping::i64_specs::wrapping_add(a.y, b.y),
        z: vstd::wrapping::i64_specs::wrapping_add(a.z, b.z),
    }
}

/// The identity translation: the zero vector.
pub open spec fn identity_spec() -> PolyVector {
    PolyVector { x: 0, y: 0, z: 0 }
}

impl PolyVector {
    /// The zero vector, the identity of composition.
    pub fn zero() -> (r: PolyVector)
        ensures
            r == identity_spec(),
    {
        PolyVector { x: 0, y: 0, z: 0 }
    }

    /// Compose two translations: componentwise wrapping addition.
    pub fn compose(&self, other: &PolyVector) -> (r: PolyVector)
        ensures
            r == vadd(*self, *other),
    {
        PolyVector {
            x: self.x.wrapping_add(other.x),
            y: self.y.wrapping_add(other.y),
            z: self.z.wrapping_add(other.z),
        }
    }
}

/// Composing any translation with the identity, on either side, returns
/// the translation unchanged.
pub proof fn lemma_compose_identity(t: PolyVector)
    ensures
        vadd(t, identity_spec()) == t,
        vadd(identity_spec(), t) == t,
{
}

/// Composition of translations is commutative.
pub proof fn lemma_compose_commutative(a: PolyVector, b: PolyVector)
    ensures
        vadd(a, b) == vadd(b, a),
{
}

/// Composition of translations is associative.
pub proof fn lemma_compose_associative(a: PolyVector, b: PolyVector, c: PolyVector)
    ensures
        vadd(vadd(a, b), c) == vadd(a, vadd(b, c)),
{
}

} // verus!
