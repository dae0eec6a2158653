//! Plane transformations as three-by-three matrices.

use vstd::prelude::*;
use crate::fixed::{dot_product, dot_spec, lerp, lerp_spec, saturate, UNIT};

verus! {

/// A transformation of the plane, held as a matrix of three rows and three
/// columns whose entries are millionths.
///
/// A point `(x, y)` is moved to `(m00 * x + m01 * y + m02, m10 * x + m11 * y
/// + m12)`; the last row of an affine transformation is `(0, 0, UNIT)`.
#[derive(Clone, Copy, Debug, PartialEq, Eq, Structural)]
pub struct Transform {
    /// First row, first column.
    pub m00: i64,
    /// First row, second column.
    pub m01: i64,
    /// First row, third column.
    pub m02: i64,
    /// Second row, first column.
    pub m10: i64,
    /// Second row, second column.
    pub m11: i64,
    /// Second row, third column.
    pub m12: i64,
    /// Third row, first column.
    pub m20: i64,
    /// Third row, second column.
    pub m21: i64,
    /// Third row, third column.
    pub m22: i64,
}

impl Transform {
    /// The transformation that leaves every point where it is.
    pub open spec fn identity_spec() -> Transform {
        Transform {
            m00: UNIT,
            m01: 0,
            m02: 0,
            m10: 0,
            m11: UNIT,
            m12: 0,
            m20: 0,
            m21: 0,
            m22: UNIT,
        }
    }

    /// The transformation that moves every point by `(x, y)`.
    pub open spec fn translate_spec(x: i64, y: i64) -> Transform {
        Transform {
            m00: UNIT,
            m01: 0,
            m02: x,
            m10: 0,
            m11: UNIT,
            m12: y,
            m20: 0,
            m21: 0,
            m22: UNIT,
        }
    }

    /// The transformation that stretches by `x` along the first axis and by
    /// `y` along the second.
    pub open spec fn scale_spec(x: i64, y: i64) -> Transform {
        Transform {
            m00: x,
            m01: 0,
            m02: 0,
            m10: 0,
            m11: y,
            m12: 0,
            m20: 0,
            m21: 0,
            m22: UNIT,
        }
    }

    /// The turn about the origin by the angle whose cosine and sine are
    /// given.
    pub open spec fn rotation_spec(cosine: i64, sine: i64) -> Transform {
        Transform {
            m00: cosine,
            m01: saturate(-(sine as int)) as i64,
            m02: 0,
            m10: sine,
            m11: cosine,
            m12: 0,
            m20: 0,
            m21: 0,
            m22: UNIT,
        }
    }

    /// Whether the transformation maps straight lines to straight lines and
    /// keeps parallel lines parallel: its last row is `(0, 0, UNIT)`.
    pub open spec fn is_affine(self) -> bool {
        self.m20 == 0 && self.m21 == 0 && self.m22 == UNIT
    }

    /// The matrix product `self * inner`: the transformation that applies
    /// `inner` first and `self` to what comes out of it. Every entry is
    /// rounded down and pinned to the range of `i64`.
    pub open spec fn product(self, inner: Transform) -> Transform {
        Transform {
            m00: dot_spec(self.m00, inner.m00, self.m01, inner.m10, self.m02, inner.m20),
            m01: dot_spec(self.m00, inner.m01, self.m01, inner.m11, self.m02, inner.m21),
            m02: dot_spec(self.m00, inner.m02, self.m01, inner.m12, self.m02, inner.m22),
            m10: dot_spec(self.m10, inner.m00, self.m11, inner.m10, self.m12, inner.m20),
            m11: dot_spec(self.m10, inner.m01, self.m11, inner.m11, self.m12, inner.m21),
            m12: dot_spec(self.m10, inner.m02, self.m11, inner.m12, self.m12, inner.m22),
            m20: dot_spec(self.m20, inner.m00, self.m21, inner.m10, self.m22, inner.m20),
            m21: dot_spec(self.m20, inner.m01, self.m21, inner.m11, self.m22, inner.m21),
            m22: dot_spec(self.m20, inner.m02, self.m21, inner.m12, self.m22, inner.m22),
        }
    }

    /// The matrix whose every entry is the blend of that entry of `self` and
    /// of `other`, each taken on its own.
    pub open spec fn mix(self, other: Transform, weight: int) -> Transform {
        Transform {
            m00: lerp_spec(self.m00, other.m00, weight),
            m01: lerp_spec(self.m01, other.m01, weight),
            m02: lerp_spec(self.m02, other.m02, weight),
            m10: lerp_spec(self.m10, other.m10, weight),
            m11: lerp_spec(self.m11, other.m11, weight),
            m12: lerp_spec(self.m12, other.m12, weight),
            m20: lerp_spec(self.m20, other.m20, weight),
            m21: lerp_spec(self.m21, other.m21, weight),
            m22: lerp_spec(self.m22, other.m22, weight),
        }
    }

    /// The transformation that leaves every point where it is.
    pub fn identity() -> (t: Transform)
        ensures
            t == Self::identity_spec(),
    {
        Transform {
            m00: UNIT,
            m01: 0,
            m02: 0,
            m10: 0,
            m11: UNIT,
            m12: 0,
            m20: 0,
            m21: 0,
            m22: UNIT,
        }
    }

    /// The transformation that moves every point by `(x, y)`.
    pub fn translate(x: i64, y: i64) -> (t: Transform)
        ensures
            t == Self::translate_spec(x, y),
    {
        Transform {
            m00: UNIT,
            m01: 0,
            m02: x,
            m10: 0,
            m11: UNIT,
            m12: y,
            m20: 0,
            m21: 0,
            m22: UNIT,
        }
    }

    /// The transformation that stretches by `x` along the first axis and by
    /// `y` along the second.
    pub fn scale(x: i64, y: i64) -> (t: Transform)
        ensures
            t == Self::scale_spec(x, y),
    {
        Transform { m00: x, m01: 0, m02: 0, m10: 0, m11: y, m12: 0, m20: 0, m21: 0, m22: UNIT }
    }

    /// The turn about the origin by the angle whose cosine and sine are
    /// given.
    pub fn rotation(cosine: i64, sine: i64) -> (t: Transform)
        ensures
            t == Self::rotation_spec(cosine, sine),
    {
        let minus_sine: i64 = if sine == i64::MIN {
            i64::MAX
        } else {
            -sine
        };
        Transform {
            m00: cosine,
            m01: minus_sine,
            m02: 0,
            m10: sine,
            m11: cosine,
            m12: 0,
            m20: 0,
            m21: 0,
            m22: UNIT,
        }
    }

    /// The matrix product `self * inner`: applies `inner` first, then `self`.
    pub fn compose(&self, inner: &Transform) -> (t: Transform)
        ensures
            t == self.product(*inner),
    {
        Transform {
            m00: dot_product(self.m00, inner.m00, self.m01, inner.m10, self.m02, inner.m20),
            m01: dot_product(self.m00, inner.m01, self.m01, inner.m11, self.m02, inner.m21),
            m02: dot_product(self.m00, inner.m02, self.m01, inner.m12, self.m02, inner.m22),
            m10: dot_product(self.m10, inner.m00, self.m11, inner.m10, self.m12, inner.m20),
            m11: dot_product(self.m10, inner.m01, self.m11, inner.m11, self.m12, inner.m21),
            m12: dot_product(self.m10, inner.m02, self.m11, inner.m12, self.m12, inner.m22),
            m20: dot_product(self.m20, inner.m00, self.m21, inner.m10, self.m22, inner.m20),
            m21: dot_product(self.m20, inner.m01, self.m21, inner.m11, self.m22, inner.m21),
            m22: dot_product(self.m20, inner.m02, self.m21, inner.m12, self.m22, inner.m22),
        }
    }

    /// Blends from `self` (weight zero) towards `other` (weight `UNIT`),
    /// entry by entry.
    pub fn interpolate(&self, other: &Transform, weight: i64) -> (t: Transform)
        ensures
            t == self.mix(*other, weight as int),
    {
        Transform {
            m00: lerp(self.m00, other.m00, weight),
            m01: lerp(self.m01, other.m01, weight),
            m02: lerp(self.m02, other.m02, weight),
            m10: lerp(self.m10, other.m10, weight),
            m11: lerp(self.m11, other.m11, weight),
            m12: lerp(self.m12, other.m12, weight),
            m20: lerp(self.m20, other.m20, weight),
            m21: lerp(self.m21, other.m21, weight),
            m22: lerp(self.m22, other.m22, weight),
        }
    }
}

/// What is composed of affine transformations is affine.
pub proof fn lemma_product_is_affine(outer: Transform, inner: Transform)
    requires
        outer.is_affine(),
        inner.is_affine(),
    ensures
        outer.product(inner).is_affine(),
{
    assert forall|x: int| #[trigger] (0 * x) == 0 by {}
}

/// What is blended of affine transformations is affine, whatever the weight.
pub proof fn lemma_mix_is_affine(from: Transform, to: Transform, weight: int)
    requires
        from.is_affine(),
        to.is_affine(),
    ensures
        from.mix(to, weight).is_affine(),
{
    assert(0 * weight == 0);
}

/// Composing with the identity, on either side, changes nothing.
pub proof fn lemma_identity_is_neutral(t: Transform)
    ensures
        Transform::identity_spec().product(t) == t,
        t.product(Transform::identity_spec()) == t,
{
}

} // verus!
