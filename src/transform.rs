use vstd::prelude::*;

use crate::char_transforms::{CharMirror, CharRotation};

verus! {

/// An affine map of the plane with integer coefficients, laid out by columns:
/// a point `(x, y)` goes to `x * x_axis + y * y_axis + translation`.
/// A glyph cell is the unit square `[0, 1] x [0, 1]`.
#[derive(Clone, Copy, Debug, PartialEq, Eq, Structural)]
pub struct CellTransform {
    pub x_axis: IVec2,
    pub y_axis: IVec2,
    pub translation: IVec2,
}

/// A vector of the plane with integer coordinates.
#[derive(Clone, Copy, Debug, PartialEq, Eq, Structural)]
pub struct IVec2 {
    pub x: i64,
    pub y: i64,
}

impl CellTransform {
    pub open spec fn apply(self, x: int, y: int) -> (int, int) {
        (
            self.x_axis.x * x + self.y_axis.x * y + self.translation.x,
            self.x_axis.y * x + self.y_axis.y * y + self.translation.y,
        )
    }

    /// The map applied to a cell scaled to `sw` by `sh`: the linear part is
    /// kept and the translation is scaled.
    pub open spec fn apply_scaled(self, sw: int, sh: int, x: int, y: int) -> (int, int) {
        (
            self.x_axis.x * x + self.y_axis.x * y + sw * self.translation.x,
            self.x_axis.y * x + self.y_axis.y * y + sh * self.translation.y,
        )
    }

    /// Every coefficient lies in `-1..=1`.
    pub open spec fn is_unit(self) -> bool {
        &&& -1 <= self.x_axis.x <= 1
        &&& -1 <= self.x_axis.y <= 1
        &&& -1 <= self.y_axis.x <= 1
        &&& -1 <= self.y_axis.y <= 1
        &&& -1 <= self.translation.x <= 1
        &&& -1 <= self.translation.y <= 1
    }

    /// `self` followed by `next`, as one map.
    pub open spec fn compose(self, next: CellTransform) -> (int, int, int, int, int, int) {
        (
            next.x_axis.x * self.x_axis.x + next.y_axis.x * self.x_axis.y,
            next.x_axis.y * self.x_axis.x + next.y_axis.y * self.x_axis.y,
            next.x_axis.x * self.y_axis.x + next.y_axis.x * self.y_axis.y,
            next.x_axis.y * self.y_axis.x + next.y_axis.y * self.y_axis.y,
            next.x_axis.x * self.translation.x + next.y_axis.x * self.translation.y
                + next.translation.x,
            next.x_axis.y * self.translation.x + next.y_axis.y * self.translation.y
                + next.translation.y,
        )
    }

    pub open spec fn as_tuple(self) -> (int, int, int, int, int, int) {
        (
            self.x_axis.x as int,
            self.x_axis.y as int,
            self.y_axis.x as int,
            self.y_axis.y as int,
            self.translation.x as int,
            self.translation.y as int,
        )
    }

    /// `self` followed by `next`.
    pub fn followed_by(self, next: CellTransform) -> (r: CellTransform)
        requires
            self.is_unit(),
            next.is_unit(),
        ensures
            r.as_tuple() == self.compose(next),
            forall|x: int, y: int|
                #[trigger] r.apply(x, y) == next.apply(self.apply(x, y).0, self.apply(x, y).1),
    {
        proof {
            assert forall|x: int, y: int|
                #[trigger] self.compose(next).0 * x + self.compose(next).2 * y
                    + self.compose(next).4 == next.apply(self.apply(x, y).0, self.apply(x, y).1).0
                && self.compose(next).1 * x + self.compose(next).3 * y + self.compose(next).5
                    == next.apply(self.apply(x, y).0, self.apply(x, y).1).1 by {
                lemma_compose_apply(self, next, x, y);
            }
            lemma_unit_products();
        }
        CellTransform {
            x_axis: IVec2 {
                x: next.x_axis.x * self.x_axis.x + next.y_axis.x * self.x_axis.y,
                y: next.x_axis.y * self.x_axis.x + next.y_axis.y * self.x_axis.y,
            },
            y_axis: IVec2 {
                x: next.x_axis.x * self.y_axis.x + next.y_axis.x * self.y_axis.y,
                y: next.x_axis.y * self.y_axis.x + next.y_axis.y * self.y_axis.y,
            },
            translation: IVec2 {
                x: next.x_axis.x * self.translation.x + next.y_axis.x * self.translation.y
                    + next.translation.x,
                y: next.x_axis.y * self.translation.x + next.y_axis.y * self.translation.y
                    + next.translation.y,
            },
        }
    }

    /// The placement of a glyph cell at grid position `dest`: the rotation is
    /// applied first, then the mirror, then the move to `dest`.
    pub open spec fn placement_spec(
        rotation: CharRotation,
        mirror: CharMirror,
        dest: (i32, i32),
    ) -> CellTransform {
        let c = rotation.transform_spec().compose(mirror.transform_spec());
        CellTransform {
            x_axis: IVec2 { x: c.0 as i64, y: c.1 as i64 },
            y_axis: IVec2 { x: c.2 as i64, y: c.3 as i64 },
            translation: IVec2 { x: (c.4 + dest.0) as i64, y: (c.5 + dest.1) as i64 },
        }
    }

    pub fn placement(rotation: CharRotation, mirror: CharMirror, dest: (i32, i32)) -> (r:
        CellTransform)
        ensures
            r == CellTransform::placement_spec(rotation, mirror, dest),
            forall|x: int, y: int|
                #[trigger] r.apply(x, y) == ({
                    let p = rotation.transform_spec().apply(x, y);
                    let q = mirror.transform_spec().apply(p.0, p.1);
                    (q.0 + dest.0, q.1 + dest.1)
                }),
    {
        let rm = rotation.to_transform().followed_by(mirror.to_transform());
        proof {
            assert(-3 <= rm.translation.x <= 3 && -3 <= rm.translation.y <= 3);
        }
        let r = CellTransform {
            x_axis: rm.x_axis,
            y_axis: rm.y_axis,
            translation: IVec2 {
                x: rm.translation.x + dest.0 as i64,
                y: rm.translation.y + dest.1 as i64,
            },
        };
        assert forall|x: int, y: int|
            #[trigger] r.apply(x, y) == ({
                let p = rotation.transform_spec().apply(x, y);
                let q = mirror.transform_spec().apply(p.0, p.1);
                (q.0 + dest.0, q.1 + dest.1)
            }) by {
            assert(rm.apply(x, y) == mirror.transform_spec().apply(
                rotation.transform_spec().apply(x, y).0,
                rotation.transform_spec().apply(x, y).1,
            ));
        }
        r
    }
}

/// Applying the composition of two maps is applying one after the other.
pub proof fn lemma_compose_apply(a: CellTransform, b: CellTransform, x: int, y: int)
    ensures
        ({
            let c = a.compose(b);
            (c.0 * x + c.2 * y + c.4, c.1 * x + c.3 * y + c.5)
        }) == b.apply(a.apply(x, y).0, a.apply(x, y).1),
{
    let (a0, a1, a2, a3, a4, a5) = a.as_tuple();
    let (b0, b1, b2, b3, b4, b5) = b.as_tuple();
    lemma_linear_step(b0, b2, a0, a1, a2, a3, a4, a5, b4, x, y);
    lemma_linear_step(b1, b3, a0, a1, a2, a3, a4, a5, b5, x, y);
}

proof fn lemma_linear_step(
    p: int,
    q: int,
    a0: int,
    a1: int,
    a2: int,
    a3: int,
    a4: int,
    a5: int,
    t: int,
    x: int,
    y: int,
)
    ensures
        (p * a0 + q * a1) * x + (p * a2 + q * a3) * y + (p * a4 + q * a5 + t) == p * (a0 * x + a2
            * y + a4) + q * (a1 * x + a3 * y + a5) + t,
{
    assert((p * a0 + q * a1) * x == p * (a0 * x) + q * (a1 * x)) by (nonlinear_arith);
    assert((p * a2 + q * a3) * y == p * (a2 * y) + q * (a3 * y)) by (nonlinear_arith);
    assert(p * (a0 * x + a2 * y + a4) == p * (a0 * x) + p * (a2 * y) + p * a4) by (nonlinear_arith);
    assert(q * (a1 * x + a3 * y + a5) == q * (a1 * x) + q * (a3 * y) + q * a5) by (nonlinear_arith);
}

proof fn lemma_unit_products()
    ensures
        forall|a: int, b: int| -1 <= a <= 1 && -1 <= b <= 1 ==> -1 <= #[trigger] (a * b) <= 1,
{
    assert forall|a: int, b: int| -1 <= a <= 1 && -1 <= b <= 1 implies -1 <= #[trigger] (a * b)
        <= 1 by {
        assert(-1 <= a * b <= 1) by (nonlinear_arith)
            requires
                -1 <= a <= 1,
                -1 <= b <= 1,
        ;
    }
}

impl CharRotation {
    /// The rotation as a map of the unit cell onto itself.
    pub open spec fn transform_spec(self) -> CellTransform {
        match self {
            CharRotation::NoRotation => CellTransform {
                x_axis: IVec2 { x: 1, y: 0 },
                y_axis: IVec2 { x: 0, y: 1 },
                translation: IVec2 { x: 0, y: 0 },
            },
            CharRotation::Rotation90 => CellTransform {
                x_axis: IVec2 { x: 0, y: -1i64 },
                y_axis: IVec2 { x: 1, y: 0 },
                translation: IVec2 { x: 0, y: 1 },
            },
            CharRotation::Rotation180 => CellTransform {
                x_axis: IVec2 { x: -1i64, y: 0 },
                y_axis: IVec2 { x: 0, y: -1i64 },
                translation: IVec2 { x: 1, y: 1 },
            },
            CharRotation::Rotation270 => CellTransform {
                x_axis: IVec2 { x: 0, y: 1 },
                y_axis: IVec2 { x: -1i64, y: 0 },
                translation: IVec2 { x: 1, y: 0 },
            },
        }
    }

    pub fn to_transform(&self) -> (r: CellTransform)
        ensures
            r == self.transform_spec(),
            r.is_unit(),
    {
        match self {
            CharRotation::NoRotation => CellTransform {
                x_axis: IVec2 { x: 1, y: 0 },
                y_axis: IVec2 { x: 0, y: 1 },
                translation: IVec2 { x: 0, y: 0 },
            },
            CharRotation::Rotation90 => CellTransform {
                x_axis: IVec2 { x: 0, y: -1i64 },
                y_axis: IVec2 { x: 1, y: 0 },
                translation: IVec2 { x: 0, y: 1 },
            },
            CharRotation::Rotation180 => CellTransform {
                x_axis: IVec2 { x: -1i64, y: 0 },
                y_axis: IVec2 { x: 0, y: -1i64 },
                translation: IVec2 { x: 1, y: 1 },
            },
            CharRotation::Rotation270 => CellTransform {
                x_axis: IVec2 { x: 0, y: 1 },
                y_axis: IVec2 { x: -1i64, y: 0 },
                translation: IVec2 { x: 1, y: 0 },
            },
        }
    }
}

impl CharMirror {
    /// The mirror as a map of the unit cell onto itself.
    pub open spec fn transform_spec(self) -> CellTransform {
        CellTransform {
            x_axis: IVec2 { x: if self.flips_x_spec() { -1i64 } else { 1i64 }, y: 0 },
            y_axis: IVec2 { x: 0, y: if self.flips_y_spec() { -1i64 } else { 1i64 } },
            translation: IVec2 {
                x: if self.flips_x_spec() { 1i64 } else { 0i64 },
                y: if self.flips_y_spec() { 1i64 } else { 0i64 },
            },
        }
    }

    pub fn to_transform(&self) -> (r: CellTransform)
        ensures
            r == self.transform_spec(),
            r.is_unit(),
    {
        match self {
            CharMirror::NoMirror => CellTransform {
                x_axis: IVec2 { x: 1, y: 0 },
                y_axis: IVec2 { x: 0, y: 1 },
                translation: IVec2 { x: 0, y: 0 },
            },
            CharMirror::MirrorX => CellTransform {
                x_axis: IVec2 { x: -1i64, y: 0 },
                y_axis: IVec2 { x: 0, y: 1 },
                translation: IVec2 { x: 1, y: 0 },
            },
            CharMirror::MirrorY => CellTransform {
                x_axis: IVec2 { x: 1, y: 0 },
                y_axis: IVec2 { x: 0, y: -1i64 },
                translation: IVec2 { x: 0, y: 1 },
            },
            CharMirror::MirrorBoth => CellTransform {
                x_axis: IVec2 { x: -1i64, y: 0 },
                y_axis: IVec2 { x: 0, y: -1i64 },
                translation: IVec2 { x: 1, y: 1 },
            },
        }
    }
}

/// The geometric rotation of a square cell of `n` by `n` pixels moves the
/// centre of each pixel onto the centre of the pixel that the inverse pixel
/// permutation gives (centres in half-pixel units: `2x + 1`). So a drawn glyph
/// turns the same way as a sampled one, which reads pixel `(x, y)` from the
/// permuted position.
pub proof fn lemma_rotation_transform_matches_pixels(r: CharRotation, x: int, y: int, n: int)
    ensures
        ({
            let p = r.inverse().rotate_spec(x, y, n, n);
            r.transform_spec().apply_scaled(2 * n, 2 * n, 2 * x + 1, 2 * y + 1) == (
                2 * p.0 + 1,
                2 * p.1 + 1,
            )
        }),
{
}

/// The geometric mirror of a cell of `w` by `h` pixels moves the centre of
/// each pixel onto the centre of the pixel given by the pixel permutation.
pub proof fn lemma_mirror_transform_matches_pixels(
    m: CharMirror,
    x: int,
    y: int,
    w: int,
    h: int,
)
    ensures
        ({
            let p = m.mirror_spec(x, y, w, h);
            m.transform_spec().apply_scaled(2 * w, 2 * h, 2 * x + 1, 2 * y + 1) == (
                2 * p.0 + 1,
                2 * p.1 + 1,
            )
        }),
{
}

} // verus!
