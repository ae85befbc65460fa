use vstd::prelude::*;

verus! {

/// A clockwise rotation of a glyph by a multiple of 90 degrees.
#[derive(Clone, Copy, Debug, PartialEq, Eq, Structural)]
pub enum CharRotation {
    NoRotation,
    Rotation90,
    Rotation180,
    Rotation270,
}

/// A reflection of a glyph along its horizontal and/or vertical axis.
#[derive(Clone, Copy, Debug, PartialEq, Eq, Structural)]
pub enum CharMirror {
    NoMirror,
    MirrorX,
    MirrorY,
    MirrorBoth,
}

impl CharRotation {
    /// The number of clockwise quarter turns, in `0..4`.
    pub open spec fn quarter_turns_spec(self) -> int {
        match self {
            CharRotation::NoRotation => 0,
            CharRotation::Rotation90 => 1,
            CharRotation::Rotation180 => 2,
            CharRotation::Rotation270 => 3,
        }
    }

    /// The rotation made of `n` clockwise quarter turns.
    pub open spec fn from_quarter_turns_spec(n: int) -> CharRotation {
        let k = n % 4;
        if k == 0 {
            CharRotation::NoRotation
        } else if k == 1 {
            CharRotation::Rotation90
        } else if k == 2 {
            CharRotation::Rotation180
        } else {
            CharRotation::Rotation270
        }
    }

    /// The rotation that undoes this one.
    pub open spec fn inverse(self) -> CharRotation {
        CharRotation::from_quarter_turns_spec(4 - self.quarter_turns_spec())
    }

    pub fn quarter_turns(self) -> (r: u8)
        ensures
            r as int == self.quarter_turns_spec(),
            r < 4,
    {
        match self {
            CharRotation::NoRotation => 0,
            CharRotation::Rotation90 => 1,
            CharRotation::Rotation180 => 2,
            CharRotation::Rotation270 => 3,
        }
    }

    pub fn from_quarter_turns(n: u8) -> (r: CharRotation)
        ensures
            r == CharRotation::from_quarter_turns_spec(n as int),
    {
        let k = n % 4;
        if k == 0 {
            CharRotation::NoRotation
        } else if k == 1 {
            CharRotation::Rotation90
        } else if k == 2 {
            CharRotation::Rotation180
        } else {
            CharRotation::Rotation270
        }
    }

    /// This rotation followed by `rhs`: the quarter turns add up modulo 4.
    pub open spec fn compose(self, rhs: CharRotation) -> CharRotation {
        CharRotation::from_quarter_turns_spec(self.quarter_turns_spec() + rhs.quarter_turns_spec())
    }

    pub fn then(self, rhs: Self) -> (r: Self)
        ensures
            r == self.compose(rhs),
            r.quarter_turns_spec() == (self.quarter_turns_spec() + rhs.quarter_turns_spec()) % 4,
    {
        CharRotation::from_quarter_turns(self.quarter_turns() + rhs.quarter_turns())
    }

    /// The pixel of a cell of `w` by `h` pixels that the rotated glyph shows at
    /// `(x, y)`: the sampler reads `(x, y)` from here, so the drawn glyph turns
    /// by the inverse of this permutation.
    pub open spec fn rotate_spec(self, x: int, y: int, w: int, h: int) -> (int, int) {
        match self {
            CharRotation::NoRotation => (x, y),
            CharRotation::Rotation90 => (h - 1 - y, x),
            CharRotation::Rotation180 => (w - 1 - x, h - 1 - y),
            CharRotation::Rotation270 => (y, w - 1 - x),
        }
    }

    pub fn rotate_pos(self, x: usize, y: usize, w: usize, h: usize) -> (r: (usize, usize))
        requires
            x < w,
            y < h,
        ensures
            (r.0 as int, r.1 as int) == self.rotate_spec(x as int, y as int, w as int, h as int),
    {
        match self {
            CharRotation::NoRotation => (x, y),
            CharRotation::Rotation90 => (h - 1 - y, x),
            CharRotation::Rotation180 => (w - 1 - x, h - 1 - y),
            CharRotation::Rotation270 => (y, w - 1 - x),
        }
    }
}

impl CharMirror {
    /// Whether this mirror flips the horizontal coordinate.
    pub open spec fn flips_x_spec(self) -> bool {
        self is MirrorX || self is MirrorBoth
    }

    /// Whether this mirror flips the vertical coordinate.
    pub open spec fn flips_y_spec(self) -> bool {
        self is MirrorY || self is MirrorBoth
    }

    /// The mirror with the given pair of flips.
    pub open spec fn from_flips_spec(flip_x: bool, flip_y: bool) -> CharMirror {
        if flip_x && flip_y {
            CharMirror::MirrorBoth
        } else if flip_x {
            CharMirror::MirrorX
        } else if flip_y {
            CharMirror::MirrorY
        } else {
            CharMirror::NoMirror
        }
    }

    pub fn flips_x(self) -> (r: bool)
        ensures
            r == self.flips_x_spec(),
    {
        match self {
            CharMirror::MirrorX | CharMirror::MirrorBoth => true,
            _ => false,
        }
    }

    pub fn flips_y(self) -> (r: bool)
        ensures
            r == self.flips_y_spec(),
    {
        match self {
            CharMirror::MirrorY | CharMirror::MirrorBoth => true,
            _ => false,
        }
    }

    pub fn from_flips(flip_x: bool, flip_y: bool) -> (r: CharMirror)
        ensures
            r == CharMirror::from_flips_spec(flip_x, flip_y),
    {
        if flip_x && flip_y {
            CharMirror::MirrorBoth
        } else if flip_x {
            CharMirror::MirrorX
        } else if flip_y {
            CharMirror::MirrorY
        } else {
            CharMirror::NoMirror
        }
    }

    /// This mirror followed by `rhs`: each axis flip is the exclusive or of the two.
    pub open spec fn compose(self, rhs: CharMirror) -> CharMirror {
        CharMirror::from_flips_spec(
            self.flips_x_spec() != rhs.flips_x_spec(),
            self.flips_y_spec() != rhs.flips_y_spec(),
        )
    }

    pub fn then(self, rhs: Self) -> (r: Self)
        ensures
            r == self.compose(rhs),
            r.flips_x_spec() == (self.flips_x_spec() != rhs.flips_x_spec()),
            r.flips_y_spec() == (self.flips_y_spec() != rhs.flips_y_spec()),
    {
        CharMirror::from_flips(self.flips_x() != rhs.flips_x(), self.flips_y() != rhs.flips_y())
    }

    /// The pixel of a cell of `w` by `h` pixels that the mirrored glyph shows
    /// at `(x, y)`; a mirror is its own inverse.
    pub open spec fn mirror_spec(self, x: int, y: int, w: int, h: int) -> (int, int) {
        (
            if self.flips_x_spec() { w - 1 - x } else { x },
            if self.flips_y_spec() { h - 1 - y } else { y },
        )
    }

    pub fn mirror_pos(self, x: usize, y: usize, w: usize, h: usize) -> (r: (usize, usize))
        requires
            x < w,
            y < h,
        ensures
            (r.0 as int, r.1 as int) == self.mirror_spec(x as int, y as int, w as int, h as int),
    {
        match self {
            CharMirror::NoMirror => (x, y),
            CharMirror::MirrorX => (w - 1 - x, y),
            CharMirror::MirrorY => (x, h - 1 - y),
            CharMirror::MirrorBoth => (w - 1 - x, h - 1 - y),
        }
    }
}

/// Composition of rotations is associative, has `NoRotation` as its identity, and
/// composing a rotation with its complement to a full turn gives `NoRotation`.
pub proof fn lemma_rotation_group(a: CharRotation, b: CharRotation, c: CharRotation)
    ensures
        a.compose(b.compose(c)) == a.compose(b).compose(c),
        a.compose(CharRotation::NoRotation) == a,
        CharRotation::NoRotation.compose(a) == a,
        a.compose(a.inverse()) == CharRotation::NoRotation,
        a.inverse().compose(a) == CharRotation::NoRotation,
{
}

/// Composition of mirrors is commutative and associative, has `NoMirror` as its
/// identity, and every mirror undoes itself.
pub proof fn lemma_mirror_group(a: CharMirror, b: CharMirror, c: CharMirror)
    ensures
        a.compose(b) == b.compose(a),
        a.compose(a) == CharMirror::NoMirror,
        a.compose(b.compose(c)) == a.compose(b).compose(c),
        a.compose(CharMirror::NoMirror) == a,
{
}

/// On a square cell of `n` by `n` pixels, a rotation followed by its inverse
/// sends every pixel back to where it was.
pub proof fn lemma_rotation_round_trip(r: CharRotation, x: int, y: int, n: int)
    requires
        0 <= x < n,
        0 <= y < n,
    ensures
        ({
            let p = r.rotate_spec(x, y, n, n);
            r.inverse().rotate_spec(p.0, p.1, n, n)
        }) == (x, y),
{
}

/// On a square cell, rotating by `a` and then by `b` moves each pixel as the
/// single rotation `a.then(b)` does.
pub proof fn lemma_rotate_then(a: CharRotation, b: CharRotation, x: int, y: int, n: int)
    ensures
        ({
            let p = a.rotate_spec(x, y, n, n);
            b.rotate_spec(p.0, p.1, n, n)
        }) == a.compose(b).rotate_spec(x, y, n, n),
{
}

/// On any cell, mirroring by `a` and then by `b` moves each pixel as the single
/// mirror `a.then(b)` does.
pub proof fn lemma_mirror_then(a: CharMirror, b: CharMirror, x: int, y: int, w: int, h: int)
    ensures
        ({
            let p = a.mirror_spec(x, y, w, h);
            b.mirror_spec(p.0, p.1, w, h)
        }) == a.compose(b).mirror_spec(x, y, w, h),
{
}

} // verus!
