use vstd::prelude::*;

use crate::fixed::FX_ONE;

verus! {

/// Raw steps in one unit for matrix entries: the product of two scalar
/// grids, so a product of two `Fx` raws is already an exact matrix entry.
pub const MAT_ONE: i64 = FX_ONE * FX_ONE;

/// Magnitude bound on matrix entries under which the depth remap's doubling
/// and single addition stay inside `i64`.
pub const MAT_BOUND: i64 = 0x2000_0000_0000_0000;

/// A column of a 4x4 matrix (or a homogeneous 4-vector) of raw entries.
#[derive(Clone, Copy, Debug, PartialEq, Eq, Structural)]
pub struct Vec4i {
    pub x: i64,
    pub y: i64,
    pub z: i64,
    pub w: i64,
}

/// A 4x4 matrix in column-major order: `x` is the first column and `w` the
/// fourth (the translation column of an affine transform). Entries are worth
/// `raw / MAT_ONE`; a common nonzero factor does not change the projective
/// map a matrix stands for.
#[derive(Clone, Copy, Debug, PartialEq, Eq, Structural)]
pub struct Mat4 {
    pub x: Vec4i,
    pub y: Vec4i,
    pub z: Vec4i,
    pub w: Vec4i,
}

impl Vec4i {
    /// Whether every entry's magnitude is at most `b`.
    pub open spec fn bounded(self, b: int) -> bool {
        &&& -b <= self.x <= b
        &&& -b <= self.y <= b
        &&& -b <= self.z <= b
        &&& -b <= self.w <= b
    }
}

impl Mat4 {
    /// Whether every entry's magnitude is at most `b`.
    pub open spec fn bounded(self, b: int) -> bool {
        self.x.bounded(b) && self.y.bounded(b) && self.z.bounded(b) && self.w.bounded(b)
    }
}

/// The x component of the matrix-vector product `m * v`, as unbounded math.
pub open spec fn mv_x(m: Mat4, v: Vec4i) -> int {
    m.x.x * v.x + m.y.x * v.y + m.z.x * v.z + m.w.x * v.w
}

/// The y component of the matrix-vector product `m * v`.
pub open spec fn mv_y(m: Mat4, v: Vec4i) -> int {
    m.x.y * v.x + m.y.y * v.y + m.z.y * v.z + m.w.y * v.w
}

/// The z component of the matrix-vector product `m * v`.
pub open spec fn mv_z(m: Mat4, v: Vec4i) -> int {
    m.x.z * v.x + m.y.z * v.y + m.z.z * v.z + m.w.z * v.w
}

/// The w component of the matrix-vector product `m * v`.
pub open spec fn mv_w(m: Mat4, v: Vec4i) -> int {
    m.x.w * v.x + m.y.w * v.y + m.z.w * v.z + m.w.w * v.w
}

/// One column of the clip-space depth remap, doubled to stay integral.
///
/// The remap itself is `z' = 0.5 z + 0.5 w` with x, y and w unchanged; this
/// function produces twice that, which is the same projective map: x, y and
/// w doubled, and `z' = z + w`.
pub open spec fn spec_remap_col(c: Vec4i) -> Vec4i {
    Vec4i { x: (2 * c.x) as i64, y: (2 * c.y) as i64, z: (c.z + c.w) as i64, w: (2 * c.w) as i64 }
}

/// The clip-space depth remap applied to a whole matrix, column by column.
pub open spec fn spec_remap(m: Mat4) -> Mat4 {
    Mat4 {
        x: spec_remap_col(m.x),
        y: spec_remap_col(m.y),
        z: spec_remap_col(m.z),
        w: spec_remap_col(m.w),
    }
}

/// Premultiplies a projection matrix by the fixed clip-space remap that
/// takes a depth range of [-1, 1] to [0, 1] (`z' = 0.5 z + 0.5 w`), kept
/// exact by scaling the whole result — a homogeneous matrix — by two.
pub fn apply_depth_remap(m: &Mat4) -> (r: Mat4)
    requires
        m.bounded(MAT_BOUND as int),
    ensures
        r == spec_remap(*m),
        r.bounded(2 * MAT_BOUND as int),
{
    Mat4 {
        x: remap_col(&m.x),
        y: remap_col(&m.y),
        z: remap_col(&m.z),
        w: remap_col(&m.w),
    }
}

/// Applies the doubled depth remap to one column.
fn remap_col(c: &Vec4i) -> (r: Vec4i)
    requires
        c.bounded(MAT_BOUND as int),
    ensures
        r == spec_remap_col(*c),
        r.bounded(2 * MAT_BOUND as int),
{
    Vec4i { x: 2 * c.x, y: 2 * c.y, z: c.z + c.w, w: 2 * c.w }
}

/// The remapped matrix sends any homogeneous point `v` with image
/// `(x, y, z, w)` under `m` to `(2x, 2y, z + w, 2w)`: dividing out, the
/// remapped normalized depth is `0.5 * (z / w) + 0.5`, while x, y and the
/// perspective division are unchanged.
pub proof fn lemma_remap_depth(m: Mat4, v: Vec4i)
    requires
        m.bounded(MAT_BOUND as int),
    ensures
        mv_x(spec_remap(m), v) == 2 * mv_x(m, v),
        mv_y(spec_remap(m), v) == 2 * mv_y(m, v),
        mv_z(spec_remap(m), v) == mv_z(m, v) + mv_w(m, v),
        mv_w(spec_remap(m), v) == 2 * mv_w(m, v),
        2 * mv_w(m, v) * mv_z(spec_remap(m), v) == mv_w(spec_remap(m), v) * (mv_z(m, v) + mv_w(
            m,
            v,
        )),
        mv_x(spec_remap(m), v) * mv_w(m, v) == mv_x(m, v) * mv_w(spec_remap(m), v),
        mv_y(spec_remap(m), v) * mv_w(m, v) == mv_y(m, v) * mv_w(spec_remap(m), v),
{
    let r = spec_remap(m);
    assert(r.x.x == 2 * m.x.x && r.y.x == 2 * m.y.x && r.z.x == 2 * m.z.x && r.w.x == 2 * m.w.x);
    assert(r.x.z == m.x.z + m.x.w && r.y.z == m.y.z + m.y.w && r.z.z == m.z.z + m.z.w && r.w.z
        == m.w.z + m.w.w);
    assert(mv_x(r, v) == 2 * mv_x(m, v)) by (nonlinear_arith)
        requires
            r.x.x == 2 * m.x.x && r.y.x == 2 * m.y.x && r.z.x == 2 * m.z.x && r.w.x == 2 * m.w.x,
            mv_x(r, v) == r.x.x * v.x + r.y.x * v.y + r.z.x * v.z + r.w.x * v.w,
            mv_x(m, v) == m.x.x * v.x + m.y.x * v.y + m.z.x * v.z + m.w.x * v.w,
    ;
    assert(mv_y(r, v) == 2 * mv_y(m, v)) by (nonlinear_arith)
        requires
            r.x.y == 2 * m.x.y && r.y.y == 2 * m.y.y && r.z.y == 2 * m.z.y && r.w.y == 2 * m.w.y,
            mv_y(r, v) == r.x.y * v.x + r.y.y * v.y + r.z.y * v.z + r.w.y * v.w,
            mv_y(m, v) == m.x.y * v.x + m.y.y * v.y + m.z.y * v.z + m.w.y * v.w,
    ;
    assert(mv_z(r, v) == mv_z(m, v) + mv_w(m, v)) by (nonlinear_arith)
        requires
            r.x.z == m.x.z + m.x.w && r.y.z == m.y.z + m.y.w && r.z.z == m.z.z + m.z.w && r.w.z
                == m.w.z + m.w.w,
            mv_z(r, v) == r.x.z * v.x + r.y.z * v.y + r.z.z * v.z + r.w.z * v.w,
            mv_z(m, v) == m.x.z * v.x + m.y.z * v.y + m.z.z * v.z + m.w.z * v.w,
            mv_w(m, v) == m.x.w * v.x + m.y.w * v.y + m.z.w * v.z + m.w.w * v.w,
    ;
    assert(mv_w(r, v) == 2 * mv_w(m, v)) by (nonlinear_arith)
        requires
            r.x.w == 2 * m.x.w && r.y.w == 2 * m.y.w && r.z.w == 2 * m.z.w && r.w.w == 2 * m.w.w,
            mv_w(r, v) == r.x.w * v.x + r.y.w * v.y + r.z.w * v.z + r.w.w * v.w,
            mv_w(m, v) == m.x.w * v.x + m.y.w * v.y + m.z.w * v.z + m.w.w * v.w,
    ;
    assert(mv_x(r, v) * mv_w(m, v) == mv_x(m, v) * mv_w(r, v)) by (nonlinear_arith)
        requires
            mv_x(r, v) == 2 * mv_x(m, v),
            mv_w(r, v) == 2 * mv_w(m, v),
    ;
    assert(mv_y(r, v) * mv_w(m, v) == mv_y(m, v) * mv_w(r, v)) by (nonlinear_arith)
        requires
            mv_y(r, v) == 2 * mv_y(m, v),
            mv_w(r, v) == 2 * mv_w(m, v),
    ;
}

/// A point whose normalized depth under `m` lies in [-1, 1] (stated
/// homogeneously, with a positive perspective divisor) lands, after the
/// remap, at a depth in [0, 1]: between zero and its own divisor.
pub proof fn lemma_remap_depth_range(m: Mat4, v: Vec4i)
    requires
        m.bounded(MAT_BOUND as int),
        mv_w(m, v) > 0,
        -mv_w(m, v) <= mv_z(m, v) <= mv_w(m, v),
    ensures
        0 <= mv_z(spec_remap(m), v) <= mv_w(spec_remap(m), v),
{
    lemma_remap_depth(m, v);
}

} // verus!
