use vstd::prelude::*;

verus! {

use vstd::std_specs::convert::FromSpec;

/// A homogeneous 4x4 matrix over a scalar element type `T`.
///
/// The field `m{r}{c}` holds the entry of row `r`, column `c`, for `r` and
/// `c` in `1..=4`. The convention is row-major with translation terms kept
/// in row 4, so a matrix post-multiplies a row vector: `v' = v * M`.
#[derive(Clone, Copy, Debug, PartialEq, Eq)]
pub struct Matrix4<T> {
    pub m11: T, pub m12: T, pub m13: T, pub m14: T,
    pub m21: T, pub m22: T, pub m23: T, pub m24: T,
    pub m31: T, pub m32: T, pub m33: T, pub m34: T,
    pub m41: T, pub m42: T, pub m43: T, pub m44: T,
}

impl<T> Matrix4<T> {
    /// The rows of the matrix, outer index row, inner index column,
    /// both counted from 0.
    pub open spec fn rows(self) -> Seq<Seq<T>> {
        seq![
            seq![self.m11, self.m12, self.m13, self.m14],
            seq![self.m21, self.m22, self.m23, self.m24],
            seq![self.m31, self.m32, self.m33, self.m34],
            seq![self.m41, self.m42, self.m43, self.m44],
        ]
    }

    /// The columns of the matrix, outer index column, inner index row,
    /// both counted from 0.
    pub open spec fn cols(self) -> Seq<Seq<T>> {
        seq![
            seq![self.m11, self.m21, self.m31, self.m41],
            seq![self.m12, self.m22, self.m32, self.m42],
            seq![self.m13, self.m23, self.m33, self.m43],
            seq![self.m14, self.m24, self.m34, self.m44],
        ]
    }
}

/// The matrix read at the mathematical level: every `i64` entry as the
/// unbounded integer it holds.
pub open spec fn as_ints(m: Matrix4<i64>) -> Matrix4<int> {
    Matrix4 {
        m11: m.m11 as int, m12: m.m12 as int, m13: m.m13 as int, m14: m.m14 as int,
        m21: m.m21 as int, m22: m.m22 as int, m23: m.m23 as int, m24: m.m24 as int,
        m31: m.m31 as int, m32: m.m32 as int, m33: m.m33 as int, m34: m.m34 as int,
        m41: m.m41 as int, m42: m.m42 as int, m43: m.m43 as int, m44: m.m44 as int,
    }
}

/// The dot product of a row `(a1, a2, a3, a4)` with a column
/// `(b1, b2, b3, b4)`.
pub open spec fn dot4(a1: int, a2: int, a3: int, a4: int, b1: int, b2: int, b3: int, b4: int) -> int {
    a1 * b1 + a2 * b2 + a3 * b3 + a4 * b4
}

/// The identity matrix: 1 on the main diagonal, 0 elsewhere.
pub open spec fn spec_identity() -> Matrix4<int> {
    Matrix4 {
        m11: 1, m12: 0, m13: 0, m14: 0,
        m21: 0, m22: 1, m23: 0, m24: 0,
        m31: 0, m32: 0, m33: 1, m34: 0,
        m41: 0, m42: 0, m43: 0, m44: 1,
    }
}

/// The all-zero matrix, the identity element of addition.
pub open spec fn spec_zero() -> Matrix4<int> {
    Matrix4 {
        m11: 0, m12: 0, m13: 0, m14: 0,
        m21: 0, m22: 0, m23: 0, m24: 0,
        m31: 0, m32: 0, m33: 0, m34: 0,
        m41: 0, m42: 0, m43: 0, m44: 0,
    }
}

/// The translation matrix: the identity with the offsets in row 4, so that
/// it post-multiplies a row vector.
pub open spec fn spec_translation(x: int, y: int, z: int) -> Matrix4<int> {
    Matrix4 {
        m11: 1, m12: 0, m13: 0, m14: 0,
        m21: 0, m22: 1, m23: 0, m24: 0,
        m31: 0, m32: 0, m33: 1, m34: 0,
        m41: x, m42: y, m43: z, m44: 1,
    }
}

/// The scale matrix: the factors on the diagonal, `m44 = 1`, 0 elsewhere.
pub open spec fn spec_scale(x: int, y: int, z: int) -> Matrix4<int> {
    Matrix4 {
        m11: x, m12: 0, m13: 0, m14: 0,
        m21: 0, m22: y, m23: 0, m24: 0,
        m31: 0, m32: 0, m33: z, m34: 0,
        m41: 0, m42: 0, m43: 0, m44: 1,
    }
}

/// The element-wise sum of two matrices.
pub open spec fn spec_add(a: Matrix4<int>, b: Matrix4<int>) -> Matrix4<int> {
    Matrix4 {
        m11: a.m11 + b.m11, m12: a.m12 + b.m12, m13: a.m13 + b.m13, m14: a.m14 + b.m14,
        m21: a.m21 + b.m21, m22: a.m22 + b.m22, m23: a.m23 + b.m23, m24: a.m24 + b.m24,
        m31: a.m31 + b.m31, m32: a.m32 + b.m32, m33: a.m33 + b.m33, m34: a.m34 + b.m34,
        m41: a.m41 + b.m41, m42: a.m42 + b.m42, m43: a.m43 + b.m43, m44: a.m44 + b.m44,
    }
}

/// The matrix product `a * b`: entry `(r, c)` is the dot product of row `r`
/// of `a` with column `c` of `b`.
pub open spec fn spec_mul(a: Matrix4<int>, b: Matrix4<int>) -> Matrix4<int> {
    Matrix4 {
        m11: dot4(a.m11, a.m12, a.m13, a.m14, b.m11, b.m21, b.m31, b.m41),
        m12: dot4(a.m11, a.m12, a.m13, a.m14, b.m12, b.m22, b.m32, b.m42),
        m13: dot4(a.m11, a.m12, a.m13, a.m14, b.m13, b.m23, b.m33, b.m43),
        m14: dot4(a.m11, a.m12, a.m13, a.m14, b.m14, b.m24, b.m34, b.m44),
        m21: dot4(a.m21, a.m22, a.m23, a.m24, b.m11, b.m21, b.m31, b.m41),
        m22: dot4(a.m21, a.m22, a.m23, a.m24, b.m12, b.m22, b.m32, b.m42),
        m23: dot4(a.m21, a.m22, a.m23, a.m24, b.m13, b.m23, b.m33, b.m43),
        m24: dot4(a.m21, a.m22, a.m23, a.m24, b.m14, b.m24, b.m34, b.m44),
        m31: dot4(a.m31, a.m32, a.m33, a.m34, b.m11, b.m21, b.m31, b.m41),
        m32: dot4(a.m31, a.m32, a.m33, a.m34, b.m12, b.m22, b.m32, b.m42),
        m33: dot4(a.m31, a.m32, a.m33, a.m34, b.m13, b.m23, b.m33, b.m43),
        m34: dot4(a.m31, a.m32, a.m33, a.m34, b.m14, b.m24, b.m34, b.m44),
        m41: dot4(a.m41, a.m42, a.m43, a.m44, b.m11, b.m21, b.m31, b.m41),
        m42: dot4(a.m41, a.m42, a.m43, a.m44, b.m12, b.m22, b.m32, b.m42),
        m43: dot4(a.m41, a.m42, a.m43, a.m44, b.m13, b.m23, b.m33, b.m43),
        m44: dot4(a.m41, a.m42, a.m43, a.m44, b.m14, b.m24, b.m34, b.m44),
    }
}

/// Whether `x` lies in the range of an `i64`.
pub open spec fn in_i64(x: int) -> bool {
    i64::MIN <= x <= i64::MAX
}

/// Whether every `i64` entry of the element-wise sum of `a` and `b` can be
/// computed without overflow.
pub open spec fn add_fits(a: Matrix4<int>, b: Matrix4<int>) -> bool {
    &&& in_i64(a.m11 + b.m11) &&& in_i64(a.m12 + b.m12) &&& in_i64(a.m13 + b.m13) &&& in_i64(a.m14 + b.m14)
    &&& in_i64(a.m21 + b.m21) &&& in_i64(a.m22 + b.m22) &&& in_i64(a.m23 + b.m23) &&& in_i64(a.m24 + b.m24)
    &&& in_i64(a.m31 + b.m31) &&& in_i64(a.m32 + b.m32) &&& in_i64(a.m33 + b.m33) &&& in_i64(a.m34 + b.m34)
    &&& in_i64(a.m41 + b.m41) &&& in_i64(a.m42 + b.m42) &&& in_i64(a.m43 + b.m43) &&& in_i64(a.m44 + b.m44)
}

/// Whether the dot product of a row with a column can be computed in `i64`
/// without overflow: each product and each left-to-right partial sum fits.
pub open spec fn dot4_fits(a1: int, a2: int, a3: int, a4: int, b1: int, b2: int, b3: int, b4: int) -> bool {
    &&& in_i64(a1 * b1)
    &&& in_i64(a2 * b2)
    &&& in_i64(a3 * b3)
    &&& in_i64(a4 * b4)
    &&& in_i64(a1 * b1 + a2 * b2)
    &&& in_i64(a1 * b1 + a2 * b2 + a3 * b3)
    &&& in_i64(a1 * b1 + a2 * b2 + a3 * b3 + a4 * b4)
}

/// Whether every entry of the product `a * b` can be computed in `i64`
/// without overflow.
pub open spec fn mul_fits(a: Matrix4<int>, b: Matrix4<int>) -> bool {
    &&& dot4_fits(a.m11, a.m12, a.m13, a.m14, b.m11, b.m21, b.m31, b.m41)
    &&& dot4_fits(a.m11, a.m12, a.m13, a.m14, b.m12, b.m22, b.m32, b.m42)
    &&& dot4_fits(a.m11, a.m12, a.m13, a.m14, b.m13, b.m23, b.m33, b.m43)
    &&& dot4_fits(a.m11, a.m12, a.m13, a.m14, b.m14, b.m24, b.m34, b.m44)
    &&& dot4_fits(a.m21, a.m22, a.m23, a.m24, b.m11, b.m21, b.m31, b.m41)
    &&& dot4_fits(a.m21, a.m22, a.m23, a.m24, b.m12, b.m22, b.m32, b.m42)
    &&& dot4_fits(a.m21, a.m22, a.m23, a.m24, b.m13, b.m23, b.m33, b.m43)
    &&& dot4_fits(a.m21, a.m22, a.m23, a.m24, b.m14, b.m24, b.m34, b.m44)
    &&& dot4_fits(a.m31, a.m32, a.m33, a.m34, b.m11, b.m21, b.m31, b.m41)
    &&& dot4_fits(a.m31, a.m32, a.m33, a.m34, b.m12, b.m22, b.m32, b.m42)
    &&& dot4_fits(a.m31, a.m32, a.m33, a.m34, b.m13, b.m23, b.m33, b.m43)
    &&& dot4_fits(a.m31, a.m32, a.m33, a.m34, b.m14, b.m24, b.m34, b.m44)
    &&& dot4_fits(a.m41, a.m42, a.m43, a.m44, b.m11, b.m21, b.m31, b.m41)
    &&& dot4_fits(a.m41, a.m42, a.m43, a.m44, b.m12, b.m22, b.m32, b.m42)
    &&& dot4_fits(a.m41, a.m42, a.m43, a.m44, b.m13, b.m23, b.m33, b.m43)
    &&& dot4_fits(a.m41, a.m42, a.m43, a.m44, b.m14, b.m24, b.m34, b.m44)
}

/// The matrix whose rows are the rows of `s`: `s[r][c]` becomes the entry
/// of row `r + 1`, column `c + 1`.
pub open spec fn from_rows<T>(s: Seq<Seq<T>>) -> Matrix4<T> {
    Matrix4 {
        m11: s[0][0], m12: s[0][1], m13: s[0][2], m14: s[0][3],
        m21: s[1][0], m22: s[1][1], m23: s[1][2], m24: s[1][3],
        m31: s[2][0], m32: s[2][1], m33: s[2][2], m34: s[2][3],
        m41: s[3][0], m42: s[3][1], m43: s[3][2], m44: s[3][3],
    }
}

impl<T: Copy> Matrix4<T> {
    /// The matrix as a row-major 4x4 array: element `[r][c]` is the entry
    /// of row `r + 1`, column `c + 1`.
    pub fn to_array(&self) -> (a: [[T; 4]; 4])
        ensures
            forall|r: int, c: int|
                0 <= r < 4 && 0 <= c < 4 ==> a@[r]@[c] == self.rows()[r][c],
    {
        [
            [self.m11, self.m12, self.m13, self.m14],
            [self.m21, self.m22, self.m23, self.m24],
            [self.m31, self.m32, self.m33, self.m34],
            [self.m41, self.m42, self.m43, self.m44],
        ]
    }

    /// The matrix as a 4x4 array with rows and columns swapped: element
    /// `[c][r]` is the entry of row `r + 1`, column `c + 1`. Some
    /// graphics-uniform conventions expect this transposed layout.
    pub fn to_array_switched(&self) -> (a: [[T; 4]; 4])
        ensures
            forall|r: int, c: int|
                0 <= r < 4 && 0 <= c < 4 ==> a@[r]@[c] == self.cols()[r][c],
    {
        [
            [self.m11, self.m21, self.m31, self.m41],
            [self.m12, self.m22, self.m32, self.m42],
            [self.m13, self.m23, self.m33, self.m43],
            [self.m14, self.m24, self.m34, self.m44],
        ]
    }
}

impl<T: Copy> From<[[T; 4]; 4]> for Matrix4<T> {
    /// Builds the matrix from a row-major 4x4 array: `a[r][c]` becomes the
    /// entry of row `r + 1`, column `c + 1`.
    fn from(a: [[T; 4]; 4]) -> (m: Matrix4<T>) {
        Matrix4 {
            m11: a[0][0], m12: a[0][1], m13: a[0][2], m14: a[0][3],
            m21: a[1][0], m22: a[1][1], m23: a[1][2], m24: a[1][3],
            m31: a[2][0], m32: a[2][1], m33: a[2][2], m34: a[2][3],
            m41: a[3][0], m42: a[3][1], m43: a[3][2], m44: a[3][3],
        }
    }
}

impl<T: Copy> vstd::std_specs::convert::FromSpecImpl<[[T; 4]; 4]> for Matrix4<T> {
    open spec fn obeys_from_spec() -> bool {
        true
    }

    open spec fn from_spec(a: [[T; 4]; 4]) -> Matrix4<T> {
        from_rows(a@.map_values(|row: [T; 4]| row@))
    }
}

impl Matrix4<i64> {
    /// Returns the identity matrix.
    pub fn new() -> (r: Matrix4<i64>)
        ensures
            as_ints(r) == spec_identity(),
    {
        Matrix4 {
            m11: 1, m12: 0, m13: 0, m14: 0,
            m21: 0, m22: 1, m23: 0, m24: 0,
            m31: 0, m32: 0, m33: 1, m34: 0,
            m41: 0, m42: 0, m43: 0, m44: 1,
        }
    }

    /// Returns the translation matrix for the offsets `(x, y, z)`, placed
    /// in row 4 so that the matrix post-multiplies a row vector.
    pub fn translation(x: i64, y: i64, z: i64) -> (r: Matrix4<i64>)
        ensures
            as_ints(r) == spec_translation(x as int, y as int, z as int),
    {
        Matrix4 {
            m11: 1, m12: 0, m13: 0, m14: 0,
            m21: 0, m22: 1, m23: 0, m24: 0,
            m31: 0, m32: 0, m33: 1, m34: 0,
            m41: x, m42: y, m43: z, m44: 1,
        }
    }

    /// Returns the scale matrix for the factors `(x, y, z)`.
    pub fn scale(x: i64, y: i64, z: i64) -> (r: Matrix4<i64>)
        ensures
            as_ints(r) == spec_scale(x as int, y as int, z as int),
    {
        Matrix4 {
            m11: x, m12: 0, m13: 0, m14: 0,
            m21: 0, m22: y, m23: 0, m24: 0,
            m31: 0, m32: 0, m33: z, m34: 0,
            m41: 0, m42: 0, m43: 0, m44: 1,
        }
    }

    /// Returns the element-wise sum of `self` and `rhs`.
    pub fn add(self, rhs: Matrix4<i64>) -> (r: Matrix4<i64>)
        requires
            add_fits(as_ints(self), as_ints(rhs)),
        ensures
            as_ints(r) == spec_add(as_ints(self), as_ints(rhs)),
    {
        Matrix4 {
            m11: self.m11 + rhs.m11, m12: self.m12 + rhs.m12,
            m13: self.m13 + rhs.m13, m14: self.m14 + rhs.m14,
            m21: self.m21 + rhs.m21, m22: self.m22 + rhs.m22,
            m23: self.m23 + rhs.m23, m24: self.m24 + rhs.m24,
            m31: self.m31 + rhs.m31, m32: self.m32 + rhs.m32,
            m33: self.m33 + rhs.m33, m34: self.m34 + rhs.m34,
            m41: self.m41 + rhs.m41, m42: self.m42 + rhs.m42,
            m43: self.m43 + rhs.m43, m44: self.m44 + rhs.m44,
        }
    }

    /// Returns the matrix product `self * rhs`.
    pub fn mul(self, rhs: Matrix4<i64>) -> (r: Matrix4<i64>)
        requires
            mul_fits(as_ints(self), as_ints(rhs)),
        ensures
            as_ints(r) == spec_mul(as_ints(self), as_ints(rhs)),
    {
        Matrix4 {
            m11: self.m11 * rhs.m11 + self.m12 * rhs.m21 + self.m13 * rhs.m31 + self.m14 * rhs.m41,
            m12: self.m11 * rhs.m12 + self.m12 * rhs.m22 + self.m13 * rhs.m32 + self.m14 * rhs.m42,
            m13: self.m11 * rhs.m13 + self.m12 * rhs.m23 + self.m13 * rhs.m33 + self.m14 * rhs.m43,
            m14: self.m11 * rhs.m14 + self.m12 * rhs.m24 + self.m13 * rhs.m34 + self.m14 * rhs.m44,
            m21: self.m21 * rhs.m11 + self.m22 * rhs.m21 + self.m23 * rhs.m31 + self.m24 * rhs.m41,
            m22: self.m21 * rhs.m12 + self.m22 * rhs.m22 + self.m23 * rhs.m32 + self.m24 * rhs.m42,
            m23: self.m21 * rhs.m13 + self.m22 * rhs.m23 + self.m23 * rhs.m33 + self.m24 * rhs.m43,
            m24: self.m21 * rhs.m14 + self.m22 * rhs.m24 + self.m23 * rhs.m34 + self.m24 * rhs.m44,
            m31: self.m31 * rhs.m11 + self.m32 * rhs.m21 + self.m33 * rhs.m31 + self.m34 * rhs.m41,
            m32: self.m31 * rhs.m12 + self.m32 * rhs.m22 + self.m33 * rhs.m32 + self.m34 * rhs.m42,
            m33: self.m31 * rhs.m13 + self.m32 * rhs.m23 + self.m33 * rhs.m33 + self.m34 * rhs.m43,
            m34: self.m31 * rhs.m14 + self.m32 * rhs.m24 + self.m33 * rhs.m34 + self.m34 * rhs.m44,
            m41: self.m41 * rhs.m11 + self.m42 * rhs.m21 + self.m43 * rhs.m31 + self.m44 * rhs.m41,
            m42: self.m41 * rhs.m12 + self.m42 * rhs.m22 + self.m43 * rhs.m32 + self.m44 * rhs.m42,
            m43: self.m41 * rhs.m13 + self.m42 * rhs.m23 + self.m43 * rhs.m33 + self.m44 * rhs.m43,
            m44: self.m41 * rhs.m14 + self.m42 * rhs.m24 + self.m43 * rhs.m34 + self.m44 * rhs.m44,
        }
    }

    /// Replaces `self` with the product `self * rhs`, computed through a
    /// full temporary so that no entry is read after it was overwritten.
    pub fn mul_assign(&mut self, rhs: Matrix4<i64>)
        requires
            mul_fits(as_ints(*old(self)), as_ints(rhs)),
        ensures
            as_ints(*final(self)) == spec_mul(as_ints(*old(self)), as_ints(rhs)),
    {
        let m11 = self.m11 * rhs.m11 + self.m12 * rhs.m21 + self.m13 * rhs.m31 + self.m14 * rhs.m41;
        let m12 = self.m11 * rhs.m12 + self.m12 * rhs.m22 + self.m13 * rhs.m32 + self.m14 * rhs.m42;
        let m13 = self.m11 * rhs.m13 + self.m12 * rhs.m23 + self.m13 * rhs.m33 + self.m14 * rhs.m43;
        let m14 = self.m11 * rhs.m14 + self.m12 * rhs.m24 + self.m13 * rhs.m34 + self.m14 * rhs.m44;
        let m21 = self.m21 * rhs.m11 + self.m22 * rhs.m21 + self.m23 * rhs.m31 + self.m24 * rhs.m41;
        let m22 = self.m21 * rhs.m12 + self.m22 * rhs.m22 + self.m23 * rhs.m32 + self.m24 * rhs.m42;
        let m23 = self.m21 * rhs.m13 + self.m22 * rhs.m23 + self.m23 * rhs.m33 + self.m24 * rhs.m43;
        let m24 = self.m21 * rhs.m14 + self.m22 * rhs.m24 + self.m23 * rhs.m34 + self.m24 * rhs.m44;
        let m31 = self.m31 * rhs.m11 + self.m32 * rhs.m21 + self.m33 * rhs.m31 + self.m34 * rhs.m41;
        let m32 = self.m31 * rhs.m12 + self.m32 * rhs.m22 + self.m33 * rhs.m32 + self.m34 * rhs.m42;
        let m33 = self.m31 * rhs.m13 + self.m32 * rhs.m23 + self.m33 * rhs.m33 + self.m34 * rhs.m43;
        let m34 = self.m31 * rhs.m14 + self.m32 * rhs.m24 + self.m33 * rhs.m34 + self.m34 * rhs.m44;
        let m41 = self.m41 * rhs.m11 + self.m42 * rhs.m21 + self.m43 * rhs.m31 + self.m44 * rhs.m41;
        let m42 = self.m41 * rhs.m12 + self.m42 * rhs.m22 + self.m43 * rhs.m32 + self.m44 * rhs.m42;
        let m43 = self.m41 * rhs.m13 + self.m42 * rhs.m23 + self.m43 * rhs.m33 + self.m44 * rhs.m43;
        let m44 = self.m41 * rhs.m14 + self.m42 * rhs.m24 + self.m43 * rhs.m34 + self.m44 * rhs.m44;

        self.m11 = m11;
        self.m12 = m12;
        self.m13 = m13;
        self.m14 = m14;
        self.m21 = m21;
        self.m22 = m22;
        self.m23 = m23;
        self.m24 = m24;
        self.m31 = m31;
        self.m32 = m32;
        self.m33 = m33;
        self.m34 = m34;
        self.m41 = m41;
        self.m42 = m42;
        self.m43 = m43;
        self.m44 = m44;
    }
}

impl Default for Matrix4<i64> {
    /// Returns the all-zero matrix; the identity matrix must be asked for
    /// explicitly.
    fn default() -> (r: Matrix4<i64>)
        ensures
            as_ints(r) == spec_zero(),
    {
        Matrix4 {
            m11: 0, m12: 0, m13: 0, m14: 0,
            m21: 0, m22: 0, m23: 0, m24: 0,
            m31: 0, m32: 0, m33: 0, m34: 0,
            m41: 0, m42: 0, m43: 0, m44: 0,
        }
    }
}

/// Returns the identity matrix, built from its row-major array form.
pub fn identity() -> (r: Matrix4<i64>)
    ensures
        as_ints(r) == spec_identity(),
{
    Matrix4::<i64>::from([
        [1, 0, 0, 0],
        [0, 1, 0, 0],
        [0, 0, 1, 0],
        [0, 0, 0, 1],
    ])
}

/// The identity matrix is a two-sided identity of multiplication.
pub proof fn lemma_identity_mul(a: Matrix4<int>)
    ensures
        spec_mul(spec_identity(), a) == a,
        spec_mul(a, spec_identity()) == a,
{
}

/// Addition of matrices is commutative.
pub proof fn lemma_add_comm(a: Matrix4<int>, b: Matrix4<int>)
    ensures
        spec_add(a, b) == spec_add(b, a),
{
}

/// Addition of matrices is associative.
pub proof fn lemma_add_assoc(a: Matrix4<int>, b: Matrix4<int>, c: Matrix4<int>)
    ensures
        spec_add(spec_add(a, b), c) == spec_add(a, spec_add(b, c)),
{
}

/// The all-zero matrix is a two-sided identity of addition.
pub proof fn lemma_add_zero(a: Matrix4<int>)
    ensures
        spec_add(a, spec_zero()) == a,
        spec_add(spec_zero(), a) == a,
{
}

/// Multiplication distributes on the right over a four-term sum.
proof fn lemma_dist_right(x1: int, x2: int, x3: int, x4: int, c: int) by (nonlinear_arith)
    ensures
        (x1 + x2 + x3 + x4) * c == x1 * c + x2 * c + x3 * c + x4 * c,
{
}

/// Multiplication distributes on the left over a four-term sum.
proof fn lemma_dist_left(a: int, y1: int, y2: int, y3: int, y4: int) by (nonlinear_arith)
    ensures
        a * (y1 + y2 + y3 + y4) == a * y1 + a * y2 + a * y3 + a * y4,
{
}

/// Multiplication of three factors is associative.
proof fn lemma_mul_assoc3(x: int, y: int, z: int) by (nonlinear_arith)
    ensures
        (x * y) * z == x * (y * z),
{
}

/// One entry of the associativity of the matrix product: the dot product
/// of a row of `a * b` with a column of `c` equals the dot product of the
/// matching row of `a` with the matching column of `b * c`. The row of `a`
/// is `(a1, .., a4)`, the column of `c` is `(c1, .., c4)`, and `b` is given
/// whole.
proof fn lemma_dot4_assoc(
    a1: int, a2: int, a3: int, a4: int,
    b11: int, b12: int, b13: int, b14: int,
    b21: int, b22: int, b23: int, b24: int,
    b31: int, b32: int, b33: int, b34: int,
    b41: int, b42: int, b43: int, b44: int,
    c1: int, c2: int, c3: int, c4: int,
)
    ensures
        dot4(
            dot4(a1, a2, a3, a4, b11, b21, b31, b41),
            dot4(a1, a2, a3, a4, b12, b22, b32, b42),
            dot4(a1, a2, a3, a4, b13, b23, b33, b43),
            dot4(a1, a2, a3, a4, b14, b24, b34, b44),
            c1, c2, c3, c4,
        ) == dot4(
            a1, a2, a3, a4,
            dot4(b11, b12, b13, b14, c1, c2, c3, c4),
            dot4(b21, b22, b23, b24, c1, c2, c3, c4),
            dot4(b31, b32, b33, b34, c1, c2, c3, c4),
            dot4(b41, b42, b43, b44, c1, c2, c3, c4),
        ),
{
    lemma_dist_right(a1 * b11, a2 * b21, a3 * b31, a4 * b41, c1);
    lemma_dist_right(a1 * b12, a2 * b22, a3 * b32, a4 * b42, c2);
    lemma_dist_right(a1 * b13, a2 * b23, a3 * b33, a4 * b43, c3);
    lemma_dist_right(a1 * b14, a2 * b24, a3 * b34, a4 * b44, c4);
    lemma_mul_assoc3(a1, b11, c1);
    lemma_mul_assoc3(a2, b21, c1);
    lemma_mul_assoc3(a3, b31, c1);
    lemma_mul_assoc3(a4, b41, c1);
    lemma_mul_assoc3(a1, b12, c2);
    lemma_mul_assoc3(a2, b22, c2);
    lemma_mul_assoc3(a3, b32, c2);
    lemma_mul_assoc3(a4, b42, c2);
    lemma_mul_assoc3(a1, b13, c3);
    lemma_mul_assoc3(a2, b23, c3);
    lemma_mul_assoc3(a3, b33, c3);
    lemma_mul_assoc3(a4, b43, c3);
    lemma_mul_assoc3(a1, b14, c4);
    lemma_mul_assoc3(a2, b24, c4);
    lemma_mul_assoc3(a3, b34, c4);
    lemma_mul_assoc3(a4, b44, c4);
    lemma_dist_left(a1, b11 * c1, b12 * c2, b13 * c3, b14 * c4);
    lemma_dist_left(a2, b21 * c1, b22 * c2, b23 * c3, b24 * c4);
    lemma_dist_left(a3, b31 * c1, b32 * c2, b33 * c3, b34 * c4);
    lemma_dist_left(a4, b41 * c1, b42 * c2, b43 * c3, b44 * c4);
}

/// Multiplication of matrices is associative.
pub proof fn lemma_mul_assoc(a: Matrix4<int>, b: Matrix4<int>, c: Matrix4<int>)
    ensures
        spec_mul(spec_mul(a, b), c) == spec_mul(a, spec_mul(b, c)),
{
    lemma_dot4_assoc(
        a.m11, a.m12, a.m13, a.m14,
        b.m11, b.m12, b.m13, b.m14, b.m21, b.m22, b.m23, b.m24,
        b.m31, b.m32, b.m33, b.m34, b.m41, b.m42, b.m43, b.m44,
        c.m11, c.m21, c.m31, c.m41,
    );
    lemma_dot4_assoc(
        a.m11, a.m12, a.m13, a.m14,
        b.m11, b.m12, b.m13, b.m14, b.m21, b.m22, b.m23, b.m24,
        b.m31, b.m32, b.m33, b.m34, b.m41, b.m42, b.m43, b.m44,
        c.m12, c.m22, c.m32, c.m42,
    );
    lemma_dot4_assoc(
        a.m11, a.m12, a.m13, a.m14,
        b.m11, b.m12, b.m13, b.m14, b.m21, b.m22, b.m23, b.m24,
        b.m31, b.m32, b.m33, b.m34, b.m41, b.m42, b.m43, b.m44,
        c.m13, c.m23, c.m33, c.m43,
    );
    lemma_dot4_assoc(
        a.m11, a.m12, a.m13, a.m14,
        b.m11, b.m12, b.m13, b.m14, b.m21, b.m22, b.m23, b.m24,
        b.m31, b.m32, b.m33, b.m34, b.m41, b.m42, b.m43, b.m44,
        c.m14, c.m24, c.m34, c.m44,
    );
    lemma_dot4_assoc(
        a.m21, a.m22, a.m23, a.m24,
        b.m11, b.m12, b.m13, b.m14, b.m21, b.m22, b.m23, b.m24,
        b.m31, b.m32, b.m33, b.m34, b.m41, b.m42, b.m43, b.m44,
        c.m11, c.m21, c.m31, c.m41,
    );
    lemma_dot4_assoc(
        a.m21, a.m22, a.m23, a.m24,
        b.m11, b.m12, b.m13, b.m14, b.m21, b.m22, b.m23, b.m24,
        b.m31, b.m32, b.m33, b.m34, b.m41, b.m42, b.m43, b.m44,
        c.m12, c.m22, c.m32, c.m42,
    );
    lemma_dot4_assoc(
        a.m21, a.m22, a.m23, a.m24,
        b.m11, b.m12, b.m13, b.m14, b.m21, b.m22, b.m23, b.m24,
        b.m31, b.m32, b.m33, b.m34, b.m41, b.m42, b.m43, b.m44,
        c.m13, c.m23, c.m33, c.m43,
    );
    lemma_dot4_assoc(
        a.m21, a.m22, a.m23, a.m24,
        b.m11, b.m12, b.m13, b.m14, b.m21, b.m22, b.m23, b.m24,
        b.m31, b.m32, b.m33, b.m34, b.m41, b.m42, b.m43, b.m44,
        c.m14, c.m24, c.m34, c.m44,
    );
    lemma_dot4_assoc(
        a.m31, a.m32, a.m33, a.m34,
        b.m11, b.m12, b.m13, b.m14, b.m21, b.m22, b.m23, b.m24,
        b.m31, b.m32, b.m33, b.m34, b.m41, b.m42, b.m43, b.m44,
        c.m11, c.m21, c.m31, c.m41,
    );
    lemma_dot4_assoc(
        a.m31, a.m32, a.m33, a.m34,
        b.m11, b.m12, b.m13, b.m14, b.m21, b.m22, b.m23, b.m24,
        b.m31, b.m32, b.m33, b.m34, b.m41, b.m42, b.m43, b.m44,
        c.m12, c.m22, c.m32, c.m42,
    );
    lemma_dot4_assoc(
        a.m31, a.m32, a.m33, a.m34,
        b.m11, b.m12, b.m13, b.m14, b.m21, b.m22, b.m23, b.m24,
        b.m31, b.m32, b.m33, b.m34, b.m41, b.m42, b.m43, b.m44,
        c.m13, c.m23, c.m33, c.m43,
    );
    lemma_dot4_assoc(
        a.m31, a.m32, a.m33, a.m34,
        b.m11, b.m12, b.m13, b.m14, b.m21, b.m22, b.m23, b.m24,
        b.m31, b.m32, b.m33, b.m34, b.m41, b.m42, b.m43, b.m44,
        c.m14, c.m24, c.m34, c.m44,
    );
    lemma_dot4_assoc(
        a.m41, a.m42, a.m43, a.m44,
        b.m11, b.m12, b.m13, b.m14, b.m21, b.m22, b.m23, b.m24,
        b.m31, b.m32, b.m33, b.m34, b.m41, b.m42, b.m43, b.m44,
        c.m11, c.m21, c.m31, c.m41,
    );
    lemma_dot4_assoc(
        a.m41, a.m42, a.m43, a.m44,
        b.m11, b.m12, b.m13, b.m14, b.m21, b.m22, b.m23, b.m24,
        b.m31, b.m32, b.m33, b.m34, b.m41, b.m42, b.m43, b.m44,
        c.m12, c.m22, c.m32, c.m42,
    );
    lemma_dot4_assoc(
        a.m41, a.m42, a.m43, a.m44,
        b.m11, b.m12, b.m13, b.m14, b.m21, b.m22, b.m23, b.m24,
        b.m31, b.m32, b.m33, b.m34, b.m41, b.m42, b.m43, b.m44,
        c.m13, c.m23, c.m33, c.m43,
    );
    lemma_dot4_assoc(
        a.m41, a.m42, a.m43, a.m44,
        b.m11, b.m12, b.m13, b.m14, b.m21, b.m22, b.m23, b.m24,
        b.m31, b.m32, b.m33, b.m34, b.m41, b.m42, b.m43, b.m44,
        c.m14, c.m24, c.m34, c.m44,
    );
}

/// Building a matrix from its own rows gives the matrix back, so
/// converting to the row-major array form and back is the identity.
pub proof fn lemma_rows_round_trip<T>(m: Matrix4<T>)
    ensures
        from_rows(m.rows()) == m,
{
}

/// Converting a matrix to its row-major array form and building a matrix
/// from that array gives the original matrix back exactly: `a` here is any
/// array that satisfies the postcondition of `to_array` on `m`, and the
/// matrix that `from` builds of it is `m` itself.
pub proof fn lemma_array_round_trip<T: Copy>(m: Matrix4<T>, a: [[T; 4]; 4])
    requires
        forall|r: int, c: int|
            0 <= r < 4 && 0 <= c < 4 ==> a@[r]@[c] == m.rows()[r][c],
    ensures
        Matrix4::<T>::from_spec(a) == m,
{
    let s = a@.map_values(|row: [T; 4]| row@);
    assert forall|r: int, c: int| 0 <= r < 4 && 0 <= c < 4 implies s[r][c] == m.rows()[r][c] by {
        assert(s[r] == a@[r]@);
    }
    assert(from_rows(s) == m);
}

/// The switched array form is the transpose of the row-major form:
/// `cols()[c][r]` is `rows()[r][c]`.
pub proof fn lemma_cols_transpose_rows<T>(m: Matrix4<T>)
    ensures
        forall|r: int, c: int|
            0 <= r < 4 && 0 <= c < 4 ==> m.cols()[c][r] == m.rows()[r][c],
{
}

} // verus!
