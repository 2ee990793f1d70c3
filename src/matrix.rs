use vstd::prelude::*;

use crate::vector::{Vec2, Vec3, Vec4};

verus! {

/// The entry of the row-major grid `m` at (`row`, `col`), or `None` when
/// either index lies outside the grid.
pub open spec fn entry_at<T>(m: Seq<Seq<T>>, row: int, col: int) -> Option<T> {
    if 0 <= row < m.len() && 0 <= col < m[row].len() {
        Some(m[row][col])
    } else {
        None
    }
}

/// Row `row` of the grid `m`, or `None` when there is no such row.
pub open spec fn row_at<T>(m: Seq<Seq<T>>, row: int) -> Option<Seq<T>> {
    if 0 <= row < m.len() {
        Some(m[row])
    } else {
        None
    }
}

/// `m` with the entry at (`row`, `col`) replaced by `e`; `m` itself when
/// there is no such entry.
pub open spec fn with_entry<T>(m: Seq<Seq<T>>, row: int, col: int, e: T) -> Seq<Seq<T>> {
    if 0 <= row < m.len() && 0 <= col < m[row].len() {
        m.update(row, m[row].update(col, e))
    } else {
        m
    }
}

/// `m` with row `row` replaced by `content`; `m` itself when there is no
/// such row.
pub open spec fn with_row<T>(m: Seq<Seq<T>>, row: int, content: Seq<T>) -> Seq<Seq<T>> {
    if 0 <= row < m.len() {
        m.update(row, content)
    } else {
        m
    }
}

/// The square grid `m` with rows and columns exchanged.
pub open spec fn transposed<T>(m: Seq<Seq<T>>) -> Seq<Seq<T>> {
    Seq::new(m.len(), |i: int| Seq::new(m.len(), |j: int| m[j][i]))
}

/// `m` with rows `a` and `b` exchanged.
pub open spec fn rows_swapped<T>(m: Seq<Seq<T>>, a: int, b: int) -> Seq<Seq<T>> {
    m.update(a, m[b]).update(b, m[a])
}

/// `m` has `n` rows of `n` entries each.
pub open spec fn is_square<T>(m: Seq<Seq<T>>, n: nat) -> bool {
    &&& m.len() == n
    &&& forall|i: int| 0 <= i < n ==> (#[trigger] m[i]).len() == n
}

/// A 2x2 matrix in row-major order: `xRC` is the entry in row `R`, column `C`.
#[derive(Debug, Clone, Copy, PartialEq)]
pub struct Mat2<T> {
    x00: T,
    x01: T,
    x10: T,
    x11: T,
}

impl<T> View for Mat2<T> {
    type V = Seq<Seq<T>>;

    /// The entries, row by row.
    closed spec fn view(&self) -> Seq<Seq<T>> {
        seq![seq![self.x00, self.x01], seq![self.x10, self.x11]]
    }
}

impl<T: Copy> Mat2<T> {
    /// Every matrix of this type is a 2x2 grid.
    pub proof fn lemma_shape(&self)
        ensures
            is_square(self@, 2),
    {
        assert(is_square(self@, 2));
    }

    /// The matrix with the given entries, row by row.
    pub fn new(x00: T, x01: T, x10: T, x11: T) -> (r: Self)
        ensures
            is_square(r@, 2),
            r@ == seq![seq![x00, x01], seq![x10, x11]],
    {
        Mat2 { x00, x01, x10, x11 }
    }

    /// The entry at (`row`, `col`); `None` when either index is out of range.
    pub fn get(&self, row: usize, col: usize) -> (r: Option<T>)
        ensures
            is_square(self@, 2),
            r == entry_at(self@, row as int, col as int),
    {
        match (row, col) {
            (0, 0) => Some(self.x00),
            (0, 1) => Some(self.x01),
            (1, 0) => Some(self.x10),
            (1, 1) => Some(self.x11),
            _ => None,
        }
    }

    /// Row `row` as a vector; `None` when the row is out of range.
    pub fn getRow(&self, row: usize) -> (r: Option<Vec2<T>>)
        ensures
            is_square(self@, 2),
            r matches Some(v) ==> row_at(self@, row as int) == Some(v@),
            r is None <==> row_at(self@, row as int) is None,
    {
        match row {
            0 => Some(Vec2 { x: self.x00, y: self.x01 }),
            1 => Some(Vec2 { x: self.x10, y: self.x11 }),
            _ => None,
        }
    }

    /// Replaces the entry at (`row`, `col`) by `element`; an out-of-range
    /// position leaves the matrix unchanged.
    pub fn set(&mut self, row: usize, col: usize, element: T)
        ensures
            is_square(old(self)@, 2),
            is_square(final(self)@, 2),
            final(self)@ == with_entry(old(self)@, row as int, col as int, element),
    {
        match (row, col) {
            (0, 0) => self.x00 = element,
            (0, 1) => self.x01 = element,
            (1, 0) => self.x10 = element,
            (1, 1) => self.x11 = element,
            _ => {},
        }
        assert(self@ =~~= with_entry(old(self)@, row as int, col as int, element));
    }

    /// Replaces row `row` by the components of `rowContent`; an
    /// out-of-range row leaves the matrix unchanged.
    pub fn setRow(&mut self, row: usize, rowContent: Vec2<T>)
        ensures
            is_square(old(self)@, 2),
            is_square(final(self)@, 2),
            final(self)@ == with_row(old(self)@, row as int, rowContent@),
    {
        match row {
            0 => {
                self.x00 = rowContent.x;
                self.x01 = rowContent.y;
            },
            1 => {
                self.x10 = rowContent.x;
                self.x11 = rowContent.y;
            },
            _ => {},
        }
        assert(self@ =~~= with_row(old(self)@, row as int, rowContent@));
    }

    /// The matrix with rows and columns exchanged.
    pub fn transpose(&self) -> (r: Self)
        ensures
            is_square(self@, 2),
            is_square(r@, 2),
            r@ == transposed(self@),
    {
        let r = Mat2 {
            x00: self.x00, x01: self.x10,
            x10: self.x01, x11: self.x11,
        };
        assert(r@ =~~= transposed(self@));
        r
    }

    /// Exchanges rows `row1` and `row2`; both must exist.
    pub fn swapRows(&mut self, row1: usize, row2: usize)
        requires
            row1 < 2,
            row2 < 2,
        ensures
            is_square(old(self)@, 2),
            is_square(final(self)@, 2),
            final(self)@ == rows_swapped(old(self)@, row1 as int, row2 as int),
    {
        let tmp = self.getRow(row1).unwrap();
        let other = self.getRow(row2).unwrap();
        self.setRow(row1, other);
        self.setRow(row2, tmp);
        assert(self@ =~~= rows_swapped(old(self)@, row1 as int, row2 as int));
    }
}

/// A 3x3 matrix in row-major order: `xRC` is the entry in row `R`, column `C`.
#[derive(Debug, Clone, Copy, PartialEq)]
pub struct Mat3<T> {
    x00: T,
    x01: T,
    x02: T,
    x10: T,
    x11: T,
    x12: T,
    x20: T,
    x21: T,
    x22: T,
}

impl<T> View for Mat3<T> {
    type V = Seq<Seq<T>>;

    /// The entries, row by row.
    closed spec fn view(&self) -> Seq<Seq<T>> {
        seq![seq![self.x00, self.x01, self.x02], seq![self.x10, self.x11, self.x12], seq![self.x20, self.x21, self.x22]]
    }
}

impl<T: Copy> Mat3<T> {
    /// Every matrix of this type is a 3x3 grid.
    pub proof fn lemma_shape(&self)
        ensures
            is_square(self@, 3),
    {
        assert(is_square(self@, 3));
    }

    /// The matrix with the given entries, row by row.
    pub fn new(x00: T, x01: T, x02: T, x10: T, x11: T, x12: T, x20: T, x21: T, x22: T) -> (r: Self)
        ensures
            is_square(r@, 3),
            r@ == seq![seq![x00, x01, x02], seq![x10, x11, x12], seq![x20, x21, x22]],
    {
        Mat3 { x00, x01, x02, x10, x11, x12, x20, x21, x22 }
    }

    /// The entry at (`row`, `col`); `None` when either index is out of range.
    pub fn get(&self, row: usize, col: usize) -> (r: Option<T>)
        ensures
            is_square(self@, 3),
            r == entry_at(self@, row as int, col as int),
    {
        match (row, col) {
            (0, 0) => Some(self.x00),
            (0, 1) => Some(self.x01),
            (0, 2) => Some(self.x02),
            (1, 0) => Some(self.x10),
            (1, 1) => Some(self.x11),
            (1, 2) => Some(self.x12),
            (2, 0) => Some(self.x20),
            (2, 1) => Some(self.x21),
            (2, 2) => Some(self.x22),
            _ => None,
        }
    }

    /// Row `row` as a vector; `None` when the row is out of range.
    pub fn getRow(&self, row: usize) -> (r: Option<Vec3<T>>)
        ensures
            is_square(self@, 3),
            r matches Some(v) ==> row_at(self@, row as int) == Some(v@),
            r is None <==> row_at(self@, row as int) is None,
    {
        match row {
            0 => Some(Vec3 { x: self.x00, y: self.x01, z: self.x02 }),
            1 => Some(Vec3 { x: self.x10, y: self.x11, z: self.x12 }),
            2 => Some(Vec3 { x: self.x20, y: self.x21, z: self.x22 }),
            _ => None,
        }
    }

    /// Replaces the entry at (`row`, `col`) by `element`; an out-of-range
    /// position leaves the matrix unchanged.
    pub fn set(&mut self, row: usize, col: usize, element: T)
        ensures
            is_square(old(self)@, 3),
            is_square(final(self)@, 3),
            final(self)@ == with_entry(old(self)@, row as int, col as int, element),
    {
        match (row, col) {
            (0, 0) => self.x00 = element,
            (0, 1) => self.x01 = element,
            (0, 2) => self.x02 = element,
            (1, 0) => self.x10 = element,
            (1, 1) => self.x11 = element,
            (1, 2) => self.x12 = element,
            (2, 0) => self.x20 = element,
            (2, 1) => self.x21 = element,
            (2, 2) => self.x22 = element,
            _ => {},
        }
        assert(self@ =~~= with_entry(old(self)@, row as int, col as int, element));
    }

    /// Replaces row `row` by the components of `rowContent`; an
    /// out-of-range row leaves the matrix unchanged.
    pub fn setRow(&mut self, row: usize, rowContent: Vec3<T>)
        ensures
            is_square(old(self)@, 3),
            is_square(final(self)@, 3),
            final(self)@ == with_row(old(self)@, row as int, rowContent@),
    {
        match row {
            0 => {
                self.x00 = rowContent.x;
                self.x01 = rowContent.y;
                self.x02 = rowContent.z;
            },
            1 => {
                self.x10 = rowContent.x;
                self.x11 = rowContent.y;
                self.x12 = rowContent.z;
            },
            2 => {
                self.x20 = rowContent.x;
                self.x21 = rowContent.y;
                self.x22 = rowContent.z;
            },
            _ => {},
        }
        assert(self@ =~~= with_row(old(self)@, row as int, rowContent@));
    }

    /// The matrix with rows and columns exchanged.
    pub fn transpose(&self) -> (r: Self)
        ensures
            is_square(self@, 3),
            is_square(r@, 3),
            r@ == transposed(self@),
    {
        let r = Mat3 {
            x00: self.x00, x01: self.x10, x02: self.x20,
            x10: self.x01, x11: self.x11, x12: self.x21,
            x20: self.x02, x21: self.x12, x22: self.x22,
        };
        assert(r@ =~~= transposed(self@));
        r
    }

    /// Exchanges rows `row1` and `row2`; both must exist.
    pub fn swapRows(&mut self, row1: usize, row2: usize)
        requires
            row1 < 3,
            row2 < 3,
        ensures
            is_square(old(self)@, 3),
            is_square(final(self)@, 3),
            final(self)@ == rows_swapped(old(self)@, row1 as int, row2 as int),
    {
        let tmp = self.getRow(row1).unwrap();
        let other = self.getRow(row2).unwrap();
        self.setRow(row1, other);
        self.setRow(row2, tmp);
        assert(self@ =~~= rows_swapped(old(self)@, row1 as int, row2 as int));
    }
}

/// A 4x4 matrix in row-major order: `xRC` is the entry in row `R`, column `C`.
#[derive(Debug, Clone, Copy, PartialEq)]
pub struct Mat4<T> {
    pub x00: T,
    pub x01: T,
    pub x02: T,
    pub x03: T,
    pub x10: T,
    pub x11: T,
    pub x12: T,
    pub x13: T,
    pub x20: T,
    pub x21: T,
    pub x22: T,
    pub x23: T,
    pub x30: T,
    pub x31: T,
    pub x32: T,
    pub x33: T,
}

impl<T> View for Mat4<T> {
    type V = Seq<Seq<T>>;

    /// The entries, row by row.
    open spec fn view(&self) -> Seq<Seq<T>> {
        seq![seq![self.x00, self.x01, self.x02, self.x03], seq![self.x10, self.x11, self.x12, self.x13], seq![self.x20, self.x21, self.x22, self.x23], seq![self.x30, self.x31, self.x32, self.x33]]
    }
}

impl<T: Copy> Mat4<T> {
    /// Every matrix of this type is a 4x4 grid.
    pub proof fn lemma_shape(&self)
        ensures
            is_square(self@, 4),
    {
        assert(is_square(self@, 4));
    }

    /// The matrix with the given entries, row by row.
    pub fn new(x00: T, x01: T, x02: T, x03: T, x10: T, x11: T, x12: T, x13: T, x20: T, x21: T, x22: T, x23: T, x30: T, x31: T, x32: T, x33: T) -> (r: Self)
        ensures
            is_square(r@, 4),
            r@ == seq![seq![x00, x01, x02, x03], seq![x10, x11, x12, x13], seq![x20, x21, x22, x23], seq![x30, x31, x32, x33]],
    {
        Mat4 { x00, x01, x02, x03, x10, x11, x12, x13, x20, x21, x22, x23, x30, x31, x32, x33 }
    }

    /// The entry at (`row`, `col`); `None` when either index is out of range.
    pub fn get(&self, row: usize, col: usize) -> (r: Option<T>)
        ensures
            is_square(self@, 4),
            r == entry_at(self@, row as int, col as int),
    {
        match (row, col) {
            (0, 0) => Some(self.x00),
            (0, 1) => Some(self.x01),
            (0, 2) => Some(self.x02),
            (0, 3) => Some(self.x03),
            (1, 0) => Some(self.x10),
            (1, 1) => Some(self.x11),
            (1, 2) => Some(self.x12),
            (1, 3) => Some(self.x13),
            (2, 0) => Some(self.x20),
            (2, 1) => Some(self.x21),
            (2, 2) => Some(self.x22),
            (2, 3) => Some(self.x23),
            (3, 0) => Some(self.x30),
            (3, 1) => Some(self.x31),
            (3, 2) => Some(self.x32),
            (3, 3) => Some(self.x33),
            _ => None,
        }
    }

    /// Row `row` as a vector; `None` when the row is out of range.
    pub fn getRow(&self, row: usize) -> (r: Option<Vec4<T>>)
        ensures
            is_square(self@, 4),
            r matches Some(v) ==> row_at(self@, row as int) == Some(v@),
            r is None <==> row_at(self@, row as int) is None,
    {
        match row {
            0 => Some(Vec4 { x: self.x00, y: self.x01, z: self.x02, w: self.x03 }),
            1 => Some(Vec4 { x: self.x10, y: self.x11, z: self.x12, w: self.x13 }),
            2 => Some(Vec4 { x: self.x20, y: self.x21, z: self.x22, w: self.x23 }),
            3 => Some(Vec4 { x: self.x30, y: self.x31, z: self.x32, w: self.x33 }),
            _ => None,
        }
    }

    /// Replaces the entry at (`row`, `col`) by `element`; an out-of-range
    /// position leaves the matrix unchanged.
    pub fn set(&mut self, row: usize, col: usize, element: T)
        ensures
            is_square(old(self)@, 4),
            is_square(final(self)@, 4),
            final(self)@ == with_entry(old(self)@, row as int, col as int, element),
    {
        match (row, col) {
            (0, 0) => self.x00 = element,
            (0, 1) => self.x01 = element,
            (0, 2) => self.x02 = element,
            (0, 3) => self.x03 = element,
            (1, 0) => self.x10 = element,
            (1, 1) => self.x11 = element,
            (1, 2) => self.x12 = element,
            (1, 3) => self.x13 = element,
            (2, 0) => self.x20 = element,
            (2, 1) => self.x21 = element,
            (2, 2) => self.x22 = element,
            (2, 3) => self.x23 = element,
            (3, 0) => self.x30 = element,
            (3, 1) => self.x31 = element,
            (3, 2) => self.x32 = element,
            (3, 3) => self.x33 = element,
            _ => {},
        }
        assert(self@ =~~= with_entry(old(self)@, row as int, col as int, element));
    }

    /// Replaces row `row` by the components of `rowContent`; an
    /// out-of-range row leaves the matrix unchanged.
    pub fn setRow(&mut self, row: usize, rowContent: Vec4<T>)
        ensures
            is_square(old(self)@, 4),
            is_square(final(self)@, 4),
            final(self)@ == with_row(old(self)@, row as int, rowContent@),
    {
        match row {
            0 => {
                self.x00 = rowContent.x;
                self.x01 = rowContent.y;
                self.x02 = rowContent.z;
                self.x03 = rowContent.w;
            },
            1 => {
                self.x10 = rowContent.x;
                self.x11 = rowContent.y;
                self.x12 = rowContent.z;
                self.x13 = rowContent.w;
            },
            2 => {
                self.x20 = rowContent.x;
                self.x21 = rowContent.y;
                self.x22 = rowContent.z;
                self.x23 = rowContent.w;
            },
            3 => {
                self.x30 = rowContent.x;
                self.x31 = rowContent.y;
                self.x32 = rowContent.z;
                self.x33 = rowContent.w;
            },
            _ => {},
        }
        assert(self@ =~~= with_row(old(self)@, row as int, rowContent@));
    }

    /// The matrix with rows and columns exchanged.
    pub fn transpose(&self) -> (r: Self)
        ensures
            is_square(self@, 4),
            is_square(r@, 4),
            r@ == transposed(self@),
    {
        let r = Mat4 {
            x00: self.x00, x01: self.x10, x02: self.x20, x03: self.x30,
            x10: self.x01, x11: self.x11, x12: self.x21, x13: self.x31,
            x20: self.x02, x21: self.x12, x22: self.x22, x23: self.x32,
            x30: self.x03, x31: self.x13, x32: self.x23, x33: self.x33,
        };
        assert(r@ =~~= transposed(self@));
        r
    }

    /// Exchanges rows `row1` and `row2`; both must exist.
    pub fn swapRows(&mut self, row1: usize, row2: usize)
        requires
            row1 < 4,
            row2 < 4,
        ensures
            is_square(old(self)@, 4),
            is_square(final(self)@, 4),
            final(self)@ == rows_swapped(old(self)@, row1 as int, row2 as int),
    {
        let tmp = self.getRow(row1).unwrap();
        let other = self.getRow(row2).unwrap();
        self.setRow(row1, other);
        self.setRow(row2, tmp);
        assert(self@ =~~= rows_swapped(old(self)@, row1 as int, row2 as int));
    }
}

} // verus!
