//! A 3-by-3 matrix of opaque 64-bit scalar words, stored column-major
//! and addressed row-major.

use vstd::prelude::*;

use crate::maths::vector_3::Vector3D;

verus! {

/// One physical column of a `Matrix3D`: three row-entries.
pub type Matrix3DRow = [u64; 3];

/// A 3-by-3 matrix. Each entry is an opaque 64-bit scalar word
/// (for double-precision callers: the bit pattern of an `f64`).
///
/// Physical storage is column-major: `n[c]` holds column `c`, so the
/// entry at logical position (row, col) lives in `n[col][row]`. Public
/// addressing is row-major; [`Matrix3D::entry`] is the single place
/// that translates between the two conventions, and every accessor's
/// contract is stated over it.
#[derive(Clone, Copy, Debug)]
pub struct Matrix3D {
    pub n: [Matrix3DRow; 3],
}

/// All nine entries of `a` equal the corresponding entries of `b`.
pub open spec fn same_entries(a: Matrix3D, b: Matrix3D) -> bool {
    forall|i: int, j: int| 0 <= i < 3 && 0 <= j < 3 ==> a.entry(i, j) == b.entry(i, j)
}

impl PartialEq for Matrix3D {
    fn eq(&self, other: &Self) -> (r: bool) {
        let r = self.n[0][0] == other.n[0][0] && self.n[0][1] == other.n[0][1]
            && self.n[0][2] == other.n[0][2] && self.n[1][0] == other.n[1][0]
            && self.n[1][1] == other.n[1][1] && self.n[1][2] == other.n[1][2]
            && self.n[2][0] == other.n[2][0] && self.n[2][1] == other.n[2][1]
            && self.n[2][2] == other.n[2][2];
        proof {
            if r {
                assert forall|i: int, j: int| 0 <= i < 3 && 0 <= j < 3 implies self.entry(i, j)
                    == other.entry(i, j) by {
                    assert(0 <= i <= 2 && 0 <= j <= 2);
                }
            } else {
                if self.n[0][0] != other.n[0][0] {
                    assert(self.entry(0, 0) != other.entry(0, 0));
                } else if self.n[0][1] != other.n[0][1] {
                    assert(self.entry(1, 0) != other.entry(1, 0));
                } else if self.n[0][2] != other.n[0][2] {
                    assert(self.entry(2, 0) != other.entry(2, 0));
                } else if self.n[1][0] != other.n[1][0] {
                    assert(self.entry(0, 1) != other.entry(0, 1));
                } else if self.n[1][1] != other.n[1][1] {
                    assert(self.entry(1, 1) != other.entry(1, 1));
                } else if self.n[1][2] != other.n[1][2] {
                    assert(self.entry(2, 1) != other.entry(2, 1));
                } else if self.n[2][0] != other.n[2][0] {
                    assert(self.entry(0, 2) != other.entry(0, 2));
                } else if self.n[2][1] != other.n[2][1] {
                    assert(self.entry(1, 2) != other.entry(1, 2));
                } else {
                    assert(self.entry(2, 2) != other.entry(2, 2));
                }
            }
        }
        r
    }
}

impl vstd::std_specs::cmp::PartialEqSpecImpl for Matrix3D {
    open spec fn obeys_eq_spec() -> bool {
        true
    }

    open spec fn eq_spec(&self, other: &Self) -> bool {
        same_entries(*self, *other)
    }
}

impl Default for Matrix3D {
    /// The zero matrix: every entry is the zero word.
    fn default() -> (r: Self)
        ensures
            forall|i: int, j: int| 0 <= i < 3 && 0 <= j < 3 ==> #[trigger] r.entry(i, j) == 0u64,
    {
        Self { n: [[0, 0, 0], [0, 0, 0], [0, 0, 0]] }
    }
}

impl Matrix3D {
    /// The mathematical model of the matrix: the scalar at logical
    /// position (row, col). This is the one source of truth for the
    /// row-major to column-major translation.
    pub open spec fn entry(&self, row: int, col: int) -> u64
        recommends
            0 <= row < 3,
            0 <= col < 3,
    {
        self.n[col][row]
    }

    /// Creates a new `Matrix3D` from nine scalars given in row-major
    /// reading order: row 0 left to right, then row 1, then row 2.
    /// Row-major indexed reads give them back in the same order.
    pub fn new(
        n00: u64, n01: u64, n02: u64,
        n10: u64, n11: u64, n12: u64,
        n20: u64, n21: u64, n22: u64,
    ) -> (r: Self)
        ensures
            r.entry(0, 0) == n00 && r.entry(0, 1) == n01 && r.entry(0, 2) == n02,
            r.entry(1, 0) == n10 && r.entry(1, 1) == n11 && r.entry(1, 2) == n12,
            r.entry(2, 0) == n20 && r.entry(2, 1) == n21 && r.entry(2, 2) == n22,
    {
        Self { n: [[n00, n10, n20], [n01, n11, n21], [n02, n12, n22]] }
    }

    /// Creates a new `Matrix3D` whose logical rows are the three given
    /// vectors: the entry at (row, col) is component col of `v_row`.
    pub fn new_vectors(v0: Vector3D, v1: Vector3D, v2: Vector3D) -> (r: Self)
        ensures
            forall|j: int| 0 <= j < 3 ==> #[trigger] r.entry(0, j) == v0@[j],
            forall|j: int| 0 <= j < 3 ==> #[trigger] r.entry(1, j) == v1@[j],
            forall|j: int| 0 <= j < 3 ==> #[trigger] r.entry(2, j) == v2@[j],
    {
        Self { n: [[v0.x, v1.x, v2.x], [v0.y, v1.y, v2.y], [v0.z, v1.z, v2.z]] }
    }

    /// The canonical addressing fixture: the matrix filled with the
    /// nine words 0 through 8 in row-major reading order, so that the
    /// entry at (row, col) is `3 * row + col`.
    pub fn index_test() -> (r: Self)
        ensures
            forall|i: int, j: int| 0 <= i < 3 && 0 <= j < 3 ==> #[trigger] r.entry(i, j) == (3 * i
                + j) as u64,
    {
        Self::new(0, 1, 2, 3, 4, 5, 6, 7, 8)
    }

    /// Reads the entry at logical position (row, col).
    ///
    /// Callers must guarantee that both indices are in bounds; the
    /// checked counterpart is [`Matrix3D::get`].
    pub fn index(&self, row: usize, col: usize) -> (r: u64)
        requires
            row < 3,
            col < 3,
        ensures
            r == self.entry(row as int, col as int),
    {
        self.n[col][row]
    }

    /// Reads the entry at logical position (row, col), rejecting a row
    /// or column out of bounds.
    pub fn get(&self, row: usize, col: usize) -> (r: Option<u64>)
        ensures
            row < 3 && col < 3 ==> r == Some(self.entry(row as int, col as int)),
            row >= 3 || col >= 3 ==> r is None,
    {
        if row < 3 && col < 3 {
            Some(self.index(row, col))
        } else {
            None
        }
    }

    /// Writes `value` at logical position (row, col); every other entry
    /// keeps its value.
    ///
    /// Callers must guarantee that both indices are in bounds; the
    /// checked counterpart is [`Matrix3D::try_set`].
    pub fn set_entry(&mut self, row: usize, col: usize, value: u64)
        requires
            row < 3,
            col < 3,
        ensures
            forall|i: int, j: int| 0 <= i < 3 && 0 <= j < 3 ==> #[trigger] final(self).entry(i, j)
                == (if i == row && j == col { value } else { old(self).entry(i, j) }),
    {
        self.n[col][row] = value;
    }

    /// Writes `value` at logical position (row, col), rejecting a row
    /// or column out of bounds; reports whether the write took place.
    pub fn try_set(&mut self, row: usize, col: usize, value: u64) -> (r: bool)
        ensures
            row < 3 && col < 3 ==> r && forall|i: int, j: int| 0 <= i < 3 && 0 <= j < 3
                ==> #[trigger] final(self).entry(i, j) == (if i == row && j == col { value } else {
                old(self).entry(i, j) }),
            row >= 3 || col >= 3 ==> !r && *final(self) == *old(self),
    {
        if row < 3 && col < 3 {
            self.set_entry(row, col, value);
            true
        } else {
            false
        }
    }
}

/// A matrix is determined by its nine logical entries: two matrices
/// whose entries agree everywhere are equal.
pub proof fn lemma_entries_determine_matrix(a: Matrix3D, b: Matrix3D)
    requires
        same_entries(a, b),
    ensures
        a == b,
{
    assert forall|c: int| 0 <= c < 3 implies a.n@[c] == b.n@[c] by {
        assert(a.entry(0, c) == b.entry(0, c));
        assert(a.entry(1, c) == b.entry(1, c));
        assert(a.entry(2, c) == b.entry(2, c));
        assert(a.n@[c] =~= b.n@[c]);
    }
    assert(a.n =~= b.n);
}

/// Equality of matrices is structural over all nine stored scalars,
/// reflexive, and symmetric.
pub proof fn lemma_matrix_eq_laws(a: Matrix3D, b: Matrix3D)
    ensures
        (a == b) <==> same_entries(a, b),
        same_entries(a, a),
        same_entries(a, b) == same_entries(b, a),
{
    if same_entries(a, b) {
        lemma_entries_determine_matrix(a, b);
    }
    if same_entries(b, a) {
        assert forall|i: int, j: int| 0 <= i < 3 && 0 <= j < 3 implies a.entry(i, j) == b.entry(
            i,
            j,
        ) by {}
    }
    if same_entries(a, b) {
        assert forall|i: int, j: int| 0 <= i < 3 && 0 <= j < 3 implies b.entry(i, j) == a.entry(
            i,
            j,
        ) by {}
    }
}

/// A matrix built from three row vectors equals the matrix built from
/// the same nine scalars given in row-major reading order.
pub proof fn lemma_rows_match_scalars(
    from_rows: Matrix3D,
    from_scalars: Matrix3D,
    v0: Vector3D,
    v1: Vector3D,
    v2: Vector3D,
)
    requires
        forall|j: int| 0 <= j < 3 ==> #[trigger] from_rows.entry(0, j) == v0@[j],
        forall|j: int| 0 <= j < 3 ==> #[trigger] from_rows.entry(1, j) == v1@[j],
        forall|j: int| 0 <= j < 3 ==> #[trigger] from_rows.entry(2, j) == v2@[j],
        from_scalars.entry(0, 0) == v0.x && from_scalars.entry(0, 1) == v0.y && from_scalars.entry(
            0,
            2,
        ) == v0.z,
        from_scalars.entry(1, 0) == v1.x && from_scalars.entry(1, 1) == v1.y && from_scalars.entry(
            1,
            2,
        ) == v1.z,
        from_scalars.entry(2, 0) == v2.x && from_scalars.entry(2, 1) == v2.y && from_scalars.entry(
            2,
            2,
        ) == v2.z,
    ensures
        from_rows == from_scalars,
{
    assert forall|i: int, j: int| 0 <= i < 3 && 0 <= j < 3 implies from_rows.entry(i, j)
        == from_scalars.entry(i, j) by {
        assert(0 <= i <= 2 && 0 <= j <= 2);
    }
    lemma_entries_determine_matrix(from_rows, from_scalars);
}

} // verus!
