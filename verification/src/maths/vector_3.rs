//! A 3-component vector of opaque 64-bit scalar words, indexed 0, 1, 2
//! for x, y, z.

use vstd::prelude::*;

verus! {

/// A 3-component vector. Each component is an opaque 64-bit scalar word
/// (for double-precision callers: the bit pattern of an `f64`).
///
/// Logical index 0 addresses `x`, 1 addresses `y`, 2 addresses `z`.
#[derive(Clone, Copy, Debug)]
pub struct Vector3D {
    pub x: u64,
    pub y: u64,
    pub z: u64,
}

impl View for Vector3D {
    type V = Seq<u64>;

    /// The mathematical model of a vector: the sequence of its three
    /// components in logical index order.
    open spec fn view(&self) -> Seq<u64> {
        seq![self.x, self.y, self.z]
    }
}

/// The vector whose components are the three elements of `a`, in order.
pub open spec fn vector_of_array(a: [u64; 3]) -> Vector3D {
    Vector3D { x: a[0], y: a[1], z: a[2] }
}

/// Component-wise equality: every component of `a`, the z component
/// included, is compared against the corresponding component of `b`.
pub open spec fn same_components(a: Vector3D, b: Vector3D) -> bool {
    a.x == b.x && a.y == b.y && a.z == b.z
}

impl PartialEq for Vector3D {
    fn eq(&self, other: &Self) -> (r: bool) {
        self.x == other.x && self.y == other.y && self.z == other.z
    }
}

impl vstd::std_specs::cmp::PartialEqSpecImpl for Vector3D {
    open spec fn obeys_eq_spec() -> bool {
        true
    }

    open spec fn eq_spec(&self, other: &Self) -> bool {
        same_components(*self, *other)
    }
}

impl Default for Vector3D {
    /// The zero vector: every component is the zero word.
    fn default() -> (r: Self)
        ensures
            r@ == seq![0u64, 0u64, 0u64],
    {
        Self { x: 0, y: 0, z: 0 }
    }
}

impl From<[u64; 3]> for Vector3D {
    fn from(array: [u64; 3]) -> (r: Self) {
        Self { x: array[0], y: array[1], z: array[2] }
    }
}

impl vstd::std_specs::convert::FromSpecImpl<[u64; 3]> for Vector3D {
    open spec fn obeys_from_spec() -> bool {
        true
    }

    open spec fn from_spec(array: [u64; 3]) -> Self {
        vector_of_array(array)
    }
}

impl Vector3D {
    /// Creates a new `Vector3D` with the given components.
    pub fn new(x: u64, y: u64, z: u64) -> (r: Self)
        ensures
            r@ == seq![x, y, z],
    {
        Self { x, y, z }
    }

    /// Creates a new `Vector3D` from the first three elements of a slice.
    ///
    /// Callers must guarantee that the slice holds at least three
    /// elements; the checked counterpart is [`Vector3D::try_from_slice`].
    pub fn from_slice(slice: &[u64]) -> (r: Self)
        requires
            slice@.len() >= 3,
        ensures
            r == Self::spec_from_slice(slice@),
            r@ == seq![slice@[0], slice@[1], slice@[2]],
    {
        Self { x: slice[0], y: slice[1], z: slice[2] }
    }

    /// Creates a new `Vector3D` from a slice, rejecting one that holds
    /// fewer than three elements.
    pub fn try_from_slice(slice: &[u64]) -> (r: Option<Self>)
        ensures
            slice@.len() >= 3 ==> r == Some(Self::spec_from_slice(slice@)),
            slice@.len() < 3 ==> r is None,
    {
        if slice.len() >= 3 {
            Some(Self::from_slice(slice))
        } else {
            None
        }
    }

    /// The vector read from the first three elements of a sequence.
    pub open spec fn spec_from_slice(s: Seq<u64>) -> Self {
        Vector3D { x: s[0], y: s[1], z: s[2] }
    }

    /// Creates a new `Vector3D` from an array.
    pub fn from_array(array: [u64; 3]) -> (r: Self)
        ensures
            r == vector_of_array(array),
            r@ == array@,
    {
        let r = Self { x: array[0], y: array[1], z: array[2] };
        proof {
            assert(r@ =~= array@);
        }
        r
    }

    /// The components as a 3-element array, in logical index order.
    pub fn as_array(&self) -> (r: [u64; 3])
        ensures
            r@ == self@,
            vector_of_array(r) == *self,
    {
        let r = [self.x, self.y, self.z];
        proof {
            assert(r@ =~= self@);
        }
        r
    }

    /// Reads the component at logical index `index` (0 is x, 1 is y,
    /// 2 is z).
    ///
    /// Callers must guarantee that the index is in bounds; the checked
    /// counterpart is [`Vector3D::get`].
    pub fn index(&self, index: usize) -> (r: u64)
        requires
            index < 3,
        ensures
            r == self@[index as int],
    {
        if index == 0 {
            self.x
        } else if index == 1 {
            self.y
        } else {
            self.z
        }
    }

    /// Reads the component at logical index `index`, rejecting an index
    /// out of bounds.
    pub fn get(&self, index: usize) -> (r: Option<u64>)
        ensures
            index < 3 ==> r == Some(self@[index as int]),
            index >= 3 ==> r is None,
    {
        if index < 3 {
            Some(self.index(index))
        } else {
            None
        }
    }

    /// Borrows the component at logical index `index` mutably; writing
    /// through the result updates that component and no other.
    ///
    /// Callers must guarantee that the index is in bounds; the checked
    /// counterpart is [`Vector3D::try_set`].
    pub fn index_mut(&mut self, index: usize) -> (r: &mut u64)
        requires
            index < 3,
        ensures
            *r == old(self)@[index as int],
            final(self)@ =~= old(self)@.update(index as int, *final(r)),
    {
        if index == 0 {
            &mut self.x
        } else if index == 1 {
            &mut self.y
        } else {
            &mut self.z
        }
    }

    /// Writes `value` at logical index `index`, rejecting an index out
    /// of bounds; reports whether the write took place.
    pub fn try_set(&mut self, index: usize, value: u64) -> (r: bool)
        ensures
            index < 3 ==> r && final(self)@ == old(self)@.update(index as int, value),
            index >= 3 ==> !r && *final(self) == *old(self),
    {
        if index < 3 {
            let slot = self.index_mut(index);
            *slot = value;
            true
        } else {
            false
        }
    }
}

/// A vector built from components x, y, z reads back x at logical
/// index 0, y at index 1, and z at index 2.
pub proof fn lemma_new_reads_back(x: u64, y: u64, z: u64)
    ensures
        (Vector3D { x, y, z })@[0] == x,
        (Vector3D { x, y, z })@[1] == y,
        (Vector3D { x, y, z })@[2] == z,
{
}

/// Round trip: rebuilding a vector from its own array of components
/// gives back the same vector, component for component.
pub proof fn lemma_array_round_trip(v: Vector3D, a: [u64; 3])
    requires
        a@ == v@,
    ensures
        vector_of_array(a) == v,
{
    assert(a@[0] == v.x);
    assert(a@[1] == v.y);
    assert(a@[2] == v.z);
}

/// Equality of vectors is component-wise (the z component included),
/// reflexive, and symmetric.
pub proof fn lemma_eq_laws(a: Vector3D, b: Vector3D)
    ensures
        (a == b) <==> same_components(a, b),
        same_components(a, a),
        same_components(a, b) == same_components(b, a),
{
}

} // verus!
