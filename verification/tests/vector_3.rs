// Components are opaque 64-bit scalar words; a double-precision caller
// passes `f64::to_bits` of each component and reads it back with
// `f64::from_bits`. The tests below exercise the library through that
// encoding.

use game_maths::maths::Vector3D;

#[test]
fn test_vector_3d() {
    let vector_3d = Vector3D::new(1.0f64.to_bits(), 2.0f64.to_bits(), 3.0f64.to_bits());
    assert_eq!(
        vector_3d,
        [1.0f64.to_bits(), 2.0f64.to_bits(), 3.0f64.to_bits()].into()
    );

    let vector_3d = Vector3D::default();
    assert_eq!(
        vector_3d,
        [0.0f64.to_bits(), 0.0f64.to_bits(), 0.0f64.to_bits()].into()
    );

    println!("Game Maths: {:?}", vector_3d);
}

#[test]
fn test_vector_3d_from_slice() {
    let vector_3d = Vector3D::from_slice(&[1.0f64.to_bits(), 2.0f64.to_bits(), 3.0f64.to_bits()]);
    assert_eq!(vector_3d.x, 1.0f64.to_bits());
    assert_eq!(vector_3d.y, 2.0f64.to_bits());
    assert_eq!(vector_3d.z, 3.0f64.to_bits());
}

#[test]
fn test_vector_3d_from_array() {
    let vector_3d = Vector3D::from_array([1.0f64.to_bits(), 2.0f64.to_bits(), 3.0f64.to_bits()]);
    assert_eq!(vector_3d.x, 1.0f64.to_bits());
    assert_eq!(vector_3d.y, 2.0f64.to_bits());
    assert_eq!(vector_3d.z, 3.0f64.to_bits());
}

#[test]
fn test_vector_3d_index() {
    let vector_3d = Vector3D::new(1.0f64.to_bits(), 2.0f64.to_bits(), 3.0f64.to_bits());
    assert_eq!(vector_3d.index(0), 1.0f64.to_bits());
    assert_eq!(vector_3d.index(1), 2.0f64.to_bits());
    assert_eq!(vector_3d.index(2), 3.0f64.to_bits());
}

#[test]
fn test_vector_3d_index_mut() {
    let mut vector_3d = Vector3D::new(1.0f64.to_bits(), 2.0f64.to_bits(), 3.0f64.to_bits());
    *vector_3d.index_mut(0) = 4.0f64.to_bits();
    *vector_3d.index_mut(1) = 5.0f64.to_bits();
    *vector_3d.index_mut(2) = 6.0f64.to_bits();
    assert_eq!(vector_3d.index(0), 4.0f64.to_bits());
    assert_eq!(vector_3d.index(1), 5.0f64.to_bits());
    assert_eq!(vector_3d.index(2), 6.0f64.to_bits());
}

#[test]
fn test_vector_3d_into() {
    let vector_3d = Vector3D::new(1.0f64.to_bits(), 2.0f64.to_bits(), 3.0f64.to_bits());
    let array: [u64; 3] = vector_3d.as_array();
    assert_eq!(
        array,
        [1.0f64.to_bits(), 2.0f64.to_bits(), 3.0f64.to_bits()]
    );
}

#[test]
fn test_vector_3d_from() {
    let vector_3d = Vector3D::from([1.0f64.to_bits(), 2.0f64.to_bits(), 3.0f64.to_bits()]);
    assert_eq!(
        vector_3d,
        [1.0f64.to_bits(), 2.0f64.to_bits(), 3.0f64.to_bits()].into()
    );
}

#[test]
fn test_vector_3d_new_reads_back() {
    // A freshly built vector reads back its components at indices 0, 1, 2,
    // here through the checked accessor as well as the fast one.
    let v = Vector3D::new(1.5f64.to_bits(), (-2.5f64).to_bits(), 0.25f64.to_bits());
    assert_eq!(v.get(0), Some(1.5f64.to_bits()));
    assert_eq!(v.get(1), Some((-2.5f64).to_bits()));
    assert_eq!(v.get(2), Some(0.25f64.to_bits()));
}

#[test]
fn test_vector_3d_array_round_trip() {
    // Rebuilding a vector from its own component array gives the vector
    // back exactly, even for words such as a NaN bit pattern that a
    // floating-point round trip would not compare equal.
    let v = Vector3D::new(f64::NAN.to_bits(), (-0.0f64).to_bits(), 3.125f64.to_bits());
    let round = Vector3D::from_array(v.as_array());
    assert_eq!(round, v);
    assert_eq!(round.x, f64::NAN.to_bits());
}

#[test]
fn test_vector_3d_get_out_of_range() {
    let v = Vector3D::new(1, 2, 3);
    assert_eq!(v.get(3), None);
    assert_eq!(v.get(usize::MAX), None);
}

#[test]
fn test_vector_3d_try_set() {
    let mut v = Vector3D::new(1, 2, 3);
    assert!(v.try_set(1, 9));
    assert_eq!(v.as_array(), [1, 9, 3]);
    // An out-of-range write is rejected and changes nothing.
    assert!(!v.try_set(3, 7));
    assert_eq!(v.as_array(), [1, 9, 3]);
}

#[test]
fn test_vector_3d_try_from_slice() {
    assert_eq!(Vector3D::try_from_slice(&[]), None);
    assert_eq!(Vector3D::try_from_slice(&[1, 2]), None);
    assert_eq!(Vector3D::try_from_slice(&[1, 2, 3]), Some(Vector3D::new(1, 2, 3)));
    // Only the first three elements are read.
    assert_eq!(
        Vector3D::try_from_slice(&[1, 2, 3, 4]),
        Some(Vector3D::new(1, 2, 3))
    );
}

#[test]
fn test_vector_3d_eq_z_component() {
    // Equality compares the z component against the other operand's z
    // component: two vectors that agree on x and y but not on z are
    // unequal, both ways around.
    let a = Vector3D::new(1.0f64.to_bits(), 2.0f64.to_bits(), 3.0f64.to_bits());
    let b = Vector3D::new(1.0f64.to_bits(), 2.0f64.to_bits(), 4.0f64.to_bits());
    assert_ne!(a, b);
    assert_ne!(b, a);
    assert_eq!(a, a);
    assert_eq!(b, b);
}

#[test]
fn test_vector_3d_eq_is_word_exact() {
    // Word equality is exact representational equality: the words for
    // 0.0 and -0.0 differ, so the vectors differ.
    let pos = Vector3D::new(0.0f64.to_bits(), 0, 0);
    let neg = Vector3D::new((-0.0f64).to_bits(), 0, 0);
    assert_ne!(pos, neg);
}
