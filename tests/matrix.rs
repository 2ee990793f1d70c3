use linmath::{Mat2, Mat3, Mat4, Vec2, Vec3, Vec4};

#[test]
fn testSwap() {
    let mut m = Mat2::new(1.0, 2.0, 3.0, 4.0);
    m.swapRows(0, 1);
    assert_eq!(m, Mat2::new(3.0, 4.0, 1.0, 2.0));
}

#[test]
fn testTranspose() {
    let matrix2 = Mat2::new(1.0, 2.0, 3.0, 4.0);

    assert_eq!(matrix2.transpose(), Mat2::new(1.0, 3.0, 2.0, 4.0));
}

#[test]
fn mat2_get_in_and_out_of_range() {
    let m = Mat2::new(1.0f32, 2.0, 3.0, 4.0);
    assert_eq!(m.get(0, 0), Some(1.0));
    assert_eq!(m.get(0, 1), Some(2.0));
    assert_eq!(m.get(1, 0), Some(3.0));
    assert_eq!(m.get(1, 1), Some(4.0));
    assert_eq!(m.get(2, 0), None);
    assert_eq!(m.get(0, 2), None);
    assert_eq!(m.get(usize::MAX, usize::MAX), None);
}

#[test]
fn mat2_set_and_out_of_range_set() {
    let mut m = Mat2::new(1.0f32, 2.0, 3.0, 4.0);
    m.set(1, 0, 7.5);
    assert_eq!(m, Mat2::new(1.0, 2.0, 7.5, 4.0));
    m.set(2, 1, 9.0);
    m.set(0, 5, 9.0);
    assert_eq!(m, Mat2::new(1.0, 2.0, 7.5, 4.0));
}

#[test]
fn mat2_rows() {
    let mut m = Mat2::new(1, 2, 3, 4);
    assert_eq!(m.getRow(1), Some(Vec2::new(3, 4)));
    assert_eq!(m.getRow(2), None);
    m.setRow(0, Vec2::new(8, 9));
    assert_eq!(m, Mat2::new(8, 9, 3, 4));
    m.setRow(3, Vec2::new(0, 0));
    assert_eq!(m, Mat2::new(8, 9, 3, 4));
}

#[test]
fn mat2_swap_same_row_is_identity() {
    let mut m = Mat2::new(1, 2, 3, 4);
    m.swapRows(1, 1);
    assert_eq!(m, Mat2::new(1, 2, 3, 4));
}

#[test]
fn mat3_transpose_and_swap() {
    let m = Mat3::new(1, 2, 3, 4, 5, 6, 7, 8, 9);
    assert_eq!(m.transpose(), Mat3::new(1, 4, 7, 2, 5, 8, 3, 6, 9));
    let mut s = m;
    s.swapRows(0, 2);
    assert_eq!(s, Mat3::new(7, 8, 9, 4, 5, 6, 1, 2, 3));
}

#[test]
fn mat3_access() {
    let mut m = Mat3::new(1, 2, 3, 4, 5, 6, 7, 8, 9);
    assert_eq!(m.get(1, 2), Some(6));
    assert_eq!(m.get(3, 0), None);
    assert_eq!(m.getRow(2), Some(Vec3::new(7, 8, 9)));
    assert_eq!(m.getRow(3), None);
    m.set(2, 2, 0);
    m.set(3, 3, 100);
    m.setRow(0, Vec3::new(-1, -2, -3));
    m.setRow(7, Vec3::new(5, 5, 5));
    assert_eq!(m, Mat3::new(-1, -2, -3, 4, 5, 6, 7, 8, 0));
}

#[test]
fn mat4_transpose_swap_and_access() {
    let m = Mat4::new(16, 12, 5, 2, 5, 26, 7, 8, 9, 114, 11, 12, 13, 14, 15, 16);
    assert_eq!(
        m.transpose(),
        Mat4::new(16, 5, 9, 13, 12, 26, 114, 14, 5, 7, 11, 15, 2, 8, 12, 16)
    );
    assert_eq!(m.x21, 114);
    assert_eq!(m.get(2, 1), Some(114));
    assert_eq!(m.get(4, 1), None);
    assert_eq!(m.getRow(3), Some(Vec4::new(13, 14, 15, 16)));
    assert_eq!(m.getRow(4), None);
    let mut s = m;
    s.swapRows(1, 3);
    assert_eq!(s.getRow(1), Some(Vec4::new(13, 14, 15, 16)));
    assert_eq!(s.getRow(3), Some(Vec4::new(5, 26, 7, 8)));
    s.set(0, 3, -2);
    s.setRow(2, Vec4::new(0, 0, 0, 1));
    assert_eq!(s, Mat4::new(16, 12, 5, -2, 13, 14, 15, 16, 0, 0, 0, 1, 5, 26, 7, 8));
}

#[test]
fn transpose_twice_gives_back_the_matrix() {
    let m = Mat3::new(1.5f32, -2.0, 3.25, 4.0, 5.0, 6.0, 7.0, 8.0, 9.0);
    assert_eq!(m.transpose().transpose(), m);
}
