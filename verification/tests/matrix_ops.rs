use matrix::matrix::MatrixBuilder;
use matrix::Matrix;

#[test]
fn from_infers_shape() {
    let m: Matrix<i8> = Matrix::from(vec![vec![1, 2, 3], vec![4, 5, 6]]);
    assert_eq!(m.rows, 2);
    assert_eq!(m.cols, 3);
    assert_eq!(m.values, vec![vec![1, 2, 3], vec![4, 5, 6]]);
}

#[test]
fn from_empty_is_zero_by_zero() {
    let m: Matrix<i8> = Matrix::from(Vec::new());
    assert_eq!(m.rows, 0);
    assert_eq!(m.cols, 0);
    assert!(m.values.is_empty());
}

#[test]
fn alloca_fills_with_zero() {
    let m: Matrix<i8> = Matrix::alloca(2, 3);
    assert_eq!(m.rows, 2);
    assert_eq!(m.cols, 3);
    assert_eq!(m.values, vec![vec![0, 0, 0], vec![0, 0, 0]]);
}

#[test]
fn alloca_is_additive_identity() {
    let z: Matrix<i8> = Matrix::alloca(2, 2);
    let m: Matrix<i8> = Matrix::from(vec![vec![1, -2], vec![3, -4]]);
    let s = z.add(m);
    assert_eq!(s.values, vec![vec![1, -2], vec![3, -4]]);
}

#[test]
fn transpose_swaps_shape_and_cells() {
    let m: Matrix<i8> = Matrix::from(vec![vec![1, 2, 3], vec![4, 5, 6]]);
    let t = m.T();
    assert_eq!(t.rows, 3);
    assert_eq!(t.cols, 2);
    assert_eq!(t.values, vec![vec![1, 4], vec![2, 5], vec![3, 6]]);
}

#[test]
fn transpose_twice_is_identity() {
    let original = vec![vec![1i8, 2, 3], vec![4, 5, 6]];
    let m = Matrix::from(original.clone());
    let back = m.T().T();
    assert_eq!(back.rows, 2);
    assert_eq!(back.cols, 3);
    assert_eq!(back.values, original);
}

#[test]
fn mapped_applies_everywhere() {
    let m: Matrix<i8> = Matrix::from(vec![vec![1, 2], vec![3, 4]]);
    let doubled = m.mapped(&|x: i8| x * 2);
    assert_eq!(doubled.rows, 2);
    assert_eq!(doubled.cols, 2);
    assert_eq!(doubled.values, vec![vec![2, 4], vec![6, 8]]);
}

#[test]
fn add_is_elementwise() {
    let a: Matrix<i8> = Matrix::from(vec![vec![1, 2], vec![3, 4]]);
    let b: Matrix<i8> = Matrix::from(vec![vec![10, 20], vec![30, 40]]);
    let s = a.add(b);
    assert_eq!(s.values, vec![vec![11, 22], vec![33, 44]]);
}

#[test]
fn add_scalar_is_uniform() {
    let m: Matrix<i8> = Matrix::from(vec![vec![1, 2], vec![3, 4]]);
    let s = m.add_scalar(5);
    assert_eq!(s.values, vec![vec![6, 7], vec![8, 9]]);
}

#[test]
fn add_assign_scalar_mutates_in_place() {
    let mut m: Matrix<i8> = Matrix::from(vec![vec![1, 2], vec![3, 4]]);
    m.add_assign_scalar(-1);
    assert_eq!(m.rows, 2);
    assert_eq!(m.cols, 2);
    assert_eq!(m.values, vec![vec![0, 1], vec![2, 3]]);
}

#[test]
fn mul_computes_dot_products() {
    let a: Matrix<i8> = Matrix::from(vec![vec![1, 2], vec![3, 4]]);
    let b: Matrix<i8> = Matrix::from(vec![vec![5, 6], vec![7, 8]]);
    let p = a.mul(b);
    assert_eq!(p.values, vec![vec![19, 22], vec![43, 50]]);
}

#[test]
fn mul_result_has_rows_by_cols_shape() {
    let a: Matrix<i8> = Matrix::from(vec![vec![1, 2, 3]]);
    let b: Matrix<i8> = Matrix::from(vec![vec![1, 1], vec![1, 1], vec![1, 1]]);
    let p = a.mul(b);
    assert_eq!(p.rows, 1);
    assert_eq!(p.cols, 2);
    assert_eq!(p.values, vec![vec![6, 6]]);
}

#[test]
fn mul_is_associative_on_conformant_shapes() {
    let a: Matrix<i8> = Matrix::from(vec![vec![1, 2], vec![3, 4], vec![5, 6]]);
    let b: Matrix<i8> = Matrix::from(vec![vec![7, 8, 9], vec![10, 11, 12]]);
    let c: Matrix<i8> = Matrix::from(vec![vec![2], vec![3], vec![4]]);
    let a2: Matrix<i8> = Matrix::from(vec![vec![1, 2], vec![3, 4], vec![5, 6]]);
    let b2: Matrix<i8> = Matrix::from(vec![vec![7, 8, 9], vec![10, 11, 12]]);
    let c2: Matrix<i8> = Matrix::from(vec![vec![2], vec![3], vec![4]]);
    let left = a.mul(b).mul(c);
    let right = a2.mul(b2.mul(c2));
    assert_eq!(left.rows, right.rows);
    assert_eq!(left.cols, right.cols);
    assert_eq!(left.values, right.values);
}

#[test]
fn mul_wraps_like_the_element_type() {
    let a: Matrix<i8> = Matrix::from(vec![vec![100]]);
    let b: Matrix<i8> = Matrix::from(vec![vec![2]]);
    let p = a.mul(b);
    assert_eq!(p.values, vec![vec![100i8.wrapping_mul(2)]]);
    assert_eq!(p.values, vec![vec![-56]]);
}

#[test]
fn add_scalar_wraps_like_the_element_type() {
    let m: Matrix<i8> = Matrix::from(vec![vec![120]]);
    let s = m.add_scalar(100);
    assert_eq!(s.values, vec![vec![120i8.wrapping_add(100)]]);
    assert_eq!(s.values, vec![vec![-36]]);
}

#[test]
fn checked_mul_rejects_nonconformant_shapes() {
    let a: Matrix<i8> = Matrix::from(vec![vec![1, 2, 3]]);
    let b: Matrix<i8> = Matrix::from(vec![vec![1, 2], vec![3, 4]]);
    assert!(a.checked_mul(b).is_none());
}

#[test]
fn checked_mul_accepts_conformant_shapes() {
    let a: Matrix<i8> = Matrix::from(vec![vec![1, 2]]);
    let b: Matrix<i8> = Matrix::from(vec![vec![3], vec![4]]);
    let p = a.checked_mul(b).unwrap();
    assert_eq!(p.values, vec![vec![11]]);
}

#[test]
fn checked_add_rejects_mismatched_shapes() {
    let a: Matrix<i8> = Matrix::from(vec![vec![1], vec![2]]);
    let b: Matrix<i8> = Matrix::from(vec![vec![1, 2]]);
    assert!(a.checked_add(b).is_none());
}

#[test]
fn row_vector_plus_transposed_column_is_a_mismatch() {
    // A 1x4 row of fours, transposed into a 4x1 column, cannot be added
    // to a 1x4 row of tens: the row counts differ, and the guarded
    // addition reports the mismatch instead of reshaping.
    let column = Matrix::from(vec![vec![4i8, 4, 4, 4]]).T();
    assert_eq!(column.rows, 4);
    assert_eq!(column.cols, 1);
    let row: Matrix<i8> = Matrix::from(vec![vec![10, 10, 10, 10]]);
    assert!(column.checked_add(row).is_none());
}

#[test]
fn demo_pipeline_spells_out_feedback() {
    // A 4x4 matrix of twos, built by mapping +2 over a zero matrix.
    let twos: Matrix<i8> = Matrix::alloca(4, 4).mapped(&|x: i8| x + 2);
    assert_eq!(twos.values, vec![vec![2i8; 4]; 4]);
    // A column of fours transposed to a row, plus a row of tens, gives
    // fourteens; times the constant-two matrix every cell is
    // 14 * 2 * 4 = 112; minus ten, 102.
    let column = Matrix::from(vec![vec![4i8], vec![4], vec![4], vec![4]]);
    let row_of_tens: Matrix<i8> = Matrix::from(vec![vec![10, 10, 10, 10]]);
    let mut combined = column.T().add(row_of_tens).mul(twos);
    combined.add_assign_scalar(-10);
    assert_eq!(combined.rows, 1);
    assert_eq!(combined.cols, 4);
    assert_eq!(combined.values, vec![vec![102, 102, 102, 102]]);
    let rendered: String = combined.values[0].iter().map(|&x| x as u8 as char).collect();
    assert_eq!(rendered, "ffff");
}

#[test]
fn builder_matches_the_constructor() {
    let built: Matrix<i8> = MatrixBuilder::new().row(vec![1, 2]).row(vec![3, 4]).build();
    let direct: Matrix<i8> = Matrix::from(vec![vec![1, 2], vec![3, 4]]);
    assert_eq!(built, direct);
}

#[test]
fn transpose_of_empty_is_empty() {
    let m: Matrix<i8> = Matrix::from(Vec::new());
    let t = m.T();
    assert_eq!(t.rows, 0);
    assert_eq!(t.cols, 0);
    assert!(t.values.is_empty());
}

#[test]
fn mul_with_empty_inner_dimension_is_all_zeros() {
    let a: Matrix<i8> = Matrix::alloca(2, 0);
    let b: Matrix<i8> = Matrix::alloca(0, 3);
    let p = a.mul(b);
    assert_eq!(p.rows, 2);
    assert_eq!(p.cols, 3);
    assert_eq!(p.values, vec![vec![0, 0, 0], vec![0, 0, 0]]);
}

#[test]
fn wide_integer_matrices_multiply_exactly() {
    let a: Matrix<i64> = Matrix::from(vec![vec![1_000_000, 2_000_000]]);
    let b: Matrix<i64> = Matrix::from(vec![vec![3_000_000], vec![4_000_000]]);
    let p = a.mul(b);
    assert_eq!(p.values, vec![vec![11_000_000_000_000]]);
}

#[test]
fn ragged_input_keeps_first_row_width() {
    let m: Matrix<i8> = Matrix::from(vec![vec![1, 2, 3], vec![4]]);
    assert_eq!(m.rows, 2);
    assert_eq!(m.cols, 3);
}
