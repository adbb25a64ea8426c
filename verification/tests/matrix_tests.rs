use matrix4::matrix::identity;
use matrix4::Matrix4;

#[test]
fn new_is_identity() {
    let m = Matrix4::<i64>::new();
    assert_eq!(
        m.to_array(),
        [[1, 0, 0, 0], [0, 1, 0, 0], [0, 0, 1, 0], [0, 0, 0, 1]]
    );
}

#[test]
fn identity_fn_matches_new() {
    assert_eq!(identity(), Matrix4::<i64>::new());
}

#[test]
fn identity_is_two_sided_mul_identity() {
    let a = Matrix4::<i64>::from([
        [3, -1, 4, 1],
        [5, 9, -2, 6],
        [-5, 3, 5, 8],
        [9, 7, 9, -3],
    ]);
    let id = Matrix4::<i64>::new();
    assert_eq!(id.mul(a).to_array(), a.to_array());
    assert_eq!(a.mul(id).to_array(), a.to_array());
}

#[test]
fn add_is_commutative_and_associative() {
    let a = Matrix4::<i64>::from([
        [1, 2, 3, 4],
        [5, 6, 7, 8],
        [9, 10, 11, 12],
        [13, 14, 15, 16],
    ]);
    let b = Matrix4::<i64>::scale(2, 3, 1);
    let c = Matrix4::<i64>::translation(-7, 11, 42);
    assert_eq!(a.add(b), b.add(a));
    assert_eq!(a.add(b).add(c), a.add(b.add(c)));
}

#[test]
fn add_zero_is_identity() {
    let a = Matrix4::<i64>::from([
        [1, -2, 3, -4],
        [5, -6, 7, -8],
        [9, -10, 11, -12],
        [13, -14, 15, -16],
    ]);
    let zero = Matrix4::<i64>::default();
    assert_eq!(a.add(zero), a);
    assert_eq!(zero.add(a), a);
}

#[test]
fn mul_is_associative() {
    let a = Matrix4::<i64>::from([
        [2, 0, -1, 3],
        [1, 4, 0, -2],
        [0, 5, 2, 1],
        [-3, 1, 1, 0],
    ]);
    let b = Matrix4::<i64>::translation(5, 7, 0);
    let c = Matrix4::<i64>::scale(2, 3, 1);
    assert_eq!(a.mul(b).mul(c), a.mul(b.mul(c)));
}

#[test]
fn mul_concrete_product() {
    // translation then scale: the offsets are scaled along with the axes
    let t = Matrix4::<i64>::translation(5, 7, 0);
    let s = Matrix4::<i64>::scale(2, 3, 1);
    assert_eq!(
        t.mul(s).to_array(),
        [[2, 0, 0, 0], [0, 3, 0, 0], [0, 0, 1, 0], [10, 21, 0, 1]]
    );
}

#[test]
fn mul_assign_matches_mul() {
    let a = Matrix4::<i64>::from([
        [2, 0, -1, 3],
        [1, 4, 0, -2],
        [0, 5, 2, 1],
        [-3, 1, 1, 0],
    ]);
    let b = Matrix4::<i64>::translation(5, 7, 9);
    let mut assigned = a;
    assigned.mul_assign(b);
    assert_eq!(assigned.to_array(), a.mul(b).to_array());
}

#[test]
fn to_array_from_round_trips() {
    let m = Matrix4::<i64>::from([
        [3, -1, 4, 1],
        [5, 9, -2, 6],
        [-5, 3, 5, 8],
        [9, 7, 9, -3],
    ]);
    assert_eq!(Matrix4::from(m.to_array()), m);
}

#[test]
fn from_to_array_round_trips() {
    let rows: [[i64; 4]; 4] = [
        [0, 1, 2, 3],
        [10, 11, 12, 13],
        [20, 21, 22, 23],
        [30, 31, 32, 33],
    ];
    assert_eq!(Matrix4::from(rows).to_array(), rows);
}

#[test]
fn switched_is_transpose_of_to_array() {
    let m = Matrix4::<i64>::from([
        [0, 1, 2, 3],
        [10, 11, 12, 13],
        [20, 21, 22, 23],
        [30, 31, 32, 33],
    ]);
    let plain = m.to_array();
    let switched = m.to_array_switched();
    for r in 0..4 {
        for c in 0..4 {
            assert_eq!(switched[c][r], plain[r][c]);
        }
    }
}

#[test]
fn translation_concrete_case() {
    let t = Matrix4::<i64>::translation(5, 7, 0);
    assert_eq!(
        t.to_array(),
        [[1, 0, 0, 0], [0, 1, 0, 0], [0, 0, 1, 0], [5, 7, 0, 1]]
    );
}

#[test]
fn scale_concrete_case() {
    let s = Matrix4::<i64>::scale(2, 3, 1);
    assert_eq!(
        s.to_array(),
        [[2, 0, 0, 0], [0, 3, 0, 0], [0, 0, 1, 0], [0, 0, 0, 1]]
    );
}

#[test]
fn default_is_all_zero() {
    let z = Matrix4::<i64>::default();
    assert_eq!(z.to_array(), [[0i64; 4]; 4]);
}

#[test]
fn conversions_serve_float_elements() {
    // the array conversions are generic in the element type, so they carry
    // floating-point matrices for the rendering layer as well
    let rows: [[f32; 4]; 4] = [
        [0.5, 0.0, 0.0, 0.0],
        [0.0, 2.0, 0.0, 0.0],
        [0.0, 0.0, 1.0, 0.0],
        [-1.0, 1.0, 0.25, 1.0],
    ];
    let m = Matrix4::from(rows);
    assert_eq!(m.to_array(), rows);
    assert_eq!(m.to_array_switched()[0][3], -1.0);
    assert_eq!(m.to_array_switched()[2][3], 0.25);
}
