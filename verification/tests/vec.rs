use meth::vec::ops::{chunked_apply, scalar_apply, Operation};
use meth::vec::reduce::{chunked_reduce, scalar_reduce, Reduction};
use meth::Vec;

#[test]
fn add_eighteen_elements() {
    let vec = Vec::from_array([
        1_u32, 2, 3, 4, 5, 6, 7, 8, 9, 10, 11, 12, 13, 14, 15, 16, 17, 18,
    ]);
    let expected = [
        2_u32, 4, 6, 8, 10, 12, 14, 16, 18, 20, 22, 24, 26, 28, 30, 32, 34, 36,
    ];
    assert_eq!(vec.add(vec).to_array(), expected);
}

#[test]
fn divide_by_itself_is_all_ones() {
    let vec = Vec::from_array([
        1_u32, 2, 3, 4, 5, 6, 7, 8, 9, 10, 11, 12, 13, 14, 15, 16, 17, 18,
    ]);
    assert_eq!(vec.div(vec).to_array(), [1_u32; 18]);
}

#[test]
fn add_three_elements_exercises_the_remainder() {
    // For a length of three, two lanes form one chunk and one element is
    // left over for the scalar remainder.
    let vec = Vec::from_array([1_u32, 2, 3]);
    assert_eq!(vec.add(vec).to_array(), [2_u32, 4, 6]);
}

#[test]
fn both_strategies_agree_on_every_operation() {
    let a = [
        91_u32, 2, 73, 4, 85, 6, 7, 48, 9, 10, 311, 12, 13, 14, 15, 16, 17, 218,
    ];
    let b = [
        1_u32, 12, 3, 24, 5, 16, 7, 8, 19, 20, 1, 2, 3, 7, 5, 6, 7, 8,
    ];
    let va = Vec::from_array(a);
    let vb = Vec::from_array(b);
    for op in [
        Operation::Add,
        Operation::Sub,
        Operation::Mul,
        Operation::Div,
        Operation::Rem,
    ] {
        let scalar = scalar_apply(op, va, vb);
        let chunked = chunked_apply(op, va, vb);
        assert_eq!(scalar.to_array(), chunked.to_array());
    }
}

#[test]
fn both_strategies_agree_on_signed_elements() {
    let a = [-91_i8, 2, -73, 4, 85, -6, 7, 48, 9, -10];
    let b = [1_i8, -12, 3, 24, -5, 16, -7, 8, 19, -20];
    let va = Vec::from_array(a);
    let vb = Vec::from_array(b);
    for op in [
        Operation::Add,
        Operation::Sub,
        Operation::Div,
        Operation::Rem,
    ] {
        let scalar = scalar_apply(op, va, vb);
        let chunked = chunked_apply(op, va, vb);
        assert_eq!(scalar.to_array(), chunked.to_array());
    }
}

#[test]
fn division_truncates_toward_zero() {
    let a = Vec::from_array([-7_i8, 7, -7, 7]);
    let b = Vec::from_array([2_i8, 2, -2, -2]);
    assert_eq!(a.div(b).to_array(), [-3_i8, 3, 3, -3]);
    assert_eq!(a.rem(b).to_array(), [-1_i8, 1, -1, 1]);
}

#[test]
fn adding_zero_returns_the_operand() {
    let vec = Vec::from_array([5_u32, 6, 7, 8, 9]);
    assert_eq!(vec.add(Vec::zero()).to_array(), vec.to_array());
    let signed = Vec::from_array([-5_i16, 6, -7]);
    assert_eq!(signed.add(Vec::zero()).to_array(), signed.to_array());
}

#[test]
fn multiplying_by_one_returns_the_operand() {
    let vec = Vec::from_array([5_u32, 6, 7, 8, 9]);
    assert_eq!(vec.mul(Vec::one()).to_array(), vec.to_array());
    let signed = Vec::from_array([-5_i16, 6, -7]);
    assert_eq!(signed.mul(Vec::one()).to_array(), signed.to_array());
}

#[test]
fn sum_of_one_through_eighteen() {
    let vec = Vec::from_array([
        1_u32, 2, 3, 4, 5, 6, 7, 8, 9, 10, 11, 12, 13, 14, 15, 16, 17, 18,
    ]);
    assert_eq!(vec.sum(), 171);
}

#[test]
fn product_of_one_through_four() {
    let vec = Vec::from_array([1_u32, 2, 3, 4]);
    assert_eq!(vec.product(), 24);
}

#[test]
fn sum_and_product_of_the_empty_vector_are_the_identities() {
    let vec = Vec::<u32, 0>::from_array([]);
    assert_eq!(vec.sum(), 0);
    assert_eq!(vec.product(), 1);
    assert!(vec.is_empty());
    assert_eq!(vec.len(), 0);
    assert_eq!(vec.add(vec).to_array(), []);
}

#[test]
fn dot_product_matches_by_hand() {
    let a = Vec::from_array([1_u32, 2, 3]);
    let b = Vec::from_array([4_u32, 5, 6]);
    assert_eq!(a.dot(b), 32);
}

#[test]
fn dot_with_itself_equals_magnitude_squared() {
    let a = Vec::from_array([3_u32, 4, 12, 5, 6]);
    assert_eq!(a.dot(a), a.magnitude_squared());
    assert_eq!(a.magnitude_squared(), 9 + 16 + 144 + 25 + 36);
}

#[test]
fn distance_squared_of_difference() {
    let a = Vec::from_array([5_i32, 9, 12]);
    let b = Vec::from_array([1_i32, 6, 12]);
    assert_eq!(a.distance_squared(b), 25);
}

#[test]
fn array_round_trip_returns_the_vector() {
    let vec = Vec::from_array([9_u32, 8, 7]);
    assert_eq!(Vec::from_array(vec.to_array()).to_array(), vec.to_array());
}

#[test]
fn from_slice_copies_the_first_elements() {
    let source = [1_u32, 2, 3, 4, 5];
    let vec: Vec<u32, 3> = Vec::from_slice(&source);
    assert_eq!(vec.to_array(), [1, 2, 3]);
    let whole: Vec<u32, 5> = Vec::from_slice(&source);
    assert_eq!(whole.to_array(), source);
}

#[test]
fn splat_zero_one_fill_every_element() {
    assert_eq!(Vec::<u32, 4>::splat(7).to_array(), [7; 4]);
    assert_eq!(Vec::<i8, 3>::zero().to_array(), [0; 3]);
    assert_eq!(Vec::<i8, 3>::one().to_array(), [1; 3]);
}

#[test]
fn accessors_read_and_write_elements() {
    let mut vec = Vec::from_array([1_u32, 2, 3]);
    assert_eq!(vec.index(0), 1);
    assert_eq!(vec.get(2), Some(&3));
    assert_eq!(vec.get(3), None);
    vec.set(1, 9);
    assert_eq!(vec.to_array(), [1, 9, 3]);
    assert_eq!(vec.get_mut(3), None);
    if let Some(x) = vec.get_mut(0) {
        *x = 4;
    }
    assert_eq!(vec.to_array(), [4, 9, 3]);
}

#[test]
fn assign_operations_update_in_place() {
    let mut vec = Vec::from_array([1_u32, 2, 3]);
    vec.add_assign(Vec::splat(10));
    assert_eq!(vec.to_array(), [11, 12, 13]);
    vec.sub_assign(Vec::splat(1));
    assert_eq!(vec.to_array(), [10, 11, 12]);
    vec.mul_assign(Vec::splat(2));
    assert_eq!(vec.to_array(), [20, 22, 24]);
    vec.div_assign(Vec::splat(3));
    assert_eq!(vec.to_array(), [6, 7, 8]);
    vec.rem_assign(Vec::splat(4));
    assert_eq!(vec.to_array(), [2, 3, 0]);
}

#[test]
fn free_functions_match_the_methods() {
    let a = Vec::from_array([1_u32, 2, 3, 4, 5]);
    let b = Vec::from_array([5_u32, 4, 3, 2, 1]);
    assert_eq!(meth::vec::add::add(a, b).to_array(), [6, 6, 6, 6, 6]);
    assert_eq!(meth::vec::rem::rem(a, b).to_array(), [1, 2, 0, 0, 0]);
    assert_eq!(meth::vec::sum::sum(a), 15);
    assert_eq!(meth::vec::product::product(a), 120);
}

#[test]
fn both_reduction_strategies_agree() {
    let vec = Vec::from_array([
        3_u32, 1, 4, 1, 5, 9, 2, 6, 5, 3, 5, 8, 9, 7, 9, 3, 2, 4,
    ]);
    assert_eq!(
        scalar_reduce(Reduction::Sum, vec),
        chunked_reduce(Reduction::Sum, vec)
    );
    let small = Vec::from_array([2_u32, 3, 1, 1, 2, 1, 1, 2, 1, 3]);
    assert_eq!(
        scalar_reduce(Reduction::Product, small),
        chunked_reduce(Reduction::Product, small)
    );
    assert_eq!(scalar_reduce(Reduction::Product, small), 72);
}

#[test]
fn one_byte_elements_use_the_widest_chunks() {
    assert_eq!(meth::vec::lanes::nearest_lane(1, 40), 32);
    let mut a = [0_u8; 40];
    let mut i = 0u8;
    while (i as usize) < 40 {
        a[i as usize] = i;
        i += 1;
    }
    let vec = Vec::from_array(a);
    let doubled = vec.add(vec);
    let mut expected = [0_u8; 40];
    let mut j = 0u8;
    while (j as usize) < 40 {
        expected[j as usize] = 2 * j;
        j += 1;
    }
    assert_eq!(doubled.to_array(), expected);
}
