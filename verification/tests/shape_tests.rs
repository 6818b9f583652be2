use tensor_backend::shape::{Shape, WithShape};

#[test]
fn num_elements_is_the_product_of_the_dims() {
    assert_eq!(Shape::new([2, 3, 4]).num_elements(), 24);
    assert_eq!(Shape::new([7]).num_elements(), 7);
    assert_eq!(Shape::new([1, 1, 1, 1]).num_elements(), 1);
}

#[test]
fn num_elements_of_rank_zero_is_one() {
    let scalar: Shape<0> = Shape::new([]);
    assert_eq!(scalar.num_elements(), 1);
    assert_eq!(scalar.checked_num_elements(), Some(1));
}

#[test]
fn num_elements_with_an_empty_axis_is_zero() {
    assert_eq!(Shape::new([5, 0, 3]).num_elements(), 0);
    assert_eq!(Shape::new([0]).num_elements(), 0);
}

#[test]
fn checked_num_elements_agrees_with_num_elements() {
    assert_eq!(Shape::new([2, 3, 4]).checked_num_elements(), Some(24));
    assert_eq!(Shape::new([usize::MAX]).checked_num_elements(), Some(usize::MAX));
    assert_eq!(Shape::new([usize::MAX, 1, 1]).checked_num_elements(), Some(usize::MAX));
}

#[test]
fn checked_num_elements_reports_a_count_too_large() {
    assert_eq!(Shape::new([usize::MAX, 2]).checked_num_elements(), None);
    assert_eq!(Shape::new([1 << 20, usize::MAX / 2, 3]).checked_num_elements(), None);
}

#[test]
fn an_empty_axis_wins_over_a_count_too_large() {
    assert_eq!(Shape::new([usize::MAX, 2, 0]).checked_num_elements(), Some(0));
    assert_eq!(Shape::new([usize::MAX, 2, 0]).num_elements(), 0);
    assert_eq!(Shape::new([0, usize::MAX, usize::MAX]).checked_num_elements(), Some(0));
}

#[test]
fn a_shape_reshapes_to_itself() {
    let shape = Shape::new([2, 3, 4]);
    assert!(shape.can_reshape(&shape));
    shape.assert_reshape(shape);
    let scalar: Shape<0> = Shape::new([]);
    assert!(scalar.can_reshape(&scalar));
}

#[test]
fn equal_counts_reshape_across_ranks() {
    let cube = Shape::new([2, 3, 4]);
    assert!(cube.can_reshape(&Shape::new([6, 4])));
    assert!(cube.can_reshape(&Shape::new([24])));
    assert!(cube.can_reshape(&Shape::new([1, 2, 1, 12])));
    assert!(Shape::new([24]).can_reshape(&cube));
    cube.assert_reshape(Shape::new([4, 6]));
    let scalar: Shape<0> = Shape::new([]);
    assert!(scalar.can_reshape(&Shape::new([1, 1])));
}

#[test]
fn differing_counts_do_not_reshape() {
    let cube = Shape::new([2, 3, 4]);
    assert!(!cube.can_reshape(&Shape::new([5, 5])));
    assert!(!cube.can_reshape(&Shape::new([23])));
    assert!(!cube.can_reshape(&Shape::new([2, 3, 0])));
    assert!(!Shape::new([7]).can_reshape(&Shape::new([2, 3])));
}

#[test]
fn a_unit_axis_broadcasts() {
    let target = Shape::new([4, 5, 3]);
    assert!(target.can_broadcast(&Shape::new([4, 1, 3])));
    target.assert_broadcast(Shape::new([4, 1, 3]));
    assert!(target.can_broadcast(&Shape::new([1, 1, 1])));
    assert!(target.can_broadcast(&target));
}

#[test]
fn an_axis_neither_one_nor_equal_does_not_broadcast() {
    let target = Shape::new([4, 5, 3]);
    assert!(!target.can_broadcast(&Shape::new([4, 2, 3])));
    assert!(!target.can_broadcast(&Shape::new([4, 5, 0])));
    assert!(!target.can_broadcast(&Shape::new([3, 5, 3])));
}

#[test]
fn broadcast_is_one_way() {
    let wide = Shape::new([4, 5, 3]);
    let narrow = Shape::new([4, 1, 3]);
    assert!(wide.can_broadcast(&narrow));
    assert!(!narrow.can_broadcast(&wide));
}

#[test]
fn broadcast_at_rank_zero_is_legal() {
    let scalar: Shape<0> = Shape::new([]);
    assert!(scalar.can_broadcast(&scalar));
}

#[test]
fn index_takes_range_lengths_then_copies() {
    let shape = Shape::new([5, 6, 7]);
    assert_eq!(shape.index([1..3, 0..6]).dims, [2, 6, 7]);
    assert_eq!(shape.index([0..5, 2..4, 3..4]).dims, [5, 2, 1]);
    assert_eq!(shape.index([4..5]).dims, [1, 6, 7]);
}

#[test]
fn index_without_ranges_copies_the_shape() {
    let shape = Shape::new([5, 6, 7]);
    assert_eq!(shape.index([]).dims, [5, 6, 7]);
}

#[test]
fn index_with_an_empty_range_gives_an_empty_axis() {
    let shape = Shape::new([5, 6]);
    assert_eq!(shape.index([2..2]).dims, [0, 6]);
    let (start, end) = (3, 1);
    assert_eq!(shape.index([start..end, 0..1]).dims, [0, 1]);
}

#[test]
fn index_does_not_clamp_a_range_to_the_axis() {
    let shape = Shape::new([5, 6]);
    assert_eq!(shape.index([0..9]).dims, [9, 6]);
}

#[test]
fn remove_dim_drops_one_axis() {
    let shape = Shape::new([2, 3, 4]);
    let middle: Shape<2> = shape.remove_dim(1);
    assert_eq!(middle.dims, [2, 4]);
    let first: Shape<2> = shape.remove_dim(0);
    assert_eq!(first.dims, [3, 4]);
    let last: Shape<2> = shape.remove_dim(2);
    assert_eq!(last.dims, [2, 3]);
}

#[test]
fn remove_dim_of_rank_one_gives_rank_zero() {
    let scalar: Shape<0> = Shape::new([9]).remove_dim(0);
    assert_eq!(scalar.dims, []);
    assert_eq!(scalar.num_elements(), 1);
}

#[test]
fn remove_dim_divides_the_element_count() {
    let shape = Shape::new([2, 3, 4]);
    let reduced: Shape<2> = shape.remove_dim(1);
    assert_eq!(reduced.num_elements() * shape.dims[1], shape.num_elements());
}

#[test]
fn higher_picks_the_larger_sum() {
    let small = Shape::new([1, 2, 3]);
    let large = Shape::new([4, 1, 3]);
    assert_eq!(small.higher(&large), large);
    assert_eq!(large.higher(&small), large);
}

#[test]
fn higher_keeps_self_on_a_tie() {
    let a = Shape::new([1, 5]);
    let b = Shape::new([5, 1]);
    assert_eq!(a.higher(&b), a);
    assert_eq!(b.higher(&a), b);
}

#[test]
fn higher_goes_by_the_sum_and_not_the_product() {
    let long = Shape::new([9, 1]);
    let square = Shape::new([4, 4]);
    assert_eq!(long.higher(&square), long);
    assert_eq!(square.higher(&long), long);
}

#[test]
fn higher_takes_sums_beyond_a_machine_word() {
    let huge = Shape::new([usize::MAX, usize::MAX]);
    let big = Shape::new([usize::MAX, usize::MAX - 1]);
    assert_eq!(big.higher(&huge), huge);
    assert_eq!(huge.higher(&big), huge);
}

#[test]
fn a_shape_comes_from_its_dims() {
    let shape: Shape<3> = [2, 3, 4].into();
    assert_eq!(shape, Shape::new([2, 3, 4]));
    assert_eq!(Shape::from([8]).dims, [8]);
}

#[test]
fn with_shape_pairs_an_array_with_a_shape() {
    let data = vec![1, 2, 3, 4];
    let pair = WithShape::new(&data, Shape::new([2, 2]));
    assert_eq!(pair.array.len(), 4);
    assert_eq!(pair.shape.dims, [2, 2]);
}

#[test]
fn broadcast_mismatch_names_the_first_axis_in_the_way() {
    let target = Shape::new([4, 5, 3]);
    assert_eq!(target.broadcast_mismatch(&Shape::new([4, 1, 3])), None);
    assert_eq!(target.broadcast_mismatch(&Shape::new([4, 2, 3])), Some(1));
    assert_eq!(target.broadcast_mismatch(&Shape::new([3, 2, 7])), Some(0));
    assert_eq!(target.broadcast_mismatch(&Shape::new([4, 5, 0])), Some(2));
    assert_eq!(Shape::new([4, 1, 3]).broadcast_mismatch(&target), Some(1));
}

#[test]
fn broadcast_shape_takes_the_size_that_is_not_one() {
    let a = Shape::new([4, 1, 3]);
    let b = Shape::new([1, 5, 3]);
    assert_eq!(a.broadcast_shape(&b), Some(Shape::new([4, 5, 3])));
    assert_eq!(b.broadcast_shape(&a), Some(Shape::new([4, 5, 3])));
    assert_eq!(a.broadcast_shape(&a), Some(a));
    let both = a.broadcast_shape(&b).unwrap();
    assert!(both.can_broadcast(&a));
    assert!(both.can_broadcast(&b));
}

#[test]
fn broadcast_shape_is_the_target_of_a_legal_broadcast() {
    let target = Shape::new([4, 5, 3]);
    let source = Shape::new([4, 1, 3]);
    assert!(target.can_broadcast(&source));
    assert_eq!(target.broadcast_shape(&source), Some(target));
    assert_eq!(source.broadcast_shape(&target), Some(target));
}

#[test]
fn broadcast_shape_keeps_an_empty_axis() {
    assert_eq!(Shape::new([0, 2]).broadcast_shape(&Shape::new([1, 2])), Some(Shape::new([0, 2])));
    assert_eq!(Shape::new([1, 2]).broadcast_shape(&Shape::new([0, 1])), Some(Shape::new([0, 2])));
}

#[test]
fn broadcast_shape_refuses_sizes_that_differ() {
    assert_eq!(Shape::new([4, 2, 3]).broadcast_shape(&Shape::new([4, 5, 3])), None);
    assert_eq!(Shape::new([2]).broadcast_shape(&Shape::new([0])), None);
}

#[test]
fn shapes_are_equal_when_all_axes_agree() {
    assert!(Shape::new([2, 3]) == Shape::new([2, 3]));
    assert!(Shape::new([2, 3]) != Shape::new([3, 2]));
    assert!(Shape::new([2, 3]) != Shape::new([2, 4]));
    let scalar: Shape<0> = Shape::new([]);
    assert!(scalar == Shape::new([]));
}
