//! Fixed-rank shapes: element counts, reshape and broadcast legality,
//! slicing and axis removal.

use std::ops::Range;
use vstd::prelude::*;

verus! {

/// The product of all sizes in `dims`; the empty product is 1.
pub open spec fn product(dims: Seq<usize>) -> nat
    decreases dims.len(),
{
    if dims.len() == 0 {
        1
    } else {
        product(dims.drop_last()) * (dims.last() as nat)
    }
}

/// The sum of all sizes in `dims`.
pub open spec fn dim_sum(dims: Seq<usize>) -> nat
    decreases dims.len(),
{
    if dims.len() == 0 {
        0
    } else {
        dim_sum(dims.drop_last()) + (dims.last() as nat)
    }
}

/// The number of indices a half-open range selects; a range whose end is not
/// past its start selects none.
pub open spec fn range_len(range: Range<usize>) -> usize {
    if range.start < range.end {
        (range.end - range.start) as usize
    } else {
        0
    }
}

/// Whether two sizes of one axis can be combined: they are equal, or one of
/// them is 1.
pub open spec fn sizes_combine(a: usize, b: usize) -> bool {
    a == b || a == 1 || b == 1
}

/// What two sizes of one axis combine to: the one that is not 1, where there
/// is one.
pub open spec fn combined_size(a: usize, b: usize) -> usize {
    if a == 1 {
        b
    } else {
        a
    }
}

/// The sizes of the axes of a tensor of rank `D`, outermost axis first.
#[derive(Debug, Clone, Copy, Eq)]
pub struct Shape<const D: usize> {
    pub dims: [usize; D],
}

impl<const D: usize> PartialEq for Shape<D> {
    /// Whether the two shapes have the same sizes on all axes.
    fn eq(&self, other: &Self) -> (same: bool) {
        let mut i: usize = 0;
        while i < D
            invariant
                i <= D,
                forall|k: int| 0 <= k < i ==> self@[k] == other@[k],
            decreases D - i,
        {
            if self.dims[i] != other.dims[i] {
                return false;
            }
            i += 1;
        }
        assert(self@ =~= other@);
        true
    }
}

impl<const D: usize> vstd::std_specs::cmp::PartialEqSpecImpl for Shape<D> {
    open spec fn obeys_eq_spec() -> bool {
        true
    }

    open spec fn eq_spec(&self, other: &Self) -> bool {
        self@ == other@
    }
}

impl<const D: usize> View for Shape<D> {
    type V = Seq<usize>;

    open spec fn view(&self) -> Seq<usize> {
        self.dims@
    }
}

impl<const D: usize> Shape<D> {
    /// The number of elements a tensor of this shape holds.
    pub open spec fn spec_num_elements(&self) -> nat {
        product(self@)
    }

    /// Whether some axis has size zero.
    pub open spec fn has_empty_axis(&self) -> bool {
        exists|k: int| 0 <= k < D && self@[k] == 0
    }

    /// The shape with the given sizes.
    pub fn new(dims: [usize; D]) -> (shape: Self)
        ensures
            shape.dims == dims,
            shape@ == dims@,
    {
        Shape { dims }
    }

    fn any_empty_axis(&self) -> (found: bool)
        ensures
            found == self.has_empty_axis(),
    {
        let mut i: usize = 0;
        while i < D
            invariant
                i <= D,
                forall|k: int| 0 <= k < i ==> self@[k] != 0,
            decreases D - i,
        {
            if self.dims[i] == 0 {
                assert(self@[i as int] == 0);
                return true;
            }
            i += 1;
        }
        false
    }

    /// The element count, or `None` when it does not fit in a `usize`.
    pub fn checked_num_elements(&self) -> (count: Option<usize>)
        ensures
            match count {
                Some(n) => n == self.spec_num_elements(),
                None => self.spec_num_elements() > usize::MAX,
            },
    {
        // An empty axis makes the count zero whatever the other sizes are.
        // Without one, no product of some of the sizes exceeds that of all.
        if self.any_empty_axis() {
            proof {
                let k = choose|k: int| 0 <= k < D && self@[k] == 0;
                lemma_product_zero(self@, k);
            }
            return Some(0);
        }
        let mut count: usize = 1;
        let mut i: usize = 0;
        while i < D
            invariant
                i <= D,
                self@.len() == D,
                forall|k: int| 0 <= k < D ==> self@[k] != 0,
                count == product(self@.take(i as int)),
            decreases D - i,
        {
            proof {
                lemma_product_step(self@, i as int);
                lemma_product_prefix(self@, i + 1);
            }
            match count.checked_mul(self.dims[i]) {
                Some(next) => {
                    count = next;
                },
                None => {
                    return None;
                },
            }
            i += 1;
        }
        proof {
            assert(self@.take(D as int) =~= self@);
        }
        Some(count)
    }

    /// The element count: the product of all axis sizes, 1 at rank 0.
    pub fn num_elements(&self) -> (count: usize)
        requires
            self.spec_num_elements() <= usize::MAX,
        ensures
            count == self.spec_num_elements(),
    {
        // With an empty axis a partial product may exceed the count, which
        // is zero; without one it cannot.
        if self.any_empty_axis() {
            proof {
                let k = choose|k: int| 0 <= k < D && self@[k] == 0;
                lemma_product_zero(self@, k);
            }
            return 0;
        }
        let mut count: usize = 1;
        let mut i: usize = 0;
        while i < D
            invariant
                i <= D,
                self@.len() == D,
                forall|k: int| 0 <= k < D ==> self@[k] != 0,
                self.spec_num_elements() <= usize::MAX,
                count == product(self@.take(i as int)),
            decreases D - i,
        {
            proof {
                lemma_product_step(self@, i as int);
                lemma_product_prefix(self@, i + 1);
            }
            count = count * self.dims[i];
            i += 1;
        }
        proof {
            assert(self@.take(D as int) =~= self@);
        }
        count
    }

    /// Reshape legality: both shapes hold the same number of elements.
    pub open spec fn reshapes_to<const D2: usize>(&self, rhs: Shape<D2>) -> bool {
        self.spec_num_elements() == rhs.spec_num_elements()
    }

    /// Whether axis `k` stands in the way of broadcasting `rhs` onto `self`:
    /// there `rhs` has neither size 1 nor the size that `self` has.
    pub open spec fn mismatch_at(&self, rhs: Self, k: int) -> bool {
        rhs@[k] != 1 && rhs@[k] != self@[k]
    }

    /// Broadcast legality: no axis stands in the way. Ranks are equal; no
    /// axis is padded.
    pub open spec fn broadcasts_from(&self, rhs: Self) -> bool {
        forall|k: int| 0 <= k < D ==> !self.mismatch_at(rhs, k)
    }

    /// Decides reshape legality for shapes whose element counts fit in a
    /// `usize`.
    pub fn can_reshape<const D2: usize>(&self, rhs: &Shape<D2>) -> (legal: bool)
        requires
            self.spec_num_elements() <= usize::MAX,
            rhs.spec_num_elements() <= usize::MAX,
        ensures
            legal == self.reshapes_to(*rhs),
    {
        self.num_elements() == rhs.num_elements()
    }

    /// Demands that a tensor of this shape can be reinterpreted as one of
    /// shape `rhs`.
    pub fn assert_reshape<const D2: usize>(&self, rhs: Shape<D2>)
        requires
            self.reshapes_to(rhs),
    {
    }

    /// The first axis that stands in the way of broadcasting `rhs` onto
    /// `self`; `None` when the broadcast is legal.
    pub fn broadcast_mismatch(&self, rhs: &Self) -> (axis: Option<usize>)
        ensures
            match axis {
                Some(k) => {
                    &&& k < D
                    &&& self.mismatch_at(*rhs, k as int)
                    &&& forall|j: int| 0 <= j < k ==> !self.mismatch_at(*rhs, j)
                },
                None => self.broadcasts_from(*rhs),
            },
    {
        let mut i: usize = 0;
        while i < D
            invariant
                i <= D,
                forall|j: int| 0 <= j < i ==> !self.mismatch_at(*rhs, j),
            decreases D - i,
        {
            if rhs.dims[i] != 1 && rhs.dims[i] != self.dims[i] {
                assert(self.mismatch_at(*rhs, i as int));
                return Some(i);
            }
            i += 1;
        }
        None
    }

    /// Whether the two shapes can be combined axis by axis: on every axis
    /// the sizes are equal or one of them is 1.
    pub open spec fn combines_with(&self, other: Self) -> bool {
        forall|k: int| 0 <= k < D ==> sizes_combine(self@[k], other@[k])
    }

    /// The shape that both `self` and `other` can be broadcast onto: on every
    /// axis the size that is not 1, where there is one. `None` when on some
    /// axis the sizes differ and neither is 1.
    pub fn broadcast_shape(&self, other: &Self) -> (combined: Option<Self>)
        ensures
            combined is Some <==> self.combines_with(*other),
            combined matches Some(shape) ==> {
                &&& forall|k: int|
                    0 <= k < D ==> shape@[k] == combined_size(self@[k], other@[k])
                &&& shape.broadcasts_from(*self)
                &&& shape.broadcasts_from(*other)
            },
    {
        let mut dims = self.dims;
        let mut i: usize = 0;
        while i < D
            invariant
                i <= D,
                forall|k: int| 0 <= k < i ==> sizes_combine(self@[k], other@[k]),
                forall|k: int| 0 <= k < i ==> dims@[k] == combined_size(self@[k], other@[k]),
                forall|k: int| i <= k < D ==> dims@[k] == self@[k],
            decreases D - i,
        {
            let (a, b) = (self.dims[i], other.dims[i]);
            if a != b && a != 1 && b != 1 {
                assert(!sizes_combine(self@[i as int], other@[i as int]));
                return None;
            }
            if a == 1 {
                dims[i] = b;
            }
            i += 1;
        }
        let shape = Shape { dims };
        assert forall|k: int| 0 <= k < D implies !shape.mismatch_at(*self, k) && !shape.mismatch_at(
            *other,
            k,
        ) by {
            assert(sizes_combine(self@[k], other@[k]));
        }
        Some(shape)
    }

    /// Decides broadcast legality.
    pub fn can_broadcast(&self, rhs: &Self) -> (legal: bool)
        ensures
            legal == self.broadcasts_from(*rhs),
    {
        self.broadcast_mismatch(rhs).is_none()
    }

    /// Demands that a tensor of shape `rhs` can be broadcast onto this shape.
    pub fn assert_broadcast(&self, rhs: Self)
        requires
            self.broadcasts_from(rhs),
    {
    }

    /// The shape of the slice that `indexes` selects: the first `D2` axes get
    /// the lengths of their ranges, the others keep their sizes.
    pub fn index<const D2: usize>(&self, indexes: [Range<usize>; D2]) -> (sliced: Self)
        requires
            D2 <= D,
        ensures
            forall|k: int| 0 <= k < D2 ==> sliced@[k] == range_len(indexes@[k]),
            forall|k: int| D2 <= k < D ==> sliced@[k] == self@[k],
    {
        let mut dims = self.dims;
        let mut i: usize = 0;
        while i < D2
            invariant
                i <= D2 <= D,
                forall|k: int| 0 <= k < i ==> dims@[k] == range_len(indexes@[k]),
                forall|k: int| i <= k < D ==> dims@[k] == self@[k],
            decreases D2 - i,
        {
            let start = indexes[i].start;
            let end = indexes[i].end;
            dims[i] = if start < end {
                end - start
            } else {
                0
            };
            i += 1;
        }
        Shape { dims }
    }

    /// The shape left when axis `dim` is dropped, as after a reduction along
    /// it.
    pub fn remove_dim<const D2: usize>(&self, dim: usize) -> (reduced: Shape<D2>)
        requires
            D2 + 1 == D,
            dim < D,
        ensures
            reduced@ == self@.remove(dim as int),
    {
        let mut dims = [0usize; D2];
        let mut index: usize = 0;
        let mut i: usize = 0;
        while i < D
            invariant
                i <= D,
                D2 + 1 == D,
                dim < D,
                index == if i <= dim { i as int } else { i - 1 },
                forall|k: int| 0 <= k < index ==> dims@[k] == self@.remove(dim as int)[k],
            decreases D - i,
        {
            if i != dim {
                dims[index] = self.dims[i];
                index += 1;
            }
            i += 1;
        }
        assert(dims@ =~= self@.remove(dim as int));
        Shape { dims }
    }

    /// Of two shapes the one with the larger sum of axis sizes, `self` on a
    /// tie. A first guess at the shape of a binary operation's result, and no
    /// more than a guess.
    pub fn higher(&self, other: &Self) -> (chosen: Self)
        ensures
            chosen == if dim_sum(self@) < dim_sum(other@) {
                *other
            } else {
                *self
            },
    {
        if self.sum_of_dims() < other.sum_of_dims() {
            *other
        } else {
            *self
        }
    }

    fn sum_of_dims(&self) -> (sum: u128)
        ensures
            sum == dim_sum(self@),
    {
        let mut sum: u128 = 0;
        let mut i: usize = 0;
        while i < D
            invariant
                i <= D,
                self@.len() == D,
                sum == dim_sum(self@.take(i as int)),
                sum <= i * usize::MAX,
            decreases D - i,
        {
            proof {
                lemma_dim_sum_step(self@, i as int);
                assert(i * usize::MAX + usize::MAX <= u128::MAX) by (nonlinear_arith)
                    requires
                        i < D,
                        D <= usize::MAX,
                        usize::MAX <= u64::MAX,
                ;
                assert((i + 1) * usize::MAX == i * usize::MAX + usize::MAX) by (nonlinear_arith);
            }
            sum = sum + self.dims[i] as u128;
            i += 1;
        }
        proof {
            assert(self@.take(D as int) =~= self@);
        }
        sum
    }
}

impl<const D: usize> From<[usize; D]> for Shape<D> {
    fn from(dims: [usize; D]) -> (shape: Self) {
        Shape::new(dims)
    }
}

impl<const D: usize> vstd::std_specs::convert::FromSpecImpl<[usize; D]> for Shape<D> {
    open spec fn obeys_from_spec() -> bool {
        true
    }

    open spec fn from_spec(dims: [usize; D]) -> Self {
        Shape { dims }
    }
}

/// An array together with the shape it is to be read with.
#[derive(Debug, Clone, Copy)]
pub struct WithShape<T, const D: usize> {
    pub array: T,
    pub shape: Shape<D>,
}

impl<T, const D: usize> WithShape<T, D> {
    pub fn new(array: T, shape: Shape<D>) -> (pair: Self)
        ensures
            pair.array == array,
            pair.shape == shape,
    {
        WithShape { array, shape }
    }
}

/// Reshape legality goes by the element counts alone: a shape can always be
/// reshaped to itself, and two shapes of any ranks can be reshaped to one
/// another exactly when they hold equally many elements.
pub proof fn lemma_reshape_legality<const D1: usize, const D2: usize>(a: Shape<D1>, b: Shape<D2>)
    ensures
        a.reshapes_to(a),
        a.reshapes_to(b) <==> a.spec_num_elements() == b.spec_num_elements(),
        a.reshapes_to(b) <==> b.reshapes_to(a),
{
}

/// Every shape can be broadcast onto itself.
pub proof fn lemma_broadcast_onto_itself<const D: usize>(a: Shape<D>)
    ensures
        a.broadcasts_from(a),
{
}

/// What can be broadcast onto a shape can be broadcast onto every shape that
/// the shape itself can be broadcast onto.
pub proof fn lemma_broadcast_transitive<const D: usize>(a: Shape<D>, b: Shape<D>, c: Shape<D>)
    requires
        a.broadcasts_from(b),
        b.broadcasts_from(c),
    ensures
        a.broadcasts_from(c),
{
    assert forall|k: int| 0 <= k < D implies !a.mismatch_at(c, k) by {
        assert(!a.mismatch_at(b, k));
        assert(!b.mismatch_at(c, k));
    }
}

/// Combining is symmetric, and where `b` can be broadcast onto `a` the two
/// combine to `a`.
pub proof fn lemma_combine<const D: usize>(a: Shape<D>, b: Shape<D>)
    ensures
        a.combines_with(b) <==> b.combines_with(a),
        a.combines_with(b) ==> forall|k: int|
            0 <= k < D ==> combined_size(a@[k], b@[k]) == combined_size(b@[k], a@[k]),
        a.broadcasts_from(b) ==> a.combines_with(b) && forall|k: int|
            0 <= k < D ==> combined_size(a@[k], b@[k]) == a@[k],
{
    if a.combines_with(b) {
        assert forall|k: int| 0 <= k < D implies sizes_combine(b@[k], a@[k]) by {
            assert(sizes_combine(a@[k], b@[k]));
        }
        assert forall|k: int| 0 <= k < D implies combined_size(a@[k], b@[k]) == combined_size(
            b@[k],
            a@[k],
        ) by {
            assert(sizes_combine(a@[k], b@[k]));
        }
    }
    if b.combines_with(a) {
        assert forall|k: int| 0 <= k < D implies sizes_combine(a@[k], b@[k]) by {
            assert(sizes_combine(b@[k], a@[k]));
        }
    }
    if a.broadcasts_from(b) {
        assert forall|k: int| 0 <= k < D implies sizes_combine(a@[k], b@[k]) && combined_size(
            a@[k],
            b@[k],
        ) == a@[k] by {
            assert(!a.mismatch_at(b, k));
        }
    }
}

/// The element count of a shape is that of the shape without axis `dim`,
/// times the size of that axis.
pub proof fn lemma_remove_dim_num_elements<const D: usize, const D2: usize>(
    a: Shape<D>,
    reduced: Shape<D2>,
    dim: int,
)
    requires
        0 <= dim < D,
        reduced@ == a@.remove(dim),
    ensures
        a.spec_num_elements() == reduced.spec_num_elements() * (a@[dim] as nat),
{
    lemma_product_remove(a@, dim);
}

/// One more axis multiplies the product by its size.
pub proof fn lemma_product_push(dims: Seq<usize>, size: usize)
    ensures
        product(dims.push(size)) == product(dims) * (size as nat),
{
    assert(dims.push(size).drop_last() =~= dims);
}

/// One more axis adds its size to the sum.
pub proof fn lemma_dim_sum_push(dims: Seq<usize>, size: usize)
    ensures
        dim_sum(dims.push(size)) == dim_sum(dims) + (size as nat),
{
    assert(dims.push(size).drop_last() =~= dims);
}

/// Extending a prefix by one size multiplies its product by that size.
pub proof fn lemma_product_step(dims: Seq<usize>, i: int)
    requires
        0 <= i < dims.len(),
    ensures
        product(dims.take(i + 1)) == product(dims.take(i)) * (dims[i] as nat),
{
    lemma_product_push(dims.take(i), dims[i]);
    assert(dims.take(i).push(dims[i]) =~= dims.take(i + 1));
}

/// Extending a prefix by one size adds that size to its sum.
pub proof fn lemma_dim_sum_step(dims: Seq<usize>, i: int)
    requires
        0 <= i < dims.len(),
    ensures
        dim_sum(dims.take(i + 1)) == dim_sum(dims.take(i)) + (dims[i] as nat),
{
    lemma_dim_sum_push(dims.take(i), dims[i]);
    assert(dims.take(i).push(dims[i]) =~= dims.take(i + 1));
}

/// A single axis of size zero makes the whole product zero.
pub proof fn lemma_product_zero(dims: Seq<usize>, k: int)
    requires
        0 <= k < dims.len(),
        dims[k] == 0,
    ensures
        product(dims) == 0,
    decreases dims.len(),
{
    let p = product(dims.drop_last());
    let d = dims.last() as nat;
    if k < dims.len() - 1 {
        lemma_product_zero(dims.drop_last(), k);
    }
    assert(p * d == 0) by (nonlinear_arith)
        requires
            p == 0 || d == 0,
    ;
}

/// Without an axis of size zero the product is positive and no prefix has a
/// larger product than the whole.
pub proof fn lemma_product_prefix(dims: Seq<usize>, i: int)
    requires
        0 <= i <= dims.len(),
        forall|k: int| 0 <= k < dims.len() ==> dims[k] != 0,
    ensures
        1 <= product(dims.take(i)) <= product(dims),
    decreases dims.len() - i,
{
    if i == dims.len() {
        assert(dims.take(i) =~= dims);
        lemma_product_positive(dims);
    } else {
        lemma_product_prefix(dims, i + 1);
        lemma_product_step(dims, i);
        let p = product(dims.take(i));
        let d = dims[i] as nat;
        assert(1 <= p && p <= p * d) by (nonlinear_arith)
            requires
                1 <= p * d,
                1 <= d,
        ;
    }
}

/// Without an axis of size zero the product is at least 1.
pub proof fn lemma_product_positive(dims: Seq<usize>)
    requires
        forall|k: int| 0 <= k < dims.len() ==> dims[k] != 0,
    ensures
        1 <= product(dims),
    decreases dims.len(),
{
    if dims.len() > 0 {
        lemma_product_positive(dims.drop_last());
        let p = product(dims.drop_last());
        let d = dims.last() as nat;
        assert(1 <= p * d) by (nonlinear_arith)
            requires
                1 <= p,
                1 <= d,
        ;
    }
}

/// The product is that of the other axes times the size of any one axis.
pub proof fn lemma_product_remove(dims: Seq<usize>, k: int)
    requires
        0 <= k < dims.len(),
    ensures
        product(dims) == product(dims.remove(k)) * (dims[k] as nat),
    decreases dims.len(),
{
    if k == dims.len() - 1 {
        assert(dims.remove(k) =~= dims.drop_last());
    } else {
        let front = dims.drop_last();
        lemma_product_remove(front, k);
        assert(dims.remove(k).drop_last() =~= front.remove(k));
        assert(dims.remove(k).last() == dims.last());
        let rest = product(front.remove(k));
        let size = dims[k] as nat;
        let last = dims.last() as nat;
        assert((rest * size) * last == (rest * last) * size) by (nonlinear_arith);
    }
}

} // verus!
