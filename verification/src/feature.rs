//! The operations a backend provides on its arrays, and the operations that
//! every backend gets from them.
//!
//! Each operation a backend has to write comes with a spec function that
//! names its result as a function of the operands' elements and shapes. The
//! derived operations are stated over those names.

use crate::backend::{Backend, Element};
use crate::shape::{Shape, WithShape};
use std::fmt::{Debug, Display};
use std::sync::Arc;
use vstd::prelude::*;

verus! {

/// A rank as a type, so that a bound can compare ranks.
pub struct ConstUsize<const N: usize>;

/// Holds of `ConstUsize<M>` exactly when `M` is `N`.
pub trait Equals<const N: usize> {

}

impl<const N: usize> Equals<N> for ConstUsize<N> {

}

/// The storage a backend uses for elements of type `Elem`. An array is flat:
/// the shape it is read with travels beside it.
pub trait FArray<Elem>: Backend {
    type Array: Clone + Display + Debug + Send + Sync;

    /// The elements that `array` holds, in storage order.
    spec fn elements(array: &Self::Array) -> Seq<Elem>;

    /// The device that `array` was allocated on.
    spec fn spec_device_of(array: &Self::Array) -> Arc<Self::Device>;

    /// The device that `array` was allocated on.
    fn device_of(array: &Self::Array) -> (device: &Arc<Self::Device>)
        ensures
            *device == Self::spec_device_of(array),
    ;

    /// An array on `device` that holds `items` in order.
    fn from_iterator(device: &Arc<Self::Device>, items: Vec<Elem>) -> (array: Self::Array)
        ensures
            Self::elements(&array) == items@,
            Self::spec_device_of(&array) == *device,
    ;

    /// An array on `device` with room for `count` elements, whose values are
    /// left to the backend.
    fn new_uniform(device: &Arc<Self::Device>, count: usize) -> (array: Self::Array)
        ensures
            Self::elements(&array).len() == count,
            Self::spec_device_of(&array) == *device,
    ;
}

/// Arrays of `Elem` read as tensors of rank `D`.
pub trait FTensor<Elem, const D: usize>: FArray<Elem> {

}

/// `count` copies of `value`.
fn filled<T: Copy>(value: T, count: usize) -> (items: Vec<T>)
    ensures
        items@ == Seq::new(count as nat, |i: int| value),
{
    let mut items: Vec<T> = Vec::new();
    let mut i: usize = 0;
    while i < count
        invariant
            i <= count,
            items@ == Seq::new(i as nat, |k: int| value),
        decreases count - i,
    {
        items.push(value);
        i += 1;
    }
    items
}

/// Operations on tensors of truth values.
pub trait FTensorBool<const D: usize>: FTensor<bool, D> {
    /// A tensor of the given shape that is false everywhere.
    fn all_false(device: &Arc<Self::Device>, shape: Shape<D>) -> (out: Self::Array)
        requires
            shape.spec_num_elements() <= usize::MAX,
        ensures
            Self::elements(&out) == Seq::new(shape.spec_num_elements(), |i: int| false),
            Self::spec_device_of(&out) == *device,
    {
        Self::from_iterator(device, filled(false, shape.num_elements()))
    }

    /// A tensor of the given shape that is true everywhere.
    fn all_true(device: &Arc<Self::Device>, shape: Shape<D>) -> (out: Self::Array)
        requires
            shape.spec_num_elements() <= usize::MAX,
        ensures
            Self::elements(&out) == Seq::new(shape.spec_num_elements(), |i: int| true),
            Self::spec_device_of(&out) == *device,
    {
        Self::from_iterator(device, filled(true, shape.num_elements()))
    }

    /// What `neg` computes, as a function of the elements and the shape.
    spec fn spec_neg(array: Seq<bool>, shape: Shape<D>) -> Seq<bool>;

    /// Elementwise negation.
    fn neg(array: WithShape<&Self::Array, D>) -> (out: Self::Array)
        where ConstUsize<D>: Equals<1>,
        ensures
            Self::elements(&out) == Self::spec_neg(Self::elements(array.array), array.shape),
    ;

    /// `neg` with the result stored in `array`.
    fn neg_(array: WithShape<&mut Self::Array, D>)
        where ConstUsize<D>: Equals<1>,
        ensures
            Self::elements(final(array.array)) == Self::spec_neg(
                Self::elements(old(array.array)),
                array.shape,
            ),
    {
        let WithShape { array, shape } = array;
        *array = Self::neg(WithShape { array, shape });
    }
}

/// Arithmetic on tensors of numbers. A backend writes the operations that
/// have no body here; the others follow from them.
pub trait FTensorNum<Elem: Element, const D: usize>: FTensor<Elem, D> {
    /// A tensor of the given shape that is zero everywhere.
    fn zeros(device: &Arc<Self::Device>, shape: Shape<D>) -> (out: Self::Array)
        requires
            shape.spec_num_elements() <= usize::MAX,
        ensures
            Self::elements(&out) == Seq::new(shape.spec_num_elements(), |i: int| Elem::of_i32(0)),
            Self::spec_device_of(&out) == *device,
    {
        Self::from_iterator(device, filled(Elem::zero(), shape.num_elements()))
    }

    /// A tensor of the given shape that is one everywhere.
    fn ones(device: &Arc<Self::Device>, shape: Shape<D>) -> (out: Self::Array)
        requires
            shape.spec_num_elements() <= usize::MAX,
        ensures
            Self::elements(&out) == Seq::new(shape.spec_num_elements(), |i: int| Elem::of_i32(1)),
            Self::spec_device_of(&out) == *device,
    {
        Self::from_iterator(device, filled(Elem::one(), shape.num_elements()))
    }

    /// What `powu_scalar` computes, as a function of the elements, the shape
    /// and the exponent.
    spec fn spec_powu_scalar(array: Seq<Elem>, shape: Shape<D>, rhs: u32) -> Seq<Elem>;

    /// Raises every element to the power `rhs`.
    fn powu_scalar(array: WithShape<&Self::Array, D>, rhs: u32) -> (out: Self::Array)
        where ConstUsize<D>: Equals<1>,
        ensures
            Self::elements(&out) == Self::spec_powu_scalar(
                Self::elements(array.array),
                array.shape,
                rhs,
            ),
    ;

    /// `powu_scalar` with the result stored in `array`.
    fn powu_scalar_(array: WithShape<&mut Self::Array, D>, rhs: u32)
        where ConstUsize<D>: Equals<1>,
        ensures
            Self::elements(final(array.array)) == Self::spec_powu_scalar(
                Self::elements(old(array.array)),
                array.shape,
                rhs,
            ),
    ;

    /// What `erf` computes, as a function of the elements and the shape.
    spec fn spec_erf(array: Seq<Elem>, shape: Shape<D>) -> Seq<Elem>;

    /// The error function of every element.
    fn erf(array: WithShape<&Self::Array, D>) -> (out: Self::Array)
        where ConstUsize<D>: Equals<1>,
        ensures
            Self::elements(&out) == Self::spec_erf(Self::elements(array.array), array.shape),
    ;

    /// `erf` with the result stored in `array`.
    fn erf_(array: WithShape<&mut Self::Array, D>)
        where ConstUsize<D>: Equals<1>,
        ensures
            Self::elements(final(array.array)) == Self::spec_erf(
                Self::elements(old(array.array)),
                array.shape,
            ),
    {
        let WithShape { array, shape } = array;
        *array = Self::erf(WithShape { array, shape });
    }

    /// The Gaussian error linear unit of every element,
    /// `x / 2 * (erf(x / 2) + 1)`, over the backend's own operations. One
    /// buffer is allocated, by the first division; every later step works in
    /// it, and `array` is read twice and never written.
    fn gelu(array: WithShape<&Self::Array, D>) -> (out: Self::Array)
        where ConstUsize<D>: Equals<1>,
        ensures
            ({
                let x = Self::elements(array.array);
                let shape = array.shape;
                let halved = Self::spec_div_scalar(x, shape, Elem::of_i32(2));
                let shifted = Self::spec_add_scalar(
                    Self::spec_erf(halved, shape),
                    shape,
                    Elem::of_i32(1),
                );
                Self::elements(&out) == Self::spec_div_scalar(
                    Self::spec_mul(shifted, shape, x, shape),
                    shape,
                    Elem::of_i32(2),
                )
            }),
    {
        let WithShape { array, shape } = array;
        let two = Elem::from_i32(2);
        let mut buffer = Self::div_scalar(WithShape { array, shape }, two);
        Self::erf_(WithShape { array: &mut buffer, shape });
        Self::add_scalar_(WithShape { array: &mut buffer, shape }, Elem::one());
        Self::mul_(WithShape { array: &mut buffer, shape }, WithShape { array, shape });
        Self::div_scalar_(WithShape { array: &mut buffer, shape }, two);
        buffer
    }

    /// `gelu` with the result stored in `array`.
    fn gelu_(array: WithShape<&mut Self::Array, D>)
        where ConstUsize<D>: Equals<1>,
        ensures
            ({
                let x = Self::elements(old(array.array));
                let shape = array.shape;
                let halved = Self::spec_div_scalar(x, shape, Elem::of_i32(2));
                let shifted = Self::spec_add_scalar(
                    Self::spec_erf(halved, shape),
                    shape,
                    Elem::of_i32(1),
                );
                Self::elements(final(array.array)) == Self::spec_div_scalar(
                    Self::spec_mul(shifted, shape, x, shape),
                    shape,
                    Elem::of_i32(2),
                )
            }),
    {
        let WithShape { array, shape } = array;
        *array = Self::gelu(WithShape { array, shape });
    }

    /// The rectified linear unit of every element: the maximum of the
    /// element and zero.
    fn relu(array: WithShape<&Self::Array, D>) -> (out: Self::Array)
        where ConstUsize<D>: Equals<1>,
        ensures
            Self::elements(&out) == Self::spec_max_scalar(
                Self::elements(array.array),
                array.shape,
                Elem::of_i32(0),
            ),
    {
        Self::max_scalar(array, Elem::zero())
    }

    /// `relu` with the result stored in `array`.
    fn relu_(array: WithShape<&mut Self::Array, D>)
        where ConstUsize<D>: Equals<1>,
        ensures
            Self::elements(final(array.array)) == Self::spec_max_scalar(
                Self::elements(old(array.array)),
                array.shape,
                Elem::of_i32(0),
            ),
    {
        let WithShape { array, shape } = array;
        *array = Self::relu(WithShape { array, shape });
    }

    /// What `matmul` computes, as a function of the operands' elements and
    /// shapes.
    spec fn spec_matmul(
        lhs: Seq<Elem>,
        lhs_shape: Shape<D>,
        rhs: Seq<Elem>,
        rhs_shape: Shape<D>,
    ) -> Seq<Elem>;

    /// The matrix product of two tensors. The bound admits rank 2 and no
    /// other. Nothing is broadcast: the columns of `lhs` are as many as the
    /// rows of `rhs`.
    fn matmul(
        lhs: &WithShape<&Self::Array, D>,
        rhs: &WithShape<&Self::Array, D>,
    ) -> (out: Self::Array)
        where ConstUsize<D>: Equals<2>,
        requires
            D == 2,
            lhs.shape@[1] == rhs.shape@[0],
        ensures
            Self::elements(&out) == Self::spec_matmul(
                Self::elements(lhs.array),
                lhs.shape,
                Self::elements(rhs.array),
                rhs.shape,
            ),
    ;

    /// What `add` computes, as a function of the operands' elements and
    /// shapes.
    spec fn spec_add(
        lhs: Seq<Elem>,
        lhs_shape: Shape<D>,
        rhs: Seq<Elem>,
        rhs_shape: Shape<D>,
    ) -> Seq<Elem>;

    /// What `add_scalar` computes, as a function of the elements, the shape
    /// and the scalar.
    spec fn spec_add_scalar(lhs: Seq<Elem>, shape: Shape<D>, rhs: Elem) -> Seq<Elem>;

    /// Elementwise sum, with `rhs` broadcast onto `lhs`.
    fn add(lhs: WithShape<&Self::Array, D>, rhs: WithShape<&Self::Array, D>) -> (out: Self::Array)
        requires
            lhs.shape.broadcasts_from(rhs.shape),
        ensures
            Self::elements(&out) == Self::spec_add(
                Self::elements(lhs.array),
                lhs.shape,
                Self::elements(rhs.array),
                rhs.shape,
            ),
    ;

    /// Adds `rhs` to every element.
    fn add_scalar(lhs: WithShape<&Self::Array, D>, rhs: Elem) -> (out: Self::Array)
        where ConstUsize<D>: Equals<1>,
        ensures
            Self::elements(&out) == Self::spec_add_scalar(
                Self::elements(lhs.array),
                lhs.shape,
                rhs,
            ),
    ;

    /// `add` with the result stored in `lhs`.
    fn add_(lhs: WithShape<&mut Self::Array, D>, rhs: WithShape<&Self::Array, D>)
        requires
            lhs.shape.broadcasts_from(rhs.shape),
        ensures
            Self::elements(final(lhs.array)) == Self::spec_add(
                Self::elements(old(lhs.array)),
                lhs.shape,
                Self::elements(rhs.array),
                rhs.shape,
            ),
    {
        let WithShape { array, shape } = lhs;
        *array = Self::add(WithShape { array, shape }, rhs);
    }

    /// `add_scalar` with the result stored in `lhs`.
    fn add_scalar_(lhs: WithShape<&mut Self::Array, D>, rhs: Elem)
        where ConstUsize<D>: Equals<1>,
        ensures
            Self::elements(final(lhs.array)) == Self::spec_add_scalar(
                Self::elements(old(lhs.array)),
                lhs.shape,
                rhs,
            ),
    {
        let WithShape { array, shape } = lhs;
        *array = Self::add_scalar(WithShape { array, shape }, rhs);
    }

    /// What `sub` computes, as a function of the operands' elements and
    /// shapes.
    spec fn spec_sub(
        lhs: Seq<Elem>,
        lhs_shape: Shape<D>,
        rhs: Seq<Elem>,
        rhs_shape: Shape<D>,
    ) -> Seq<Elem>;

    /// What `sub_scalar` computes, as a function of the elements, the shape
    /// and the scalar.
    spec fn spec_sub_scalar(lhs: Seq<Elem>, shape: Shape<D>, rhs: Elem) -> Seq<Elem>;

    /// Elementwise difference, with `rhs` broadcast onto `lhs`.
    fn sub(lhs: WithShape<&Self::Array, D>, rhs: WithShape<&Self::Array, D>) -> (out: Self::Array)
        requires
            lhs.shape.broadcasts_from(rhs.shape),
        ensures
            Self::elements(&out) == Self::spec_sub(
                Self::elements(lhs.array),
                lhs.shape,
                Self::elements(rhs.array),
                rhs.shape,
            ),
    ;

    /// Subtracts `rhs` from every element.
    fn sub_scalar(lhs: WithShape<&Self::Array, D>, rhs: Elem) -> (out: Self::Array)
        where ConstUsize<D>: Equals<1>,
        ensures
            Self::elements(&out) == Self::spec_sub_scalar(
                Self::elements(lhs.array),
                lhs.shape,
                rhs,
            ),
    ;

    /// `sub` with the result stored in `lhs`.
    fn sub_(lhs: WithShape<&mut Self::Array, D>, rhs: WithShape<&Self::Array, D>)
        requires
            lhs.shape.broadcasts_from(rhs.shape),
        ensures
            Self::elements(final(lhs.array)) == Self::spec_sub(
                Self::elements(old(lhs.array)),
                lhs.shape,
                Self::elements(rhs.array),
                rhs.shape,
            ),
    {
        let WithShape { array, shape } = lhs;
        *array = Self::sub(WithShape { array, shape }, rhs);
    }

    /// `sub_scalar` with the result stored in `lhs`.
    fn sub_scalar_(lhs: WithShape<&mut Self::Array, D>, rhs: Elem)
        where ConstUsize<D>: Equals<1>,
        ensures
            Self::elements(final(lhs.array)) == Self::spec_sub_scalar(
                Self::elements(old(lhs.array)),
                lhs.shape,
                rhs,
            ),
    {
        let WithShape { array, shape } = lhs;
        *array = Self::sub_scalar(WithShape { array, shape }, rhs);
    }

    /// What `mul` computes, as a function of the operands' elements and
    /// shapes.
    spec fn spec_mul(
        lhs: Seq<Elem>,
        lhs_shape: Shape<D>,
        rhs: Seq<Elem>,
        rhs_shape: Shape<D>,
    ) -> Seq<Elem>;

    /// What `mul_scalar` computes, as a function of the elements, the shape
    /// and the scalar.
    spec fn spec_mul_scalar(lhs: Seq<Elem>, shape: Shape<D>, rhs: Elem) -> Seq<Elem>;

    /// Elementwise product, with `rhs` broadcast onto `lhs`.
    fn mul(lhs: WithShape<&Self::Array, D>, rhs: WithShape<&Self::Array, D>) -> (out: Self::Array)
        requires
            lhs.shape.broadcasts_from(rhs.shape),
        ensures
            Self::elements(&out) == Self::spec_mul(
                Self::elements(lhs.array),
                lhs.shape,
                Self::elements(rhs.array),
                rhs.shape,
            ),
    ;

    /// Multiplies every element by `rhs`.
    fn mul_scalar(lhs: WithShape<&Self::Array, D>, rhs: Elem) -> (out: Self::Array)
        where ConstUsize<D>: Equals<1>,
        ensures
            Self::elements(&out) == Self::spec_mul_scalar(
                Self::elements(lhs.array),
                lhs.shape,
                rhs,
            ),
    ;

    /// `mul` with the result stored in `lhs`.
    fn mul_(lhs: WithShape<&mut Self::Array, D>, rhs: WithShape<&Self::Array, D>)
        requires
            lhs.shape.broadcasts_from(rhs.shape),
        ensures
            Self::elements(final(lhs.array)) == Self::spec_mul(
                Self::elements(old(lhs.array)),
                lhs.shape,
                Self::elements(rhs.array),
                rhs.shape,
            ),
    {
        let WithShape { array, shape } = lhs;
        *array = Self::mul(WithShape { array, shape }, rhs);
    }

    /// `mul_scalar` with the result stored in `lhs`.
    fn mul_scalar_(lhs: WithShape<&mut Self::Array, D>, rhs: Elem)
        where ConstUsize<D>: Equals<1>,
        ensures
            Self::elements(final(lhs.array)) == Self::spec_mul_scalar(
                Self::elements(old(lhs.array)),
                lhs.shape,
                rhs,
            ),
    {
        let WithShape { array, shape } = lhs;
        *array = Self::mul_scalar(WithShape { array, shape }, rhs);
    }

    /// What `div` computes, as a function of the operands' elements and
    /// shapes.
    spec fn spec_div(
        lhs: Seq<Elem>,
        lhs_shape: Shape<D>,
        rhs: Seq<Elem>,
        rhs_shape: Shape<D>,
    ) -> Seq<Elem>;

    /// What `div_scalar` computes, as a function of the elements, the shape
    /// and the scalar.
    spec fn spec_div_scalar(lhs: Seq<Elem>, shape: Shape<D>, rhs: Elem) -> Seq<Elem>;

    /// Elementwise quotient, with `rhs` broadcast onto `lhs`.
    fn div(lhs: WithShape<&Self::Array, D>, rhs: WithShape<&Self::Array, D>) -> (out: Self::Array)
        requires
            lhs.shape.broadcasts_from(rhs.shape),
        ensures
            Self::elements(&out) == Self::spec_div(
                Self::elements(lhs.array),
                lhs.shape,
                Self::elements(rhs.array),
                rhs.shape,
            ),
    ;

    /// Divides every element by `rhs`.
    fn div_scalar(lhs: WithShape<&Self::Array, D>, rhs: Elem) -> (out: Self::Array)
        where ConstUsize<D>: Equals<1>,
        ensures
            Self::elements(&out) == Self::spec_div_scalar(
                Self::elements(lhs.array),
                lhs.shape,
                rhs,
            ),
    ;

    /// `div` with the result stored in `lhs`.
    fn div_(lhs: WithShape<&mut Self::Array, D>, rhs: WithShape<&Self::Array, D>)
        requires
            lhs.shape.broadcasts_from(rhs.shape),
        ensures
            Self::elements(final(lhs.array)) == Self::spec_div(
                Self::elements(old(lhs.array)),
                lhs.shape,
                Self::elements(rhs.array),
                rhs.shape,
            ),
    {
        let WithShape { array, shape } = lhs;
        *array = Self::div(WithShape { array, shape }, rhs);
    }

    /// `div_scalar` with the result stored in `lhs`.
    fn div_scalar_(lhs: WithShape<&mut Self::Array, D>, rhs: Elem)
        where ConstUsize<D>: Equals<1>,
        ensures
            Self::elements(final(lhs.array)) == Self::spec_div_scalar(
                Self::elements(old(lhs.array)),
                lhs.shape,
                rhs,
            ),
    {
        let WithShape { array, shape } = lhs;
        *array = Self::div_scalar(WithShape { array, shape }, rhs);
    }

    /// What `min` computes, as a function of the operands' elements and
    /// shapes.
    spec fn spec_min(
        lhs: Seq<Elem>,
        lhs_shape: Shape<D>,
        rhs: Seq<Elem>,
        rhs_shape: Shape<D>,
    ) -> Seq<Elem>;

    /// What `min_scalar` computes, as a function of the elements, the shape
    /// and the scalar.
    spec fn spec_min_scalar(lhs: Seq<Elem>, shape: Shape<D>, rhs: Elem) -> Seq<Elem>;

    /// Elementwise minimum, with `rhs` broadcast onto `lhs`.
    fn min(lhs: WithShape<&Self::Array, D>, rhs: WithShape<&Self::Array, D>) -> (out: Self::Array)
        requires
            lhs.shape.broadcasts_from(rhs.shape),
        ensures
            Self::elements(&out) == Self::spec_min(
                Self::elements(lhs.array),
                lhs.shape,
                Self::elements(rhs.array),
                rhs.shape,
            ),
    ;

    /// The minimum of every element and `rhs`.
    fn min_scalar(lhs: WithShape<&Self::Array, D>, rhs: Elem) -> (out: Self::Array)
        where ConstUsize<D>: Equals<1>,
        ensures
            Self::elements(&out) == Self::spec_min_scalar(
                Self::elements(lhs.array),
                lhs.shape,
                rhs,
            ),
    ;

    /// `min` with the result stored in `lhs`.
    fn min_(lhs: WithShape<&mut Self::Array, D>, rhs: WithShape<&Self::Array, D>)
        requires
            lhs.shape.broadcasts_from(rhs.shape),
        ensures
            Self::elements(final(lhs.array)) == Self::spec_min(
                Self::elements(old(lhs.array)),
                lhs.shape,
                Self::elements(rhs.array),
                rhs.shape,
            ),
    {
        let WithShape { array, shape } = lhs;
        *array = Self::min(WithShape { array, shape }, rhs);
    }

    /// `min_scalar` with the result stored in `lhs`.
    fn min_scalar_(lhs: WithShape<&mut Self::Array, D>, rhs: Elem)
        where ConstUsize<D>: Equals<1>,
        ensures
            Self::elements(final(lhs.array)) == Self::spec_min_scalar(
                Self::elements(old(lhs.array)),
                lhs.shape,
                rhs,
            ),
    {
        let WithShape { array, shape } = lhs;
        *array = Self::min_scalar(WithShape { array, shape }, rhs);
    }

    /// What `max` computes, as a function of the operands' elements and
    /// shapes.
    spec fn spec_max(
        lhs: Seq<Elem>,
        lhs_shape: Shape<D>,
        rhs: Seq<Elem>,
        rhs_shape: Shape<D>,
    ) -> Seq<Elem>;

    /// What `max_scalar` computes, as a function of the elements, the shape
    /// and the scalar.
    spec fn spec_max_scalar(lhs: Seq<Elem>, shape: Shape<D>, rhs: Elem) -> Seq<Elem>;

    /// Elementwise maximum, with `rhs` broadcast onto `lhs`.
    fn max(lhs: WithShape<&Self::Array, D>, rhs: WithShape<&Self::Array, D>) -> (out: Self::Array)
        requires
            lhs.shape.broadcasts_from(rhs.shape),
        ensures
            Self::elements(&out) == Self::spec_max(
                Self::elements(lhs.array),
                lhs.shape,
                Self::elements(rhs.array),
                rhs.shape,
            ),
    ;

    /// The maximum of every element and `rhs`.
    fn max_scalar(lhs: WithShape<&Self::Array, D>, rhs: Elem) -> (out: Self::Array)
        where ConstUsize<D>: Equals<1>,
        ensures
            Self::elements(&out) == Self::spec_max_scalar(
                Self::elements(lhs.array),
                lhs.shape,
                rhs,
            ),
    ;

    /// `max` with the result stored in `lhs`.
    fn max_(lhs: WithShape<&mut Self::Array, D>, rhs: WithShape<&Self::Array, D>)
        requires
            lhs.shape.broadcasts_from(rhs.shape),
        ensures
            Self::elements(final(lhs.array)) == Self::spec_max(
                Self::elements(old(lhs.array)),
                lhs.shape,
                Self::elements(rhs.array),
                rhs.shape,
            ),
    {
        let WithShape { array, shape } = lhs;
        *array = Self::max(WithShape { array, shape }, rhs);
    }

    /// `max_scalar` with the result stored in `lhs`.
    fn max_scalar_(lhs: WithShape<&mut Self::Array, D>, rhs: Elem)
        where ConstUsize<D>: Equals<1>,
        ensures
            Self::elements(final(lhs.array)) == Self::spec_max_scalar(
                Self::elements(old(lhs.array)),
                lhs.shape,
                rhs,
            ),
    {
        let WithShape { array, shape } = lhs;
        *array = Self::max_scalar(WithShape { array, shape }, rhs);
    }

}

} // verus!
