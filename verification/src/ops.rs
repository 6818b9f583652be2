//! Arithmetic on tensors, as operators and as in-place methods.
//!
//! An operator whose left operand is owned works in that operand's array; one
//! whose left operand is borrowed allocates the result. Either way the result
//! has the shape of the left operand, onto which the right one is broadcast.
//! Operators with a scalar exist at rank 1.
//!
//! The operator traits of `std` state a result as a value. A tensor's array
//! is not a value that a specification can build from its elements, so every
//! `obeys_*_spec` here is false and the operator's own `ensures` says what
//! comes out, over the elements.

use crate::backend::Element;
use crate::feature::{ConstUsize, Equals, FTensorNum};
use crate::shape::WithShape;
use crate::tensor::{Tensor, TensorAsRef, TensorMut, TensorRef};
use std::ops::{Add, Div, Mul, Sub};
use vstd::prelude::*;
use vstd::std_specs::ops::{AddSpecImpl, DivSpecImpl, MulSpecImpl, SubSpecImpl};

verus! {

impl<T, const D: usize, B> Add<Tensor<T, D, B>> for Tensor<T, D, B> where
    T: Element,
    B: FTensorNum<T, D>,
{
    type Output = Tensor<T, D, B>;

    /// `self + rhs`, computed in the array of `self`.
    fn add(self, rhs: Tensor<T, D, B>) -> (out: Tensor<T, D, B>)
        ensures
            out@.shape == self@.shape,
            out.elements() == B::spec_add(
                self.elements(),
                self@.shape,
                rhs.elements(),
                rhs@.shape,
            ),
    {
        let mut out = self;
        B::add_(out.as_with_shape_mut(), rhs.as_with_shape());
        out
    }
}

impl<T, const D: usize, B> AddSpecImpl<Tensor<T, D, B>> for Tensor<T, D, B> where
    T: Element,
    B: FTensorNum<T, D>,
{
    open spec fn obeys_add_spec() -> bool {
        false
    }

    open spec fn add_req(self, rhs: Tensor<T, D, B>) -> bool {
        self@.shape.broadcasts_from(rhs@.shape)
    }

    open spec fn add_spec(self, rhs: Tensor<T, D, B>) -> Tensor<T, D, B> {
        arbitrary()
    }
}

impl<'a, T, const D: usize, B> Add<TensorRef<'a, T, D, B>> for Tensor<T, D, B> where
    T: Element,
    B: FTensorNum<T, D>,
{
    type Output = Tensor<T, D, B>;

    /// `self + rhs`, computed in the array of `self`.
    fn add(self, rhs: TensorRef<'a, T, D, B>) -> (out: Tensor<T, D, B>)
        ensures
            out@.shape == self@.shape,
            out.elements() == B::spec_add(
                self.elements(),
                self@.shape,
                rhs.elements(),
                rhs@.shape,
            ),
    {
        let mut out = self;
        B::add_(out.as_with_shape_mut(), rhs.as_with_shape());
        out
    }
}

impl<'a, T, const D: usize, B> AddSpecImpl<TensorRef<'a, T, D, B>> for Tensor<T, D, B> where
    T: Element,
    B: FTensorNum<T, D>,
{
    open spec fn obeys_add_spec() -> bool {
        false
    }

    open spec fn add_req(self, rhs: TensorRef<'a, T, D, B>) -> bool {
        self@.shape.broadcasts_from(rhs@.shape)
    }

    open spec fn add_spec(self, rhs: TensorRef<'a, T, D, B>) -> Tensor<T, D, B> {
        arbitrary()
    }
}

impl<T, const D: usize, B> Add<T> for Tensor<T, D, B> where
    T: Element,
    B: FTensorNum<T, D>,
    ConstUsize<D>: Equals<1>,
{
    type Output = Tensor<T, D, B>;

    /// `self + rhs` for a scalar `rhs`, computed in the array of `self`.
    fn add(self, rhs: T) -> (out: Tensor<T, D, B>)
        ensures
            out@.shape == self@.shape,
            out.elements() == B::spec_add_scalar(self.elements(), self@.shape, rhs),
    {
        let mut out = self;
        B::add_scalar_(out.as_with_shape_mut(), rhs);
        out
    }
}

impl<T, const D: usize, B> AddSpecImpl<T> for Tensor<T, D, B> where
    T: Element,
    B: FTensorNum<T, D>,
    ConstUsize<D>: Equals<1>,
{
    open spec fn obeys_add_spec() -> bool {
        false
    }

    open spec fn add_req(self, rhs: T) -> bool {
        true
    }

    open spec fn add_spec(self, rhs: T) -> Tensor<T, D, B> {
        arbitrary()
    }
}

impl<'a, 'b, T, const D: usize, B> Add<TensorRef<'b, T, D, B>> for TensorRef<'a, T, D, B> where
    T: Element,
    B: FTensorNum<T, D>,
{
    type Output = Tensor<T, D, B>;

    /// `self + rhs` in a new array.
    fn add(self, rhs: TensorRef<'b, T, D, B>) -> (out: Tensor<T, D, B>)
        ensures
            out@.shape == self@.shape,
            out.elements() == B::spec_add(
                self.elements(),
                self@.shape,
                rhs.elements(),
                rhs@.shape,
            ),
    {
        let shape = *self.shape_ref();
        Tensor::new(B::add(self.as_with_shape(), rhs.as_with_shape()), shape)
    }
}

impl<'a, 'b, T, const D: usize, B> AddSpecImpl<TensorRef<'b, T, D, B>> for TensorRef<'a, T, D, B> where
    T: Element,
    B: FTensorNum<T, D>,
{
    open spec fn obeys_add_spec() -> bool {
        false
    }

    open spec fn add_req(self, rhs: TensorRef<'b, T, D, B>) -> bool {
        self@.shape.broadcasts_from(rhs@.shape)
    }

    open spec fn add_spec(self, rhs: TensorRef<'b, T, D, B>) -> Tensor<T, D, B> {
        arbitrary()
    }
}

impl<'a, T, const D: usize, B> Add<T> for TensorRef<'a, T, D, B> where
    T: Element,
    B: FTensorNum<T, D>,
    ConstUsize<D>: Equals<1>,
{
    type Output = Tensor<T, D, B>;

    /// `self + rhs` for a scalar `rhs`, in a new array.
    fn add(self, rhs: T) -> (out: Tensor<T, D, B>)
        ensures
            out@.shape == self@.shape,
            out.elements() == B::spec_add_scalar(self.elements(), self@.shape, rhs),
    {
        let shape = *self.shape_ref();
        Tensor::new(B::add_scalar(self.as_with_shape(), rhs), shape)
    }
}

impl<'a, T, const D: usize, B> AddSpecImpl<T> for TensorRef<'a, T, D, B> where
    T: Element,
    B: FTensorNum<T, D>,
    ConstUsize<D>: Equals<1>,
{
    open spec fn obeys_add_spec() -> bool {
        false
    }

    open spec fn add_req(self, rhs: T) -> bool {
        true
    }

    open spec fn add_spec(self, rhs: T) -> Tensor<T, D, B> {
        arbitrary()
    }
}

impl<T, const D: usize, B> Sub<Tensor<T, D, B>> for Tensor<T, D, B> where
    T: Element,
    B: FTensorNum<T, D>,
{
    type Output = Tensor<T, D, B>;

    /// `self - rhs`, computed in the array of `self`.
    fn sub(self, rhs: Tensor<T, D, B>) -> (out: Tensor<T, D, B>)
        ensures
            out@.shape == self@.shape,
            out.elements() == B::spec_sub(
                self.elements(),
                self@.shape,
                rhs.elements(),
                rhs@.shape,
            ),
    {
        let mut out = self;
        B::sub_(out.as_with_shape_mut(), rhs.as_with_shape());
        out
    }
}

impl<T, const D: usize, B> SubSpecImpl<Tensor<T, D, B>> for Tensor<T, D, B> where
    T: Element,
    B: FTensorNum<T, D>,
{
    open spec fn obeys_sub_spec() -> bool {
        false
    }

    open spec fn sub_req(self, rhs: Tensor<T, D, B>) -> bool {
        self@.shape.broadcasts_from(rhs@.shape)
    }

    open spec fn sub_spec(self, rhs: Tensor<T, D, B>) -> Tensor<T, D, B> {
        arbitrary()
    }
}

impl<'a, T, const D: usize, B> Sub<TensorRef<'a, T, D, B>> for Tensor<T, D, B> where
    T: Element,
    B: FTensorNum<T, D>,
{
    type Output = Tensor<T, D, B>;

    /// `self - rhs`, computed in the array of `self`.
    fn sub(self, rhs: TensorRef<'a, T, D, B>) -> (out: Tensor<T, D, B>)
        ensures
            out@.shape == self@.shape,
            out.elements() == B::spec_sub(
                self.elements(),
                self@.shape,
                rhs.elements(),
                rhs@.shape,
            ),
    {
        let mut out = self;
        B::sub_(out.as_with_shape_mut(), rhs.as_with_shape());
        out
    }
}

impl<'a, T, const D: usize, B> SubSpecImpl<TensorRef<'a, T, D, B>> for Tensor<T, D, B> where
    T: Element,
    B: FTensorNum<T, D>,
{
    open spec fn obeys_sub_spec() -> bool {
        false
    }

    open spec fn sub_req(self, rhs: TensorRef<'a, T, D, B>) -> bool {
        self@.shape.broadcasts_from(rhs@.shape)
    }

    open spec fn sub_spec(self, rhs: TensorRef<'a, T, D, B>) -> Tensor<T, D, B> {
        arbitrary()
    }
}

impl<T, const D: usize, B> Sub<T> for Tensor<T, D, B> where
    T: Element,
    B: FTensorNum<T, D>,
    ConstUsize<D>: Equals<1>,
{
    type Output = Tensor<T, D, B>;

    /// `self - rhs` for a scalar `rhs`, computed in the array of `self`.
    fn sub(self, rhs: T) -> (out: Tensor<T, D, B>)
        ensures
            out@.shape == self@.shape,
            out.elements() == B::spec_sub_scalar(self.elements(), self@.shape, rhs),
    {
        let mut out = self;
        B::sub_scalar_(out.as_with_shape_mut(), rhs);
        out
    }
}

impl<T, const D: usize, B> SubSpecImpl<T> for Tensor<T, D, B> where
    T: Element,
    B: FTensorNum<T, D>,
    ConstUsize<D>: Equals<1>,
{
    open spec fn obeys_sub_spec() -> bool {
        false
    }

    open spec fn sub_req(self, rhs: T) -> bool {
        true
    }

    open spec fn sub_spec(self, rhs: T) -> Tensor<T, D, B> {
        arbitrary()
    }
}

impl<'a, 'b, T, const D: usize, B> Sub<TensorRef<'b, T, D, B>> for TensorRef<'a, T, D, B> where
    T: Element,
    B: FTensorNum<T, D>,
{
    type Output = Tensor<T, D, B>;

    /// `self - rhs` in a new array.
    fn sub(self, rhs: TensorRef<'b, T, D, B>) -> (out: Tensor<T, D, B>)
        ensures
            out@.shape == self@.shape,
            out.elements() == B::spec_sub(
                self.elements(),
                self@.shape,
                rhs.elements(),
                rhs@.shape,
            ),
    {
        let shape = *self.shape_ref();
        Tensor::new(B::sub(self.as_with_shape(), rhs.as_with_shape()), shape)
    }
}

impl<'a, 'b, T, const D: usize, B> SubSpecImpl<TensorRef<'b, T, D, B>> for TensorRef<'a, T, D, B> where
    T: Element,
    B: FTensorNum<T, D>,
{
    open spec fn obeys_sub_spec() -> bool {
        false
    }

    open spec fn sub_req(self, rhs: TensorRef<'b, T, D, B>) -> bool {
        self@.shape.broadcasts_from(rhs@.shape)
    }

    open spec fn sub_spec(self, rhs: TensorRef<'b, T, D, B>) -> Tensor<T, D, B> {
        arbitrary()
    }
}

impl<'a, T, const D: usize, B> Sub<T> for TensorRef<'a, T, D, B> where
    T: Element,
    B: FTensorNum<T, D>,
    ConstUsize<D>: Equals<1>,
{
    type Output = Tensor<T, D, B>;

    /// `self - rhs` for a scalar `rhs`, in a new array.
    fn sub(self, rhs: T) -> (out: Tensor<T, D, B>)
        ensures
            out@.shape == self@.shape,
            out.elements() == B::spec_sub_scalar(self.elements(), self@.shape, rhs),
    {
        let shape = *self.shape_ref();
        Tensor::new(B::sub_scalar(self.as_with_shape(), rhs), shape)
    }
}

impl<'a, T, const D: usize, B> SubSpecImpl<T> for TensorRef<'a, T, D, B> where
    T: Element,
    B: FTensorNum<T, D>,
    ConstUsize<D>: Equals<1>,
{
    open spec fn obeys_sub_spec() -> bool {
        false
    }

    open spec fn sub_req(self, rhs: T) -> bool {
        true
    }

    open spec fn sub_spec(self, rhs: T) -> Tensor<T, D, B> {
        arbitrary()
    }
}

impl<T, const D: usize, B> Mul<Tensor<T, D, B>> for Tensor<T, D, B> where
    T: Element,
    B: FTensorNum<T, D>,
{
    type Output = Tensor<T, D, B>;

    /// `self * rhs`, computed in the array of `self`.
    fn mul(self, rhs: Tensor<T, D, B>) -> (out: Tensor<T, D, B>)
        ensures
            out@.shape == self@.shape,
            out.elements() == B::spec_mul(
                self.elements(),
                self@.shape,
                rhs.elements(),
                rhs@.shape,
            ),
    {
        let mut out = self;
        B::mul_(out.as_with_shape_mut(), rhs.as_with_shape());
        out
    }
}

impl<T, const D: usize, B> MulSpecImpl<Tensor<T, D, B>> for Tensor<T, D, B> where
    T: Element,
    B: FTensorNum<T, D>,
{
    open spec fn obeys_mul_spec() -> bool {
        false
    }

    open spec fn mul_req(self, rhs: Tensor<T, D, B>) -> bool {
        self@.shape.broadcasts_from(rhs@.shape)
    }

    open spec fn mul_spec(self, rhs: Tensor<T, D, B>) -> Tensor<T, D, B> {
        arbitrary()
    }
}

impl<'a, T, const D: usize, B> Mul<TensorRef<'a, T, D, B>> for Tensor<T, D, B> where
    T: Element,
    B: FTensorNum<T, D>,
{
    type Output = Tensor<T, D, B>;

    /// `self * rhs`, computed in the array of `self`.
    fn mul(self, rhs: TensorRef<'a, T, D, B>) -> (out: Tensor<T, D, B>)
        ensures
            out@.shape == self@.shape,
            out.elements() == B::spec_mul(
                self.elements(),
                self@.shape,
                rhs.elements(),
                rhs@.shape,
            ),
    {
        let mut out = self;
        B::mul_(out.as_with_shape_mut(), rhs.as_with_shape());
        out
    }
}

impl<'a, T, const D: usize, B> MulSpecImpl<TensorRef<'a, T, D, B>> for Tensor<T, D, B> where
    T: Element,
    B: FTensorNum<T, D>,
{
    open spec fn obeys_mul_spec() -> bool {
        false
    }

    open spec fn mul_req(self, rhs: TensorRef<'a, T, D, B>) -> bool {
        self@.shape.broadcasts_from(rhs@.shape)
    }

    open spec fn mul_spec(self, rhs: TensorRef<'a, T, D, B>) -> Tensor<T, D, B> {
        arbitrary()
    }
}

impl<T, const D: usize, B> Mul<T> for Tensor<T, D, B> where
    T: Element,
    B: FTensorNum<T, D>,
    ConstUsize<D>: Equals<1>,
{
    type Output = Tensor<T, D, B>;

    /// `self * rhs` for a scalar `rhs`, computed in the array of `self`.
    fn mul(self, rhs: T) -> (out: Tensor<T, D, B>)
        ensures
            out@.shape == self@.shape,
            out.elements() == B::spec_mul_scalar(self.elements(), self@.shape, rhs),
    {
        let mut out = self;
        B::mul_scalar_(out.as_with_shape_mut(), rhs);
        out
    }
}

impl<T, const D: usize, B> MulSpecImpl<T> for Tensor<T, D, B> where
    T: Element,
    B: FTensorNum<T, D>,
    ConstUsize<D>: Equals<1>,
{
    open spec fn obeys_mul_spec() -> bool {
        false
    }

    open spec fn mul_req(self, rhs: T) -> bool {
        true
    }

    open spec fn mul_spec(self, rhs: T) -> Tensor<T, D, B> {
        arbitrary()
    }
}

impl<'a, 'b, T, const D: usize, B> Mul<TensorRef<'b, T, D, B>> for TensorRef<'a, T, D, B> where
    T: Element,
    B: FTensorNum<T, D>,
{
    type Output = Tensor<T, D, B>;

    /// `self * rhs` in a new array.
    fn mul(self, rhs: TensorRef<'b, T, D, B>) -> (out: Tensor<T, D, B>)
        ensures
            out@.shape == self@.shape,
            out.elements() == B::spec_mul(
                self.elements(),
                self@.shape,
                rhs.elements(),
                rhs@.shape,
            ),
    {
        let shape = *self.shape_ref();
        Tensor::new(B::mul(self.as_with_shape(), rhs.as_with_shape()), shape)
    }
}

impl<'a, 'b, T, const D: usize, B> MulSpecImpl<TensorRef<'b, T, D, B>> for TensorRef<'a, T, D, B> where
    T: Element,
    B: FTensorNum<T, D>,
{
    open spec fn obeys_mul_spec() -> bool {
        false
    }

    open spec fn mul_req(self, rhs: TensorRef<'b, T, D, B>) -> bool {
        self@.shape.broadcasts_from(rhs@.shape)
    }

    open spec fn mul_spec(self, rhs: TensorRef<'b, T, D, B>) -> Tensor<T, D, B> {
        arbitrary()
    }
}

impl<'a, T, const D: usize, B> Mul<T> for TensorRef<'a, T, D, B> where
    T: Element,
    B: FTensorNum<T, D>,
    ConstUsize<D>: Equals<1>,
{
    type Output = Tensor<T, D, B>;

    /// `self * rhs` for a scalar `rhs`, in a new array.
    fn mul(self, rhs: T) -> (out: Tensor<T, D, B>)
        ensures
            out@.shape == self@.shape,
            out.elements() == B::spec_mul_scalar(self.elements(), self@.shape, rhs),
    {
        let shape = *self.shape_ref();
        Tensor::new(B::mul_scalar(self.as_with_shape(), rhs), shape)
    }
}

impl<'a, T, const D: usize, B> MulSpecImpl<T> for TensorRef<'a, T, D, B> where
    T: Element,
    B: FTensorNum<T, D>,
    ConstUsize<D>: Equals<1>,
{
    open spec fn obeys_mul_spec() -> bool {
        false
    }

    open spec fn mul_req(self, rhs: T) -> bool {
        true
    }

    open spec fn mul_spec(self, rhs: T) -> Tensor<T, D, B> {
        arbitrary()
    }
}

impl<T, const D: usize, B> Div<Tensor<T, D, B>> for Tensor<T, D, B> where
    T: Element,
    B: FTensorNum<T, D>,
{
    type Output = Tensor<T, D, B>;

    /// `self / rhs`, computed in the array of `self`.
    fn div(self, rhs: Tensor<T, D, B>) -> (out: Tensor<T, D, B>)
        ensures
            out@.shape == self@.shape,
            out.elements() == B::spec_div(
                self.elements(),
                self@.shape,
                rhs.elements(),
                rhs@.shape,
            ),
    {
        let mut out = self;
        B::div_(out.as_with_shape_mut(), rhs.as_with_shape());
        out
    }
}

impl<T, const D: usize, B> DivSpecImpl<Tensor<T, D, B>> for Tensor<T, D, B> where
    T: Element,
    B: FTensorNum<T, D>,
{
    open spec fn obeys_div_spec() -> bool {
        false
    }

    open spec fn div_req(self, rhs: Tensor<T, D, B>) -> bool {
        self@.shape.broadcasts_from(rhs@.shape)
    }

    open spec fn div_spec(self, rhs: Tensor<T, D, B>) -> Tensor<T, D, B> {
        arbitrary()
    }
}

impl<'a, T, const D: usize, B> Div<TensorRef<'a, T, D, B>> for Tensor<T, D, B> where
    T: Element,
    B: FTensorNum<T, D>,
{
    type Output = Tensor<T, D, B>;

    /// `self / rhs`, computed in the array of `self`.
    fn div(self, rhs: TensorRef<'a, T, D, B>) -> (out: Tensor<T, D, B>)
        ensures
            out@.shape == self@.shape,
            out.elements() == B::spec_div(
                self.elements(),
                self@.shape,
                rhs.elements(),
                rhs@.shape,
            ),
    {
        let mut out = self;
        B::div_(out.as_with_shape_mut(), rhs.as_with_shape());
        out
    }
}

impl<'a, T, const D: usize, B> DivSpecImpl<TensorRef<'a, T, D, B>> for Tensor<T, D, B> where
    T: Element,
    B: FTensorNum<T, D>,
{
    open spec fn obeys_div_spec() -> bool {
        false
    }

    open spec fn div_req(self, rhs: TensorRef<'a, T, D, B>) -> bool {
        self@.shape.broadcasts_from(rhs@.shape)
    }

    open spec fn div_spec(self, rhs: TensorRef<'a, T, D, B>) -> Tensor<T, D, B> {
        arbitrary()
    }
}

impl<T, const D: usize, B> Div<T> for Tensor<T, D, B> where
    T: Element,
    B: FTensorNum<T, D>,
    ConstUsize<D>: Equals<1>,
{
    type Output = Tensor<T, D, B>;

    /// `self / rhs` for a scalar `rhs`, computed in the array of `self`.
    fn div(self, rhs: T) -> (out: Tensor<T, D, B>)
        ensures
            out@.shape == self@.shape,
            out.elements() == B::spec_div_scalar(self.elements(), self@.shape, rhs),
    {
        let mut out = self;
        B::div_scalar_(out.as_with_shape_mut(), rhs);
        out
    }
}

impl<T, const D: usize, B> DivSpecImpl<T> for Tensor<T, D, B> where
    T: Element,
    B: FTensorNum<T, D>,
    ConstUsize<D>: Equals<1>,
{
    open spec fn obeys_div_spec() -> bool {
        false
    }

    open spec fn div_req(self, rhs: T) -> bool {
        true
    }

    open spec fn div_spec(self, rhs: T) -> Tensor<T, D, B> {
        arbitrary()
    }
}

impl<'a, 'b, T, const D: usize, B> Div<TensorRef<'b, T, D, B>> for TensorRef<'a, T, D, B> where
    T: Element,
    B: FTensorNum<T, D>,
{
    type Output = Tensor<T, D, B>;

    /// `self / rhs` in a new array.
    fn div(self, rhs: TensorRef<'b, T, D, B>) -> (out: Tensor<T, D, B>)
        ensures
            out@.shape == self@.shape,
            out.elements() == B::spec_div(
                self.elements(),
                self@.shape,
                rhs.elements(),
                rhs@.shape,
            ),
    {
        let shape = *self.shape_ref();
        Tensor::new(B::div(self.as_with_shape(), rhs.as_with_shape()), shape)
    }
}

impl<'a, 'b, T, const D: usize, B> DivSpecImpl<TensorRef<'b, T, D, B>> for TensorRef<'a, T, D, B> where
    T: Element,
    B: FTensorNum<T, D>,
{
    open spec fn obeys_div_spec() -> bool {
        false
    }

    open spec fn div_req(self, rhs: TensorRef<'b, T, D, B>) -> bool {
        self@.shape.broadcasts_from(rhs@.shape)
    }

    open spec fn div_spec(self, rhs: TensorRef<'b, T, D, B>) -> Tensor<T, D, B> {
        arbitrary()
    }
}

impl<'a, T, const D: usize, B> Div<T> for TensorRef<'a, T, D, B> where
    T: Element,
    B: FTensorNum<T, D>,
    ConstUsize<D>: Equals<1>,
{
    type Output = Tensor<T, D, B>;

    /// `self / rhs` for a scalar `rhs`, in a new array.
    fn div(self, rhs: T) -> (out: Tensor<T, D, B>)
        ensures
            out@.shape == self@.shape,
            out.elements() == B::spec_div_scalar(self.elements(), self@.shape, rhs),
    {
        let shape = *self.shape_ref();
        Tensor::new(B::div_scalar(self.as_with_shape(), rhs), shape)
    }
}

impl<'a, T, const D: usize, B> DivSpecImpl<T> for TensorRef<'a, T, D, B> where
    T: Element,
    B: FTensorNum<T, D>,
    ConstUsize<D>: Equals<1>,
{
    open spec fn obeys_div_spec() -> bool {
        false
    }

    open spec fn div_req(self, rhs: T) -> bool {
        true
    }

    open spec fn div_spec(self, rhs: T) -> Tensor<T, D, B> {
        arbitrary()
    }
}

/// Assignment in the tensor's own array.
impl<T: Element, const D: usize, B: FTensorNum<T, D>> Tensor<T, D, B> {
    /// `self += rhs`: the sum replaces the contents of `self`.
    pub fn add_assign(&mut self, rhs: TensorRef<'_, T, D, B>)
        requires
            old(self)@.shape.broadcasts_from(rhs@.shape),
        ensures
            final(self)@.shape == old(self)@.shape,
            final(self).elements() == B::spec_add(
                old(self).elements(),
                old(self)@.shape,
                rhs.elements(),
                rhs@.shape,
            ),
    {
        B::add_(self.as_with_shape_mut(), rhs.as_with_shape());
    }
    /// `self += rhs` for a scalar `rhs`.
    pub fn add_assign_scalar(&mut self, rhs: T)
        where ConstUsize<D>: Equals<1>,
        ensures
            final(self)@.shape == old(self)@.shape,
            final(self).elements() == B::spec_add_scalar(
                old(self).elements(),
                old(self)@.shape,
                rhs,
            ),
    {
        B::add_scalar_(self.as_with_shape_mut(), rhs);
    }

    /// `self -= rhs`: the difference replaces the contents of `self`.
    pub fn sub_assign(&mut self, rhs: TensorRef<'_, T, D, B>)
        requires
            old(self)@.shape.broadcasts_from(rhs@.shape),
        ensures
            final(self)@.shape == old(self)@.shape,
            final(self).elements() == B::spec_sub(
                old(self).elements(),
                old(self)@.shape,
                rhs.elements(),
                rhs@.shape,
            ),
    {
        B::sub_(self.as_with_shape_mut(), rhs.as_with_shape());
    }

    /// `self -= rhs` for a scalar `rhs`.
    pub fn sub_assign_scalar(&mut self, rhs: T)
        where ConstUsize<D>: Equals<1>,
        ensures
            final(self)@.shape == old(self)@.shape,
            final(self).elements() == B::spec_sub_scalar(
                old(self).elements(),
                old(self)@.shape,
                rhs,
            ),
    {
        B::sub_scalar_(self.as_with_shape_mut(), rhs);
    }

    /// `self *= rhs`: the product replaces the contents of `self`.
    pub fn mul_assign(&mut self, rhs: TensorRef<'_, T, D, B>)
        requires
            old(self)@.shape.broadcasts_from(rhs@.shape),
        ensures
            final(self)@.shape == old(self)@.shape,
            final(self).elements() == B::spec_mul(
                old(self).elements(),
                old(self)@.shape,
                rhs.elements(),
                rhs@.shape,
            ),
    {
        B::mul_(self.as_with_shape_mut(), rhs.as_with_shape());
    }

    /// `self *= rhs` for a scalar `rhs`.
    pub fn mul_assign_scalar(&mut self, rhs: T)
        where ConstUsize<D>: Equals<1>,
        ensures
            final(self)@.shape == old(self)@.shape,
            final(self).elements() == B::spec_mul_scalar(
                old(self).elements(),
                old(self)@.shape,
                rhs,
            ),
    {
        B::mul_scalar_(self.as_with_shape_mut(), rhs);
    }

    /// `self /= rhs`: the quotient replaces the contents of `self`.
    pub fn div_assign(&mut self, rhs: TensorRef<'_, T, D, B>)
        requires
            old(self)@.shape.broadcasts_from(rhs@.shape),
        ensures
            final(self)@.shape == old(self)@.shape,
            final(self).elements() == B::spec_div(
                old(self).elements(),
                old(self)@.shape,
                rhs.elements(),
                rhs@.shape,
            ),
    {
        B::div_(self.as_with_shape_mut(), rhs.as_with_shape());
    }

    /// `self /= rhs` for a scalar `rhs`.
    pub fn div_assign_scalar(&mut self, rhs: T)
        where ConstUsize<D>: Equals<1>,
        ensures
            final(self)@.shape == old(self)@.shape,
            final(self).elements() == B::spec_div_scalar(
                old(self).elements(),
                old(self)@.shape,
                rhs,
            ),
    {
        B::div_scalar_(self.as_with_shape_mut(), rhs);
    }
}

/// Assignment in the borrowed array. Each method uses up the tensor: the
/// borrow ends with the call, and the holder of the array finds the result in
/// it.
impl<'a, T: Element, const D: usize, B: FTensorNum<T, D>> TensorMut<'a, T, D, B> {
    /// `self += rhs`: the sum replaces the contents of the borrowed
    /// array.
    pub fn add_assign(self, rhs: TensorRef<'_, T, D, B>)
        requires
            self@.shape.broadcasts_from(rhs@.shape),
        ensures
            B::elements(final(self.array)) == B::spec_add(
                self.elements(),
                self@.shape,
                rhs.elements(),
                rhs@.shape,
            ),
    {
        let TensorMut { array, shape } = self;
        B::add_(WithShape { array, shape }, rhs.as_with_shape());
    }

    /// `self += rhs` for a scalar `rhs`.
    pub fn add_assign_scalar(self, rhs: T)
        where ConstUsize<D>: Equals<1>,
        ensures
            B::elements(final(self.array)) == B::spec_add_scalar(
                self.elements(),
                self@.shape,
                rhs,
            ),
    {
        let TensorMut { array, shape } = self;
        B::add_scalar_(WithShape { array, shape }, rhs);
    }

    /// `self -= rhs`: the difference replaces the contents of the borrowed
    /// array.
    pub fn sub_assign(self, rhs: TensorRef<'_, T, D, B>)
        requires
            self@.shape.broadcasts_from(rhs@.shape),
        ensures
            B::elements(final(self.array)) == B::spec_sub(
                self.elements(),
                self@.shape,
                rhs.elements(),
                rhs@.shape,
            ),
    {
        let TensorMut { array, shape } = self;
        B::sub_(WithShape { array, shape }, rhs.as_with_shape());
    }

    /// `self -= rhs` for a scalar `rhs`.
    pub fn sub_assign_scalar(self, rhs: T)
        where ConstUsize<D>: Equals<1>,
        ensures
            B::elements(final(self.array)) == B::spec_sub_scalar(
                self.elements(),
                self@.shape,
                rhs,
            ),
    {
        let TensorMut { array, shape } = self;
        B::sub_scalar_(WithShape { array, shape }, rhs);
    }

    /// `self *= rhs`: the product replaces the contents of the borrowed
    /// array.
    pub fn mul_assign(self, rhs: TensorRef<'_, T, D, B>)
        requires
            self@.shape.broadcasts_from(rhs@.shape),
        ensures
            B::elements(final(self.array)) == B::spec_mul(
                self.elements(),
                self@.shape,
                rhs.elements(),
                rhs@.shape,
            ),
    {
        let TensorMut { array, shape } = self;
        B::mul_(WithShape { array, shape }, rhs.as_with_shape());
    }

    /// `self *= rhs` for a scalar `rhs`.
    pub fn mul_assign_scalar(self, rhs: T)
        where ConstUsize<D>: Equals<1>,
        ensures
            B::elements(final(self.array)) == B::spec_mul_scalar(
                self.elements(),
                self@.shape,
                rhs,
            ),
    {
        let TensorMut { array, shape } = self;
        B::mul_scalar_(WithShape { array, shape }, rhs);
    }

    /// `self /= rhs`: the quotient replaces the contents of the borrowed
    /// array.
    pub fn div_assign(self, rhs: TensorRef<'_, T, D, B>)
        requires
            self@.shape.broadcasts_from(rhs@.shape),
        ensures
            B::elements(final(self.array)) == B::spec_div(
                self.elements(),
                self@.shape,
                rhs.elements(),
                rhs@.shape,
            ),
    {
        let TensorMut { array, shape } = self;
        B::div_(WithShape { array, shape }, rhs.as_with_shape());
    }

    /// `self /= rhs` for a scalar `rhs`.
    pub fn div_assign_scalar(self, rhs: T)
        where ConstUsize<D>: Equals<1>,
        ensures
            B::elements(final(self.array)) == B::spec_div_scalar(
                self.elements(),
                self@.shape,
                rhs,
            ),
    {
        let TensorMut { array, shape } = self;
        B::div_scalar_(WithShape { array, shape }, rhs);
    }
}

} // verus!
