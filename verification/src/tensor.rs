//! Tensors: an array of a backend together with the shape it is read with.
//!
//! The view of a tensor is that pair. A tensor is well formed when the array
//! holds as many elements as the shape counts; a reshape is legal between
//! shapes of equal counts, and so keeps a tensor well formed.

use crate::device::DeviceRegistry;
use crate::feature::FArray;
use crate::shape::{lemma_product_push, product, Shape, WithShape};
use vstd::prelude::*;

verus! {

/// A tensor that borrows its array.
#[derive(Debug, Copy, Clone)]
pub struct TensorRef<'a, T, const D: usize, B: FArray<T>> {
    array: &'a B::Array,
    shape: Shape<D>,
}

/// A tensor that borrows its array for writing. The fields are open so that
/// a contract can say what the holder of the array finds in it afterwards.
#[derive(Debug)]
pub struct TensorMut<'a, T, const D: usize, B: FArray<T>> {
    pub array: &'a mut B::Array,
    pub shape: Shape<D>,
}

/// A tensor that owns its array.
#[derive(Debug, Clone)]
pub struct Tensor<T, const D: usize, B: FArray<T>> {
    array: B::Array,
    shape: Shape<D>,
}

/// Whether the array of `pair` holds as many elements as its shape counts.
pub open spec fn well_formed<T, const D: usize, B: FArray<T>>(pair: WithShape<B::Array, D>) -> bool {
    B::elements(&pair.array).len() == pair.shape.spec_num_elements()
}

/// A legal reshape of a well-formed tensor gives a well-formed tensor.
pub proof fn lemma_reshape_keeps_well_formed<T, const D: usize, const D2: usize, B: FArray<T>>(
    pair: WithShape<B::Array, D>,
    shape: Shape<D2>,
)
    requires
        well_formed::<T, D, B>(pair),
        pair.shape.reshapes_to(shape),
    ensures
        well_formed::<T, D2, B>(WithShape { array: pair.array, shape }),
{
}

impl<'a, T, const D: usize, B: FArray<T>> View for TensorRef<'a, T, D, B> {
    type V = WithShape<B::Array, D>;

    closed spec fn view(&self) -> WithShape<B::Array, D> {
        WithShape { array: *self.array, shape: self.shape }
    }
}

impl<'a, T, const D: usize, B: FArray<T>> View for TensorMut<'a, T, D, B> {
    type V = WithShape<B::Array, D>;

    open spec fn view(&self) -> WithShape<B::Array, D> {
        WithShape { array: *self.array, shape: self.shape }
    }
}

impl<T, const D: usize, B: FArray<T>> View for Tensor<T, D, B> {
    type V = WithShape<B::Array, D>;

    closed spec fn view(&self) -> WithShape<B::Array, D> {
        WithShape { array: self.array, shape: self.shape }
    }
}

impl<'a, T, const D: usize, B: FArray<T>> TensorRef<'a, T, D, B> {
    /// The elements of the array, in storage order.
    pub open spec fn elements(&self) -> Seq<T> {
        B::elements(&self@.array)
    }

    pub fn new(array: &'a B::Array, shape: Shape<D>) -> (tensor: Self)
        ensures
            tensor@ == (WithShape { array: *array, shape }),
    {
        TensorRef { array, shape }
    }
}

impl<'a, T, const D: usize, B: FArray<T>> TensorMut<'a, T, D, B> {
    /// The elements of the array as it is now, in storage order.
    pub open spec fn elements(&self) -> Seq<T> {
        B::elements(&self@.array)
    }

    pub fn new(array: &'a mut B::Array, shape: Shape<D>) -> (tensor: Self)
        ensures
            tensor@ == (WithShape { array: *old(array), shape }),
            *final(tensor.array) == *final(array),
    {
        TensorMut { array, shape }
    }
}

impl<T, const D: usize, B: FArray<T>> Tensor<T, D, B> {
    /// The elements of the array, in storage order.
    pub open spec fn elements(&self) -> Seq<T> {
        B::elements(&self@.array)
    }

    pub fn new(array: B::Array, shape: Shape<D>) -> (tensor: Self)
        ensures
            tensor@ == (WithShape { array, shape }),
    {
        Tensor { array, shape }
    }

    pub fn shape(&self) -> (shape: Shape<D>)
        ensures
            shape == self@.shape,
    {
        self.shape
    }

    /// Gives the tensor another shape of the same rank. The array is not
    /// touched.
    pub fn reshape(&mut self, shape: Shape<D>)
        requires
            old(self)@.shape.reshapes_to(shape),
        ensures
            final(self)@ == (WithShape { array: old(self)@.array, shape }),
    {
        self.shape.assert_reshape(shape);
        self.shape = shape;
    }

    /// The tensor under another shape, of any rank. The array moves over as
    /// it is.
    pub fn into_shape<const D2: usize>(self, shape: Shape<D2>) -> (reshaped: Tensor<T, D2, B>)
        requires
            self@.shape.reshapes_to(shape),
        ensures
            reshaped@ == (WithShape { array: self@.array, shape }),
    {
        self.shape.assert_reshape(shape);
        Tensor { array: self.array, shape }
    }

    /// A tensor that borrows this one's array, with the same shape.
    pub fn as_ref(&self) -> (borrowed: TensorRef<'_, T, D, B>)
        ensures
            borrowed@ == self@,
    {
        TensorRef { array: &self.array, shape: self.shape }
    }

    /// A tensor that borrows this one's array for writing, with the same
    /// shape. What is written through it is in this tensor afterwards.
    pub fn as_mut(&mut self) -> (borrowed: TensorMut<'_, T, D, B>)
        ensures
            borrowed@ == old(self)@,
            final(self)@ == (WithShape { array: *final(borrowed.array), shape: old(self)@.shape }),
    {
        TensorMut { array: &mut self.array, shape: self.shape }
    }

    /// A tensor that borrows this one's array under another shape, of any
    /// rank.
    pub fn with_shape<const D2: usize>(&self, shape: Shape<D2>) -> (reshaped: TensorRef<
        '_,
        T,
        D2,
        B,
    >)
        requires
            self@.shape.reshapes_to(shape),
        ensures
            reshaped@ == (WithShape { array: self@.array, shape }),
    {
        self.shape.assert_reshape(shape);
        TensorRef { array: &self.array, shape }
    }

    /// The array and the shape as the operations of a backend take them.
    pub fn as_with_shape(&self) -> (pair: WithShape<&B::Array, D>)
        ensures
            *pair.array == self@.array,
            pair.shape == self@.shape,
    {
        WithShape { array: &self.array, shape: self.shape }
    }

    /// The array and the shape as the in-place operations of a backend take
    /// them. What is written through the pair is in this tensor afterwards.
    pub fn as_with_shape_mut(&mut self) -> (pair: WithShape<&mut B::Array, D>)
        ensures
            *pair.array == old(self)@.array,
            pair.shape == old(self)@.shape,
            final(self)@ == (WithShape { array: *final(pair.array), shape: old(self)@.shape }),
    {
        WithShape { array: &mut self.array, shape: self.shape }
    }

    /// The array, without the shape.
    pub fn into_array(self) -> (array: B::Array)
        ensures
            array == self@.array,
    {
        self.array
    }
}

impl<T, B: FArray<T>> Tensor<T, 1, B> {
    /// A tensor of rank 1 that holds `items`, on the device that `registry`
    /// has for the backend.
    pub fn from_iterator(registry: &DeviceRegistry, items: Vec<T>) -> (tensor: Self)
        ensures
            tensor.elements() == items@,
            tensor@.shape@ == seq![items.len()],
            well_formed::<T, 1, B>(tensor@),
    {
        let device = registry.device::<B>();
        let len = items.len();
        let shape = Shape::new([len]);
        proof {
            let none = Seq::<usize>::empty();
            let one = product(none);
            lemma_product_push(none, len);
            assert(none.push(len) =~= shape@);
            assert(one * (len as nat) == len) by (nonlinear_arith)
                requires
                    one == 1,
            ;
            assert(shape@ =~= seq![len]);
        }
        Tensor { array: B::from_iterator(&device, items), shape }
    }
}

/// What every borrowed tensor gives access to. The view of a tensor is the
/// array as it is now, with the shape.
pub trait TensorAsRef<'a, T, const D: usize, B: FArray<T>>: Sized + View<
    V = WithShape<B::Array, D>,
> {
    /// The same array under another shape, of any rank.
    fn reshape2<const D1: usize>(self, shape: Shape<D1>) -> (reshaped: TensorRef<'a, T, D1, B>)
        ensures
            reshaped@ == (WithShape { array: self@.array, shape }),
    ;

    fn array_ref(&self) -> (array: &B::Array)
        ensures
            *array == self@.array,
    ;

    fn shape_ref(&self) -> (shape: &Shape<D>)
        ensures
            *shape == self@.shape,
    ;

    fn shape_mut(&mut self) -> (shape: &mut Shape<D>)
        ensures
            *shape == old(self)@.shape,
            final(self)@ == (WithShape { array: old(self)@.array, shape: *final(shape) }),
    ;

    /// The array and the shape as the operations of a backend take them.
    fn as_with_shape(&self) -> (pair: WithShape<&B::Array, D>)
        ensures
            *pair.array == self@.array,
            pair.shape == self@.shape,
    {
        WithShape { array: self.array_ref(), shape: *self.shape_ref() }
    }

    /// A tensor that borrows the same array, with the same shape.
    fn as_ref(&self) -> (borrowed: TensorRef<'_, T, D, B>)
        ensures
            borrowed@ == self@,
    {
        TensorRef { array: self.array_ref(), shape: *self.shape_ref() }
    }
}

/// What a tensor gives access to that may write its array.
pub trait ArrayAsMut<'a, T, const D: usize, B: FArray<T>>: TensorAsRef<'a, T, D, B> {
    fn array_mut(&mut self) -> (array: &mut B::Array)
        ensures
            *array == old(self)@.array,
            final(self)@ == (WithShape { array: *final(array), shape: old(self)@.shape }),
    ;

    /// The array and the shape as the in-place operations of a backend take
    /// them.
    fn as_with_shape_mut(&mut self) -> (pair: WithShape<&mut B::Array, D>)
        ensures
            *pair.array == old(self)@.array,
            pair.shape == old(self)@.shape,
            final(self)@ == (WithShape { array: *final(pair.array), shape: old(self)@.shape }),
    {
        let shape = *self.shape_ref();
        WithShape { array: self.array_mut(), shape }
    }

    /// A tensor that borrows the same array for writing, with the same shape.
    fn as_mut(&mut self) -> (borrowed: TensorMut<'_, T, D, B>)
        ensures
            borrowed@ == old(self)@,
            final(self)@ == (WithShape { array: *final(borrowed.array), shape: old(self)@.shape }),
    {
        let shape = *self.shape_ref();
        TensorMut { array: self.array_mut(), shape }
    }
}

impl<'a, T, const D: usize, B: FArray<T>> TensorAsRef<'a, T, D, B> for TensorRef<'a, T, D, B> {
    fn reshape2<const D1: usize>(self, shape: Shape<D1>) -> (reshaped: TensorRef<'a, T, D1, B>) {
        TensorRef { array: self.array, shape }
    }

    fn array_ref(&self) -> (array: &B::Array) {
        self.array
    }

    fn shape_ref(&self) -> (shape: &Shape<D>) {
        &self.shape
    }

    fn shape_mut(&mut self) -> (shape: &mut Shape<D>) {
        &mut self.shape
    }
}

impl<'a, T, const D: usize, B: FArray<T>> TensorAsRef<'a, T, D, B> for TensorMut<'a, T, D, B> {
    fn reshape2<const D1: usize>(self, shape: Shape<D1>) -> (reshaped: TensorRef<'a, T, D1, B>) {
        TensorRef { array: self.array, shape }
    }

    fn array_ref(&self) -> (array: &B::Array) {
        self.array
    }

    fn shape_ref(&self) -> (shape: &Shape<D>) {
        &self.shape
    }

    fn shape_mut(&mut self) -> (shape: &mut Shape<D>) {
        &mut self.shape
    }
}

impl<'a, T, const D: usize, B: FArray<T>> ArrayAsMut<'a, T, D, B> for TensorMut<'a, T, D, B> {
    fn array_mut(&mut self) -> (array: &mut B::Array) {
        &mut *self.array
    }
}

/// Shape queries and reshaping for every borrowed tensor.
pub trait TensorExt<'a, T, const D: usize, B: FArray<T>>: TensorAsRef<'a, T, D, B> {
    fn shape(&self) -> (shape: Shape<D>)
        ensures
            shape == self@.shape,
    {
        *self.shape_ref()
    }

    /// Gives the tensor another shape of the same rank. The array is not
    /// touched.
    fn reshape(&mut self, shape: Shape<D>)
        requires
            old(self)@.shape.reshapes_to(shape),
        ensures
            final(self)@ == (WithShape { array: old(self)@.array, shape }),
    {
        self.shape_ref().assert_reshape(shape);
        *self.shape_mut() = shape;
    }

    /// The tensor under another shape, of any rank.
    fn into_shape<const D2: usize>(self, shape: Shape<D2>) -> (reshaped: TensorRef<'a, T, D2, B>)
        requires
            self@.shape.reshapes_to(shape),
        ensures
            reshaped@ == (WithShape { array: self@.array, shape }),
    {
        self.shape_ref().assert_reshape(shape);
        self.reshape2(shape)
    }

    /// A tensor that borrows the same array under another shape, of any rank.
    fn with_shape<const D2: usize>(&self, shape: Shape<D2>) -> (reshaped: TensorRef<'_, T, D2, B>)
        requires
            self@.shape.reshapes_to(shape),
        ensures
            reshaped@ == (WithShape { array: self@.array, shape }),
    {
        self.shape_ref().assert_reshape(shape);
        self.as_ref().reshape2(shape)
    }
}

impl<'a, T, const D: usize, B: FArray<T>, X: TensorAsRef<'a, T, D, B>> TensorExt<'a, T, D, B> for X {

}

} // verus!
