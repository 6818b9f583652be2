//! Backend-independent tensors: a rank-checked shape type, the contracts a
//! compute backend has to meet, the operations derived from them, a registry
//! that keeps one device per backend, and tensor types with arithmetic.

pub mod backend;
pub mod device;
pub mod feature;
pub mod ops;
pub mod shape;
pub mod tensor;

pub use crate::backend::{Backend, Element};
pub use crate::device::{DeviceRegistry, DeviceSlot, GetDevice};
pub use crate::feature::{ConstUsize, Equals, FArray, FTensor, FTensorBool, FTensorNum};
pub use crate::shape::{Shape, WithShape};
pub use crate::tensor::{ArrayAsMut, Tensor, TensorAsRef, TensorExt, TensorMut, TensorRef};
