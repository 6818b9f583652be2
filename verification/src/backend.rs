//! What identifies a compute backend, and what its scalars provide.

use vstd::prelude::*;

verus! {

/// A compute implementation, such as one CPU or GPU engine. The type is a
/// marker: it is named, never instantiated.
pub trait Backend: 'static {
    /// The runtime context that arrays of this backend are allocated on.
    type Device: Send + Sync;

    /// What `name` returns.
    spec fn spec_name() -> Seq<char>;

    /// The name shown for this backend.
    fn name() -> (name: String)
        ensures
            name@ == Self::spec_name(),
    ;

    /// What `default_device` builds: the same device at every call.
    spec fn spec_default_device() -> Self::Device;

    /// Builds a device with the backend's default settings. The call has no
    /// side effect; keeping a single device per backend is the registry's
    /// task.
    fn default_device() -> (device: Self::Device)
        ensures
            device == Self::spec_default_device(),
    ;
}

/// A scalar that a tensor can hold.
pub trait Element: Copy {
    /// The element that stands for the integer `n`.
    spec fn of_i32(n: i32) -> Self;

    /// The additive identity.
    fn zero() -> (e: Self)
        ensures
            e == Self::of_i32(0),
    ;

    /// The multiplicative identity.
    fn one() -> (e: Self)
        ensures
            e == Self::of_i32(1),
    ;

    /// The element that stands for `n`.
    fn from_i32(n: i32) -> (e: Self)
        ensures
            e == Self::of_i32(n),
    ;
}

} // verus!
