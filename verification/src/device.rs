//! One shared device per backend, built on first use.
//!
//! A [`DeviceSlot`] holds the device of one backend and says exactly what it
//! hands out. A [`DeviceRegistry`] keeps the slots of all backends in a map
//! keyed by the backend's type, behind a reader-writer lock. What the map
//! holds behind the lock is not visible to a contract, so the registry's own
//! functions promise nothing of the handle they return; the slot's do.

use crate::backend::Backend;
use parking_lot::lock_api::{RwLock, RwLockReadGuard, RwLockWriteGuard};
use parking_lot::RawRwLock;
use std::sync::Arc;
use type_map::concurrent::{Entry, TypeMap};
use vstd::prelude::*;

verus! {

/// `type_map::concurrent::TypeMap`: at most one value of each type, for
/// types that can be sent and shared between threads.
#[verifier::external_type_specification]
#[verifier::external_body]
pub struct ExTypeMap(TypeMap);

/// `type_map::concurrent::Entry`: the place of one type in a `TypeMap`,
/// vacant or occupied.
#[verifier::external_type_specification]
#[verifier::external_body]
#[verifier::reject_recursive_types(T)]
pub struct ExEntry<'a, T>(Entry<'a, T>);

/// `parking_lot::RawRwLock`: the lock without the data.
#[verifier::external_type_specification]
#[verifier::external_body]
pub struct ExRawRwLock(RawRwLock);

/// `lock_api::RwLock`, of which `parking_lot::RwLock<T>` is the case with
/// `RawRwLock`.
#[verifier::external_type_specification]
#[verifier::external_body]
#[verifier::reject_recursive_types(R)]
#[verifier::reject_recursive_types(T)]
pub struct ExRwLock<R, T: ?Sized>(RwLock<R, T>);

/// Shared access to the map, given up when the value is dropped. The guard
/// of `lock_api` is bounded by a trait of that crate and cannot be declared
/// to Verus as it stands, so it is kept in a struct that Verus does not look
/// into.
#[verifier::external_body]
struct SlotsRead<'a> {
    guard: RwLockReadGuard<'a, RawRwLock, TypeMap>,
}

/// Exclusive access to the map, given up when the value is dropped. Kept
/// out of Verus's sight for the same reason as `SlotsRead`.
#[verifier::external_body]
struct SlotsWrite<'a> {
    guard: RwLockWriteGuard<'a, RawRwLock, TypeMap>,
}

/// `Arc::clone`: a second handle to the same allocation, and so to the same
/// value.
#[verifier::external_body]
fn share<T>(handle: &Arc<T>) -> (shared: Arc<T>)
    ensures
        shared == *handle,
{
    Arc::clone(handle)
}

/// `TypeMap::new`: an empty map. Nothing is claimed of it.
pub assume_specification[ TypeMap::new ]() -> TypeMap;

/// `TypeMap::get`: the value of type `T` in the map, if there is one.
/// Nothing is claimed of which comes back.
pub assume_specification<T: 'static>[ TypeMap::get::<T> ](map: &TypeMap) -> Option<&T>;

/// `TypeMap::entry`: the place of type `T` in the map. Nothing is claimed of
/// it.
pub assume_specification<T: 'static + Send + Sync>[ TypeMap::entry::<T> ](
    map: &mut TypeMap,
) -> Entry<'_, T>;

/// `Entry::or_insert_with`: the value in the entry; a vacant entry is first
/// filled with what `default` returns, so `default` has to be callable.
/// Nothing is claimed of the value that comes back.
pub assume_specification<'a, T: 'static + Send + Sync, F: FnOnce() -> T>[ Entry::<
    'a,
    T,
>::or_insert_with::<F> ](entry: Entry<'a, T>, default: F) -> &'a mut T
    requires
        default.requires(()),
;

/// `RwLock::new`: an unlocked lock around `map`.
#[verifier::external_body]
fn lock_slots(map: TypeMap) -> RwLock<RawRwLock, TypeMap> {
    RwLock::new(map)
}

/// `RwLock::read`: waits until no writer holds the lock, then shares it.
#[verifier::external_body]
fn read_slots<'a>(slots: &'a RwLock<RawRwLock, TypeMap>) -> SlotsRead<'a> {
    SlotsRead { guard: slots.read() }
}

/// `RwLock::write`: waits until nobody else holds the lock, then holds it
/// alone. The caller holds no access of its own while it waits.
#[verifier::external_body]
fn write_slots<'a>(slots: &'a RwLock<RawRwLock, TypeMap>) -> SlotsWrite<'a> {
    SlotsWrite { guard: slots.write() }
}

/// `Deref::deref` of the read guard: the map behind the lock.
#[verifier::external_body]
fn slots_ref<'a, 'b>(slots: &'a SlotsRead<'b>) -> &'a TypeMap {
    &slots.guard
}

/// `DerefMut::deref_mut` of the write guard: the map behind the lock.
#[verifier::external_body]
fn slots_mut<'a, 'b>(slots: &'a mut SlotsWrite<'b>) -> &'a mut TypeMap {
    &mut slots.guard
}

/// What the registry keeps for backend `B`: its device, once there is one.
pub struct DeviceSlot<B: Backend> {
    handle: Option<Arc<B::Device>>,
}

impl<B: Backend> DeviceSlot<B> {
    /// The device in the slot, if there is one.
    pub closed spec fn handle(&self) -> Option<Arc<B::Device>> {
        self.handle
    }

    /// The device that a slot with `handle` hands out: the one it holds, or
    /// else the backend's default device.
    pub open spec fn resolve(handle: Option<Arc<B::Device>>) -> Arc<B::Device> {
        match handle {
            Some(device) => device,
            None => Arc::new(B::spec_default_device()),
        }
    }

    /// A slot without a device.
    pub fn vacant() -> (slot: Self)
        ensures
            slot.handle() is None,
    {
        DeviceSlot { handle: None }
    }

    /// The device in the slot, if there is one.
    pub fn get(&self) -> (found: Option<Arc<B::Device>>)
        ensures
            found == self.handle(),
    {
        match &self.handle {
            Some(device) => Some(share(device)),
            None => None,
        }
    }

    /// The device in the slot that a lookup found, if it found a slot and the
    /// slot holds one.
    pub fn get_if_present(found: Option<&Self>) -> (device: Option<Arc<B::Device>>)
        ensures
            device == match found {
                Some(slot) => slot.handle(),
                None => None,
            },
    {
        match found {
            Some(slot) => slot.get(),
            None => None,
        }
    }

    /// The device in the slot. An empty slot is first filled with the
    /// backend's default device, which is built here and nowhere else; a
    /// filled slot is left as it is.
    pub fn get_or_create(&mut self) -> (device: Arc<B::Device>)
        ensures
            device == Self::resolve(old(self).handle()),
            final(self).handle() == Some(device),
    {
        match &self.handle {
            Some(device) => share(device),
            None => {
                let device = Arc::new(B::default_device());
                self.handle = Some(share(&device));
                device
            },
        }
    }

    /// Puts `device` in the slot, in place of what was there.
    pub fn set(&mut self, device: Arc<B::Device>)
        ensures
            final(self).handle() == Some(device),
    {
        self.handle = Some(device);
    }
}

/// A slot keeps handing out the device it handed out first, until another is
/// put in; from then on it hands out that one.
pub proof fn lemma_slot_keeps_its_device<B: Backend>(
    handle: Option<Arc<B::Device>>,
    replacement: Arc<B::Device>,
)
    ensures
        DeviceSlot::<B>::resolve(Some(DeviceSlot::<B>::resolve(handle))) == DeviceSlot::<
            B,
        >::resolve(handle),
        DeviceSlot::<B>::resolve(Some(replacement)) == replacement,
{
}

/// The slots of all backends, keyed by the backend's type, behind one lock.
/// A registry can be shared between threads.
pub struct DeviceRegistry {
    slots: RwLock<RawRwLock, TypeMap>,
}

impl DeviceRegistry {
    /// A registry without any device.
    pub fn new() -> Self {
        DeviceRegistry { slots: lock_slots(TypeMap::new()) }
    }

    /// The device of backend `B`. The slot is read under the shared lock. If
    /// that finds no device, the exclusive lock is taken and the slot is read
    /// again before the default device is built, so that of several first
    /// calls at once only one builds a device and all return that one.
    pub fn device<B: Backend>(&self) -> Arc<B::Device> {
        let found = {
            let guard = read_slots(&self.slots);
            DeviceSlot::<B>::get_if_present(slots_ref(&guard).get::<DeviceSlot<B>>())
        };
        match found {
            Some(device) => device,
            None => {
                let mut guard = write_slots(&self.slots);
                let slot = slots_mut(&mut guard).entry::<DeviceSlot<B>>().or_insert_with(
                    DeviceSlot::vacant,
                );
                slot.get_or_create()
            },
        }
    }

    /// Makes `device` the device of backend `B`, whether or not it had one.
    pub fn set_device<B: Backend>(&self, device: Arc<B::Device>) {
        let mut guard = write_slots(&self.slots);
        let slot = slots_mut(&mut guard).entry::<DeviceSlot<B>>().or_insert_with(
            DeviceSlot::vacant,
        );
        slot.set(device);
    }
}

/// Access to the device of a backend through a registry.
pub trait GetDevice: Backend {
    /// The registry's device for this backend. The first call builds it with
    /// `default_device`; later calls hand out the same one.
    fn device(registry: &DeviceRegistry) -> Arc<Self::Device>;

    /// Makes `device` the registry's device for this backend.
    fn set_device(registry: &DeviceRegistry, device: Arc<Self::Device>);
}

impl<T: Backend> GetDevice for T {
    fn device(registry: &DeviceRegistry) -> Arc<Self::Device> {
        registry.device::<T>()
    }

    fn set_device(registry: &DeviceRegistry, device: Arc<Self::Device>) {
        registry.set_device::<T>(device)
    }
}

} // verus!
