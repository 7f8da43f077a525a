//! A container that holds one shared service per type and hands it out by
//! type. The type-erased storage is std's `HashMap` of `Arc<dyn Any>`, which
//! Verus cannot hold, so it sits behind an opaque struct whose contents are
//! named by the set of type keys it holds.
use vstd::prelude::*;
use std::any::{Any, TypeId};
use std::collections::HashMap;
use std::sync::Arc;

verus! {

#[verifier::external_type_specification]
#[verifier::external_body]
pub struct ExTypeId(TypeId);

/// One service with its type erased.
#[verifier::external_body]
struct Erased(Arc<dyn Any + Send + Sync>);

/// Type-erased storage: at most one service per type key.
#[verifier::external_body]
pub struct ServiceSlots {
    map: HashMap<TypeId, Erased>,
}

/// The type keys that hold a service.
pub uninterp spec fn slot_keys(s: ServiceSlots) -> Set<TypeId>;

/// What a lookup found under a type key.
pub enum Lookup<T> {
    Found(Arc<T>),
    Missing,
    WrongType,
}

/// Relies on `HashMap::new`: the map starts empty.
#[verifier::external_body]
fn slots_new() -> (r: ServiceSlots)
    ensures
        slot_keys(r) == Set::<TypeId>::empty(),
{
    ServiceSlots { map: HashMap::new() }
}

/// Relies on `TypeId::of`: the key of type `T`.
#[verifier::external_body]
fn type_key<T: Any>() -> (r: TypeId) {
    TypeId::of::<T>()
}

/// Relies on `HashMap::insert`: afterwards `key` holds `value`, replacing
/// what it held.
#[verifier::external_body]
fn slots_insert<T: Any + Send + Sync>(s: &mut ServiceSlots, key: TypeId, value: Arc<T>)
    ensures
        slot_keys(*final(s)) == slot_keys(*old(s)).insert(key),
{
    s.map.insert(key, Erased(value));
}

/// Relies on `HashMap::remove`: afterwards `key` holds nothing.
#[verifier::external_body]
fn slots_remove(s: &mut ServiceSlots, key: &TypeId)
    ensures
        slot_keys(*final(s)) == slot_keys(*old(s)).remove(*key),
{
    s.map.remove(key);
}

/// Relies on `HashMap::get` and `Arc::downcast`: the service under `key`, as
/// a `T` when it is one.
#[verifier::external_body]
fn slots_get<T: Any + Send + Sync>(s: &ServiceSlots, key: &TypeId) -> (r: Lookup<T>)
    ensures
        r is Missing <==> !slot_keys(*s).contains(*key),
{
    match s.map.get(key) {
        Some(handle) => match Arc::clone(&handle.0).downcast::<T>() {
            Ok(service) => Lookup::Found(service),
            Err(_) => Lookup::WrongType,
        },
        None => Lookup::Missing,
    }
}

#[derive(Debug, Clone, Copy, PartialEq, Eq, Structural)]
pub enum IocContainerError {
    /// No service of the type asked for was registered.
    ServiceNotAvailable,
    /// The service under the type's key is of another type.
    FailedToDowncast,
}

/// Services registered by type.
pub struct IocContainer {
    slots: ServiceSlots,
}

impl IocContainer {
    /// The type keys that hold a service.
    pub closed spec fn keys(&self) -> Set<TypeId> {
        slot_keys(self.slots)
    }

    /// An empty container.
    pub fn new() -> (r: IocContainer)
        ensures
            r.keys() == Set::<TypeId>::empty(),
    {
        IocContainer { slots: slots_new() }
    }

    /// Registers `object` as the service of its type, replacing an earlier
    /// one; exactly one key gains a service.
    pub fn register<T: Any + Send + Sync>(&mut self, object: T)
        ensures
            exists|k: TypeId| final(self).keys() == old(self).keys().insert(k),
    {
        let key = type_key::<T>();
        slots_insert(&mut self.slots, key, Arc::new(object));
        assert(self.keys() == old(self).keys().insert(key));
    }

    /// Registers an already shared `object` as the service of its type.
    pub fn register_arc<T: Any + Send + Sync>(&mut self, object: Arc<T>)
        ensures
            exists|k: TypeId| final(self).keys() == old(self).keys().insert(k),
    {
        let key = type_key::<T>();
        slots_insert(&mut self.slots, key, object);
        assert(self.keys() == old(self).keys().insert(key));
    }

    /// The service of type `T`: missing when its key holds nothing, and a
    /// downcast failure when it holds another type.
    pub fn service<T: Any + Send + Sync>(&self) -> (r: Result<Arc<T>, IocContainerError>)
        ensures
            self.keys() == Set::<TypeId>::empty() ==> r == Err::<Arc<T>, _>(
                IocContainerError::ServiceNotAvailable,
            ),
            r == Err::<Arc<T>, _>(IocContainerError::ServiceNotAvailable) ==> exists|k: TypeId|
                !self.keys().contains(k),
            r is Ok ==> exists|k: TypeId| self.keys().contains(k),
    {
        let key = type_key::<T>();
        match slots_get::<T>(&self.slots, &key) {
            Lookup::Found(service) => {
                assert(self.keys().contains(key));
                Ok(service)
            },
            Lookup::Missing => {
                assert(!self.keys().contains(key));
                Err(IocContainerError::ServiceNotAvailable)
            },
            Lookup::WrongType => Err(IocContainerError::FailedToDowncast),
        }
    }

    /// Removes the service of type `T`, if any.
    pub fn delete<T: Any + Send + Sync>(&mut self)
        ensures
            exists|k: TypeId| final(self).keys() == old(self).keys().remove(k),
    {
        let key = type_key::<T>();
        slots_remove(&mut self.slots, &key);
        assert(self.keys() == old(self).keys().remove(key));
    }
}

} // verus!
