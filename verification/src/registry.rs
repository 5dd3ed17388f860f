//! The two registries of bindings: one for instances declared in the scene
//! description, one for instances spawned at run time.

use vstd::prelude::*;
use crate::mesh::{MeshInstanceType, RenderInstance};

verus! {

/// Bindings by key, as a mathematical map.
pub type Bindings = Map<u64, RenderInstance>;

/// Bindings by key, kept in the scene graph's own hash map.
///
/// The map is `bevy::utils::HashMap`, a `hashbrown` map with an `ahash`
/// hasher. Its contents are known to the verifier only as `bindings_of`.
#[verifier::external_body]
pub struct InstanceMap {
    map: bevy::utils::HashMap<u64, RenderInstance>,
}

/// The bindings that an `InstanceMap` holds.
pub uninterp spec fn bindings_of(map: InstanceMap) -> Bindings;

impl View for InstanceMap {
    type V = Bindings;

    open spec fn view(&self) -> Bindings {
        bindings_of(*self)
    }
}

impl InstanceMap {
    /// `HashMap::default` of `hashbrown`, which `bevy::utils` offers in place
    /// of `new`: the map it makes holds nothing.
    #[verifier::external_body]
    pub(crate) fn empty() -> (map: InstanceMap)
        ensures
            bindings_of(map) == Bindings::empty(),
    {
        InstanceMap { map: bevy::utils::HashMap::default() }
    }

    /// `HashMap::get` of `hashbrown`: the value stored under `key`, if there
    /// is one. The value is copied out of the map.
    #[verifier::external_body]
    pub(crate) fn get(&self, key: u64) -> (found: Option<RenderInstance>)
        ensures
            found == (if bindings_of(*self).contains_key(key) {
                Some(bindings_of(*self)[key])
            } else {
                None
            }),
    {
        self.map.get(&key).copied()
    }

    /// `HashMap::insert` of `hashbrown`: afterwards `key` maps to `value` and
    /// every other key is as before; what `key` mapped to before is returned.
    #[verifier::external_body]
    pub(crate) fn insert(&mut self, key: u64, value: RenderInstance) -> (previous: Option<
        RenderInstance,
    >)
        ensures
            bindings_of(*final(self)) == bindings_of(*old(self)).insert(key, value),
            previous == (if bindings_of(*old(self)).contains_key(key) {
                Some(bindings_of(*old(self))[key])
            } else {
                None
            }),
    {
        self.map.insert(key, value)
    }

    /// `HashMap::len` of `hashbrown`: the number of keys.
    #[verifier::external_body]
    pub(crate) fn len(&self) -> (n: usize)
        ensures
            n == bindings_of(*self).len(),
    {
        self.map.len()
    }
}

/// The registries as mathematical maps.
pub struct Registries {
    pub user_instances: Bindings,
    pub scene_instances: Bindings,
}

impl Registries {
    /// Registries without any binding.
    pub open spec fn empty() -> Registries {
        Registries { user_instances: Map::empty(), scene_instances: Map::empty() }
    }

    /// Both registries hold finitely many bindings.
    pub open spec fn finite(self) -> bool {
        self.user_instances.dom().finite() && self.scene_instances.dom().finite()
    }

    /// The registry that owns instances of the kind of `instance_type`.
    pub open spec fn registry_of(self, instance_type: MeshInstanceType) -> Bindings {
        match instance_type {
            MeshInstanceType::UserInstanced(_) => self.user_instances,
            MeshInstanceType::SceneInstanced(_) => self.scene_instances,
        }
    }

    /// The binding of an instance, if it has one.
    pub open spec fn binding(self, instance_type: MeshInstanceType) -> Option<RenderInstance> {
        let registry = self.registry_of(instance_type);
        if registry.contains_key(instance_type.spec_key()) {
            Some(registry[instance_type.spec_key()])
        } else {
            None
        }
    }

    /// The registries after `instance_type` has been bound to `instance`:
    /// only the registry of its kind changes, and only under its key.
    pub open spec fn bind(self, instance_type: MeshInstanceType, instance: RenderInstance)
        -> Registries {
        match instance_type {
            MeshInstanceType::UserInstanced(_) => Registries {
                user_instances: self.user_instances.insert(instance_type.spec_key(), instance),
                ..self
            },
            MeshInstanceType::SceneInstanced(_) => Registries {
                scene_instances: self.scene_instances.insert(instance_type.spec_key(), instance),
                ..self
            },
        }
    }
}

/// The bindings of all tracked instances.
pub struct RenderInstances {
    pub user_instances: InstanceMap,
    pub scene_instances: InstanceMap,
}

impl View for RenderInstances {
    type V = Registries;

    open spec fn view(&self) -> Registries {
        Registries {
            user_instances: self.user_instances@,
            scene_instances: self.scene_instances@,
        }
    }
}

impl RenderInstances {
    /// Registries without any binding.
    pub fn new() -> (instances: RenderInstances)
        ensures
            instances@ == Registries::empty(),
            instances@.finite(),
    {
        RenderInstances {
            user_instances: InstanceMap::empty(),
            scene_instances: InstanceMap::empty(),
        }
    }

    /// The binding of an instance, looked up in the registry of its kind.
    pub fn get(&self, instance_type: &MeshInstanceType) -> (found: Option<RenderInstance>)
        ensures
            found == self@.binding(*instance_type),
    {
        match instance_type {
            MeshInstanceType::UserInstanced(_) => self.user_instances.get(instance_type.key()),
            MeshInstanceType::SceneInstanced(_) => self.scene_instances.get(instance_type.key()),
        }
    }

    /// Binds an instance in the registry of its kind, replacing the binding
    /// it had there, and returns the replaced one.
    pub fn insert(&mut self, instance_type: &MeshInstanceType, instance: RenderInstance) -> (previous:
        Option<RenderInstance>)
        ensures
            final(self)@ == old(self)@.bind(*instance_type, instance),
            previous == old(self)@.binding(*instance_type),
            old(self)@.finite() ==> final(self)@.finite(),
    {
        match instance_type {
            MeshInstanceType::UserInstanced(_) => self.user_instances.insert(
                instance_type.key(),
                instance,
            ),
            MeshInstanceType::SceneInstanced(_) => self.scene_instances.insert(
                instance_type.key(),
                instance,
            ),
        }
    }

    /// Number of bindings of instances declared in the scene description.
    pub fn scene_instance_count(&self) -> (n: usize)
        ensures
            n == self@.scene_instances.len(),
    {
        self.scene_instances.len()
    }

    /// Number of bindings of instances spawned at run time.
    pub fn user_instance_count(&self) -> (n: usize)
        ensures
            n == self@.user_instances.len(),
    {
        self.user_instances.len()
    }
}

} // verus!
