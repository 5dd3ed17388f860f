//! Bookkeeping that keeps a renderer's mesh instances in step with the
//! instances tracked by a scene graph.
//!
//! Every tracked instance is bound to the renderer at most once: the first
//! time it is seen its mesh is loaded and an instance created, and from then
//! on only its transform is pushed. Instances declared in a scene description
//! and instances spawned at run time are kept in registries of their own.
//!
//! - `transform`: positions and rotations as bit patterns;
//! - `mesh`: tracked instances and their bindings;
//! - `registry`: the two registries;
//! - `renderer`: the calls made on the renderer and the error of a missing mesh;
//! - `scene`: setting a scene up, and the steps of the work for one instance;
//! - `pass`: a model of the work for one instance and of whole passes;
//! - `pass_proofs`: what holds of every pass;
//! - `replay`: runs against a renderer whose answers are known beforehand.

pub mod mesh;
pub mod pass;
pub mod pass_proofs;
pub mod registry;
pub mod renderer;
pub mod replay;
pub mod scene;
pub mod transform;
