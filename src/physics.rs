//! Collision data attached to physics bodies.
use vstd::prelude::*;

use crate::framework::Entity;

verus! {

/// A collision between two bodies.
#[derive(Debug)]
pub struct CollisionEvent {}

/// How collisions of a body are detected.
#[derive(Debug, Clone, Copy, PartialEq, Eq, Structural)]
pub enum CollisionType {
    /// Tested at the body's position once per step.
    Discrete,
    /// Tested along the body's path during a step.
    Continuous,
}

impl CollisionType {
    /// Whether collisions are tested along the body's path.
    pub fn is_continuous(&self) -> (r: bool)
        ensures
            r == (*self == CollisionType::Continuous),
    {
        match self {
            CollisionType::Continuous => true,
            _ => false,
        }
    }
}

/// The collision shapes of a body, which are entities of their own, and the
/// collisions seen since they were last handled.
#[derive(Debug)]
pub struct Collider {
    pub shapes: Vec<Entity>,
    pub events: Vec<CollisionEvent>,
    pub collision_type: CollisionType,
}

/// The process that moves physics bodies each step.
#[derive(Debug)]
pub struct PhysicsProcess {}

} // verus!
