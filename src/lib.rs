//! Scene planning and platform control for a ring of pillars ("Stonehenge")
//! standing on an oscillating kinematic platform.
//!
//! The library decides what a scene consists of and in which order its parts
//! are created, which pillars each bulkhead joins, and on which simulation
//! steps the platform is moved. The floating-point geometry and the physics
//! engine itself are driven by the host program.
pub mod layout;
pub mod motion;
pub mod plan;

pub use layout::{bulkhead_pillars, ConfigError, RingLayout};
pub use motion::{DutyCycle, PlatformController, StepAction};
pub use plan::{plan_scene, BodyKind, BodyPlan, ColliderPlan, Part, ScenePlan, Shape};
