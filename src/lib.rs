//! The discrete structure of a deterministic 2D ragdoll evaluator: the fixed
//! body/edge/joint topology and its constants, the checkpoint/substep control
//! schedule, plan validation, and the fall/horizon termination state machine.
//! The floating-point physics runs on top of these pieces.
pub mod driver;
pub mod params;
pub mod schedule;
pub mod topology;
