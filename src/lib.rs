//! A deterministic decision engine for a grant program: fixed-point
//! arithmetic, two adaptive quorum curves, bond sizing, and the lifecycle
//! state machines of projects and milestone-paid grants.

pub mod fixed_point;
pub mod quorum;
pub mod bond;
pub mod milestone;
pub mod lifecycle;
