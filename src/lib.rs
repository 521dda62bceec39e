//! Driver logic for a four-wire resistive touch panel sampled through an ADC: the role
//! controller of each electrode, the sampling sequence with its pressure gate and averaging,
//! and the calibration mapping.
pub mod range;
pub mod screen;
pub mod touchio;

pub use range::map_range;
pub use screen::{is_touch, pressure_of, Request, ResistiveTouchScreen, Stage, Step, FULL_SCALE};
pub use touchio::{widen, Electrode, PinOp, Role, TouchIO};
