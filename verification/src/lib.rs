//! A free-fly camera controller: keyboard movement, mouse look with a
//! clamped pitch, and a cursor-lock state machine.
//!
//! The controller is engine-agnostic. A host hands it, once per frame, the
//! elapsed time, the set of held movement keys, the accumulated mouse-motion
//! delta, and the press edges of the mouse button and the escape key; it
//! answers with a displacement, a new orientation, and a new cursor mode.
//!
//! Every quantity is a fixed-point integer, so every rule of the controller
//! is exact:
//! - angles are in microradians (the pitch limit of 1.0472 rad is
//!   1_047_200, the sensitivity of 0.005 rad per mouse count is
//!   5 microradians per thousandth of a count);
//! - distances are in micro-units and time is in microseconds (the base
//!   speed of 10 units per second is 10 micro-units per microsecond);
//! - mouse motion is in thousandths of an input count.
//!
//! The host converts its own floating-point inputs into these units and
//! turns the yaw and pitch angles back into whatever rotation
//! representation its renderer wants.

pub mod cursor;
pub mod frame;
pub mod input;
pub mod look;
pub mod movement;
