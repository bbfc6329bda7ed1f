//! Control core of a model road junction.
//!
//! Three arms meet at the junction. Each arm has a stopper that holds cars
//! back, a traffic light and a steering servo. Sensors along the road tell
//! sections when a car enters or leaves, and a section keeps its stoppers
//! locked while it is occupied.
//!
//! The library never touches hardware. Every component keeps a software image
//! of its pins and takes the readings it needs as arguments. The writes that
//! its caller has to carry out come back as [`command::Command`] values, in
//! order, added to a list that the caller hands in. Stoppers, sections,
//! sensors and servos live in slices owned by the caller and name each other
//! by position.

pub mod command;
pub mod intersection;
pub mod lights;
pub mod pin_mockup;
pub mod section;
pub mod sensor;
pub mod sensor_caller;
pub mod servo;
pub mod servo_caller;
pub mod slots;
pub mod stopper;
pub mod time;
