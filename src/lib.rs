//! Acquisition core of a force/torque sensor publisher.
//!
//! The library decides; the program around it acts. [`locator`] picks the
//! sensor's serial port out of a host enumeration by hardware identity, and
//! [`acquisition`] is the startup, calibration and polling protocol written
//! as a state machine from state and event to next state and action.

pub mod acquisition;
pub mod locator;
