//! Firmware core for an accelerometer-driven indicator board: the sensor's
//! register map and serial framing, the tilt-to-indicator mapping, the
//! indicator set/reset words and the button mode machine.
use vstd::prelude::*;

pub mod indicator;
pub mod lis302dl;
pub mod mode;
pub mod sensor;
pub mod spi;
pub mod tilt;

verus! {

} // verus!
