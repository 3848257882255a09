//! Radar-style display of the peak levels of a 7.1 output device.
//!
//! The eight channels of the device are shown as seven wedges round a centre
//! (one channel is read and not drawn), each filled with a red that follows the
//! channel's peak, over a fixed decoration of rings and axes and under a sweep
//! hand that turns with the clock. This library holds the geometry, the colour
//! mapping, the composition of a frame and the decisions of the start-up; it
//! does no input or output of its own.
//!
//! Angles are whole degrees, lengths are tenths of a pixel, and a peak is the bit
//! pattern of a single-precision number, so that everything here is integer
//! arithmetic.

pub mod channel;
pub mod color;
pub mod frame;
pub mod layout;
pub mod peak;
pub mod startup;
pub mod sweep;
pub mod wedge;
