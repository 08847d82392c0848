//! A verified model of a safe binding layer over a native depth-camera driver.
//!
//! The crate holds the rules of the binding: the frame value model and its
//! pixel decoding, the multi-frame aggregation protocol, the device session
//! state machine, the shape validation in front of the registration routines,
//! configuration range checks and the single-instance guard of the driver
//! context. The native driver itself is never called from here: every
//! operation that needs it is split into the decision made before the call and
//! the transition made after it, and the caller performs the call in between.
//!
//! Beside the binding stand the rules by which a build gets the prebuilt
//! native library: which archive fits the target, where a release lists its
//! checksum, and whether a download has that checksum.

pub mod bytes;
pub mod checksum;
pub mod config;
pub mod error;
pub mod float_bits;
pub mod frame;
pub mod frame_data;
pub mod frame_data_iter;
pub mod frame_image;
pub mod frame_listener;
pub mod frame_type;
pub mod frame_value;
pub mod freenect2;
pub mod freenect2_device;
pub mod native;
pub mod native_library;
pub mod pixel_grid;
pub mod registration;
pub mod release;
