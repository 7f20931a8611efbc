//! What the library promises, over the inputs and the results of its functions.
//!
//! Each law takes the arguments and the result of one or more calls. A parameter
//! that a call changes appears as a mutable reference, whose final value is the
//! one after the call. Where a second call continues from a first, the state it
//! starts from is the state that the first one left.
pub mod driver;
pub mod errors;
pub mod files;
pub mod framing;
pub mod handles;
pub mod network;
pub mod owned;
pub mod parking;
pub mod places;
pub mod runtime;
pub mod submission;
pub mod task;
pub mod time;
pub mod wakers;
