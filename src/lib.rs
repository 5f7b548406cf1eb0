//! Screen capture for compositors that expose the wlr screen-copy protocol:
//! output bookkeeping, the capture session state machine, shared-memory
//! creation policy and pixel format normalisation.

pub mod convert;
pub mod error;
pub mod region;
pub mod screencopy;
pub mod dispatch;
pub mod shm;
