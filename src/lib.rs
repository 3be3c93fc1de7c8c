//! A USB Audio Class 2.0 function: a stereo speaker and a mono microphone
//! behind one AudioControl interface. The library describes the function's
//! descriptors, answers its class-specific control requests and performs the
//! sample work of the streaming loop; the USB driver and the executor stay
//! outside.

pub mod uac2_constants;
pub mod descriptors;
pub mod control;
pub mod streaming;
pub mod heartbeat;
