//! A small, verified binding over the Linux fanotify interface: flag
//! vocabulary, event decoding, the reference decision policy and the plan by
//! which a drained batch of events is answered and released.
pub mod flags;
pub mod decode;
pub mod policy;
pub mod dispatch;
pub mod channel;

