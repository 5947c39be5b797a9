//! A remote-I/O filesystem protocol server core: the wire codec for request
//! messages and reply envelopes, the filesystem capability interfaces, and the
//! per-connection dispatch state machine; plus the geometry and input helpers
//! of the presentation layer and the rules of the build-dependency listing
//! tool.
pub mod geometry;
pub mod input;
pub mod ioctl;
pub mod rio;
pub mod tool;
pub mod vfs;
