//! An interactive terminal file browser core: viewport layout, key decoding,
//! path-stack bookkeeping, the navigation state machine, and the frame
//! renderer, all as pure functions over plain values. Terminal and filesystem
//! side effects live outside the library and hand it plain values.

pub mod dirs;
pub mod keys;
pub mod layout;
pub mod nav;
pub mod paths;
pub mod render;
