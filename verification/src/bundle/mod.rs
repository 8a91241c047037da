//! Layout, metadata and tool arguments for the distributable packages.
pub mod cmd;
pub mod layout;
pub mod plist;
pub mod readme;
pub mod windows;
