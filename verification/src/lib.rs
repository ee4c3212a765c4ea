//! A privilege-mediating helper for attaching scratch volumes at paths owned
//! by an unprivileged caller.
//!
//! The library holds the security-relevant core: deciding which identity an
//! external command may run under, binding a mount path to a volume label so
//! that only volumes created by this tool are ever selected, decoding the
//! volume manager's structured listing, and the ordered mount / unmount /
//! delete flows built on top of those pieces. Process spawning, filesystem
//! access and argument parsing live outside the library and act on the plans
//! and decisions computed here.

pub mod catalog;
pub mod codec;
pub mod commands;
pub mod errors;
pub mod identity;
pub mod json_codec;
pub mod mount;
pub mod outside;
pub mod plist_codec;
pub mod structured;
pub mod text;
