//! A small library behind a command-line helper that resolves abstract
//! GPU/display (DRM) device identifiers to concrete host device nodes for
//! container-runtime device injection.
//!
//! The library holds the verified logic: parsing the command token, deriving
//! a stable textual identifier from a device's bus metadata, listing the
//! identifiers of all enumerated devices, and looking a target identifier up
//! among them. Device enumeration itself and JSON emission are left to the
//! surrounding program, which hands the library plain values.

pub mod command;
pub mod device;
pub mod ops;
pub mod reply;
