//! Error types for every fallible entry point of the backend.
//!
//! This backend has no hardware or OS resource that can fail, so none of
//! these values is ever produced: every operation is defined to succeed
//! unconditionally. The types exist because the abstraction's entry points
//! are fallible, and callers written against a real backend expect the
//! `Result` shape.

use vstd::prelude::*;

verus! {

/// The host backend could not be initialised.
#[derive(Clone, Copy, Debug, PartialEq, Eq, Structural)]
pub struct HostUnavailable;

/// Device enumeration failed.
#[derive(Clone, Copy, Debug, PartialEq, Eq, Structural)]
pub struct DevicesError;

/// A device's name could not be obtained.
#[derive(Clone, Copy, Debug, PartialEq, Eq, Structural)]
pub struct DeviceNameError;

/// The supported-configuration ranges could not be enumerated.
#[derive(Clone, Copy, Debug, PartialEq, Eq, Structural)]
pub struct SupportedStreamConfigsError;

/// The default configuration could not be determined.
#[derive(Clone, Copy, Debug, PartialEq, Eq, Structural)]
pub struct DefaultStreamConfigError;

/// A stream could not be built.
#[derive(Clone, Copy, Debug, PartialEq, Eq, Structural)]
pub struct BuildStreamError;

/// A stream could not be started.
#[derive(Clone, Copy, Debug, PartialEq, Eq, Structural)]
pub struct PlayStreamError;

/// A stream could not be paused.
#[derive(Clone, Copy, Debug, PartialEq, Eq, Structural)]
pub struct PauseStreamError;

/// A fault occurred on a running stream. Would be reported through the
/// error callback of a stream; this backend never produces one.
#[derive(Clone, Copy, Debug, PartialEq, Eq, Structural)]
pub struct StreamError;

} // verus!
