//! The host facade, the single synthetic device, and the (empty) device
//! and configuration-range enumerators.
//!
//! Enumerating "all devices" yields nothing — there is nothing to select
//! among — while asking for "the default device" always succeeds, so that
//! stream construction always has a target.

use vstd::prelude::*;

use crate::config::SupportedStreamConfig;
use crate::config::SupportedStreamConfigRange;
use crate::config::default_supported_config;
use crate::errors::DefaultStreamConfigError;
use crate::errors::DeviceNameError;
use crate::errors::DevicesError;
use crate::errors::HostUnavailable;
use crate::errors::SupportedStreamConfigsError;

verus! {

/// Enumerator over the backend's devices; yields no element.
#[derive(Default)]
pub struct Devices;

/// The one synthetic device: a stateless identity token.
#[derive(Clone, Debug, PartialEq, Eq, Structural)]
pub struct Device;

/// The composition root of the backend.
pub struct Host;

/// Enumerator over the input-configuration ranges of the device; yields
/// no element.
pub struct SupportedInputConfigs;

/// Enumerator over the output-configuration ranges of the device; yields
/// no element.
pub struct SupportedOutputConfigs;

impl Host {
    /// Constructing the host never fails: this backend has no external
    /// dependency that could be absent.
    pub fn new() -> (r: Result<Host, HostUnavailable>)
        ensures
            r is Ok,
    {
        Ok(Host)
    }

    /// The backend is always available.
    pub fn is_available() -> (b: bool)
        ensures
            b,
    {
        true
    }

    /// Begin enumerating devices; the enumerator yields no element.
    pub fn devices(&self) -> (r: Result<Devices, DevicesError>)
        ensures
            r is Ok,
    {
        Devices::new()
    }

    /// The default input device is always present: the one synthetic device.
    pub fn default_input_device(&self) -> (r: Option<Device>)
        ensures
            r == Some(Device),
    {
        Some(Device)
    }

    /// The default output device is always present: the one synthetic device.
    pub fn default_output_device(&self) -> (r: Option<Device>)
        ensures
            r == Some(Device),
    {
        Some(Device)
    }
}

impl Devices {
    /// Constructing the enumerator never fails.
    pub fn new() -> (r: Result<Devices, DevicesError>)
        ensures
            r is Ok,
    {
        Ok(Devices)
    }

    /// The device enumeration is empty: every call yields nothing.
    pub fn next(&mut self) -> (r: Option<Device>)
        ensures
            r is None,
    {
        None
    }
}

impl Device {
    /// The synthetic device reports the fixed name "null".
    pub fn name(&self) -> (r: Result<String, DeviceNameError>)
        ensures
            r is Ok,
            r->Ok_0@ == "null"@,
    {
        Ok("null".to_owned())
    }

    /// Begin enumerating input-configuration ranges; the enumerator
    /// yields no element.
    pub fn supported_input_configs(&self) -> (r: Result<
        SupportedInputConfigs,
        SupportedStreamConfigsError,
    >)
        ensures
            r is Ok,
    {
        Ok(SupportedInputConfigs)
    }

    /// Begin enumerating output-configuration ranges; the enumerator
    /// yields no element.
    pub fn supported_output_configs(&self) -> (r: Result<
        SupportedOutputConfigs,
        SupportedStreamConfigsError,
    >)
        ensures
            r is Ok,
    {
        Ok(SupportedOutputConfigs)
    }

    /// The default input configuration: always the one fixed descriptor.
    pub fn default_input_config(&self) -> (r: Result<
        SupportedStreamConfig,
        DefaultStreamConfigError,
    >)
        ensures
            r is Ok,
            r->Ok_0 == default_supported_config(),
    {
        Ok(SupportedStreamConfig {
            channels: 1,
            sample_rate: crate::config::SampleRate(48000),
            buffer_size: crate::config::SupportedBufferSize::Range { min: 0, max: u32::MAX },
            sample_format: crate::config::SampleFormat::F32,
        })
    }

    /// The default output configuration: always the one fixed descriptor,
    /// the same one the input query reports.
    pub fn default_output_config(&self) -> (r: Result<
        SupportedStreamConfig,
        DefaultStreamConfigError,
    >)
        ensures
            r is Ok,
            r->Ok_0 == default_supported_config(),
    {
        Ok(SupportedStreamConfig {
            channels: 1,
            sample_rate: crate::config::SampleRate(48000),
            buffer_size: crate::config::SupportedBufferSize::Range { min: 0, max: u32::MAX },
            sample_format: crate::config::SampleFormat::F32,
        })
    }
}

impl SupportedInputConfigs {
    /// The range enumeration is empty: every call yields nothing.
    pub fn next(&mut self) -> (r: Option<SupportedStreamConfigRange>)
        ensures
            r is None,
    {
        None
    }
}

impl SupportedOutputConfigs {
    /// The range enumeration is empty: every call yields nothing.
    pub fn next(&mut self) -> (r: Option<SupportedStreamConfigRange>)
        ensures
            r is None,
    {
        None
    }
}

} // verus!
