use null_audio_host::config::SampleFormat;
use null_audio_host::config::SampleRate;
use null_audio_host::config::SupportedBufferSize;
use null_audio_host::host::Device;
use null_audio_host::host::Devices;
use null_audio_host::host::Host;

#[test]
fn host_constructs_and_is_available() {
    let host = Host::new();
    assert!(host.is_ok());
    assert!(Host::is_available());
}

#[test]
fn device_enumeration_is_empty() {
    let host = Host::new().unwrap();
    let mut devices = host.devices().unwrap();
    assert!(devices.next().is_none());
    assert!(devices.next().is_none());
    let mut fresh = Devices::new().unwrap();
    assert!(fresh.next().is_none());
}

#[test]
fn default_devices_are_always_present() {
    let host = Host::new().unwrap();
    assert_eq!(host.default_input_device(), Some(Device));
    assert_eq!(host.default_output_device(), Some(Device));
}

#[test]
fn device_name_is_null() {
    let host = Host::new().unwrap();
    let device = host.default_output_device().unwrap();
    assert_eq!(device.name().unwrap(), "null");
}

#[test]
fn supported_config_enumerations_are_empty() {
    let host = Host::new().unwrap();
    let device = host.default_input_device().unwrap();
    let mut inputs = device.supported_input_configs().unwrap();
    assert!(inputs.next().is_none());
    assert!(inputs.next().is_none());
    let mut outputs = device.supported_output_configs().unwrap();
    assert!(outputs.next().is_none());
    assert!(outputs.next().is_none());
}

#[test]
fn default_configs_are_fixed_and_repeatable() {
    let host = Host::new().unwrap();
    let device = host.default_output_device().unwrap();

    let output_a = device.default_output_config().unwrap();
    let output_b = device.default_output_config().unwrap();
    assert_eq!(output_a, output_b);
    assert_eq!(output_a.channels, 1);
    assert_eq!(output_a.sample_rate, SampleRate(48000));
    assert_eq!(output_a.sample_format, SampleFormat::F32);
    assert_eq!(
        output_a.buffer_size,
        SupportedBufferSize::Range { min: 0, max: u32::MAX }
    );

    let input_a = device.default_input_config().unwrap();
    let input_b = device.default_input_config().unwrap();
    assert_eq!(input_a, input_b);
    assert_eq!(input_a, output_a);
    assert_eq!(input_a.channels, 1);
    assert_eq!(input_a.sample_rate, SampleRate(48000));
    assert_eq!(input_a.sample_format, SampleFormat::F32);
}
