use sys_voice::callbacks::{
    capture_buffer_bytes, capture_delivered, client_stream_layout, render_sample_count,
    RENDER_NO_BUFFER_STATUS,
};
use sys_voice::config::AecError;
use sys_voice::devices::{
    build_device_list, check_probe, describe_device, device_count, device_name, has_streams,
    hal_status_to_result, DeviceProbe, HalCall,
};
use sys_voice::playback::{silence, PlaybackQueue, SILENCE};

fn bits(samples: &[f32]) -> Vec<u32> {
    samples.iter().map(|s| s.to_bits()).collect()
}

#[test]
fn silence_is_the_bits_of_zero() {
    assert_eq!(SILENCE, 0.0f32.to_bits());
    assert_eq!(silence(3), vec![0, 0, 0]);
    assert_eq!(silence(0), Vec::<u32>::new());
}

#[test]
fn render_takes_oldest_then_pads_with_silence() {
    let mut q = PlaybackQueue::with_capacity(48_000);
    q.extend(bits(&[0.25, -0.5, 1.0]));
    assert_eq!(q.len(), 3);
    assert_eq!(q.render(2), bits(&[0.25, -0.5]));
    assert_eq!(q.len(), 1);
    assert_eq!(q.render(3), bits(&[1.0, 0.0, 0.0]));
    assert_eq!(q.len(), 0);
    assert_eq!(q.render(2), vec![SILENCE, SILENCE]);
}

#[test]
fn queued_chunks_play_in_order() {
    let mut q = PlaybackQueue::with_capacity(4);
    q.extend(bits(&[0.1, 0.2]));
    q.extend(bits(&[0.3]));
    q.extend(Vec::new());
    q.extend(bits(&[0.4, 0.5]));
    assert_eq!(q.render(5), bits(&[0.1, 0.2, 0.3, 0.4, 0.5]));
    assert_eq!(q.len(), 0);
}

#[test]
fn split_renders_play_the_same_stream() {
    let samples = bits(&[0.1, 0.2, 0.3, 0.4, 0.5]);
    let mut a = PlaybackQueue::with_capacity(0);
    a.extend(samples.clone());
    let mut whole = a.render(7);
    let mut b = PlaybackQueue::with_capacity(0);
    b.extend(samples);
    let mut parts = b.render(2);
    parts.extend(b.render(4));
    parts.extend(b.render(1));
    assert_eq!(parts, whole);
    whole.truncate(5);
    assert_eq!(whole, bits(&[0.1, 0.2, 0.3, 0.4, 0.5]));
}

#[test]
fn capture_sizes() {
    assert_eq!(capture_buffer_bytes(512), 2048);
    assert_eq!(capture_buffer_bytes(0), 0);
    assert_eq!(capture_buffer_bytes(0x4000_0000), 0);
    assert_eq!(capture_buffer_bytes(0x4000_0001), 4);
    assert!(capture_delivered(0));
    assert!(!capture_delivered(-10863));
}

#[test]
fn render_sizes() {
    assert_eq!(render_sample_count(2048), 512);
    assert_eq!(render_sample_count(2050), 512);
    assert_eq!(render_sample_count(3), 0);
    assert_eq!(RENDER_NO_BUFFER_STATUS, -50);
}

#[test]
fn client_layout_is_mono_f32() {
    let l = client_stream_layout();
    assert_eq!(l.bytes_per_packet, 4);
    assert_eq!(l.frames_per_packet, 1);
    assert_eq!(l.bytes_per_frame, 4);
    assert_eq!(l.channels_per_frame, 1);
    assert_eq!(l.bits_per_channel, 32);
    assert_eq!(l.reserved, 0);
}

#[test]
fn device_count_from_byte_size() {
    assert_eq!(device_count(16), 4);
    assert_eq!(device_count(7), 1);
    assert_eq!(device_count(0), 0);
}

#[test]
fn listing_errors_name_the_call() {
    assert_eq!(hal_status_to_result(HalCall::GetPropertyData, 0), Ok(()));
    assert_eq!(
        hal_status_to_result(HalCall::GetPropertyDataSize, 560947818),
        Err(AecError::BackendError("AudioObjectGetPropertyDataSize failed: 560947818".to_string()))
    );
    assert_eq!(
        hal_status_to_result(HalCall::GetPropertyData, -50),
        Err(AecError::BackendError("AudioObjectGetPropertyData failed: -50".to_string()))
    );
}

#[test]
fn stream_direction_needs_success_and_streams() {
    assert!(has_streams(0, 8));
    assert!(!has_streams(0, 0));
    assert!(!has_streams(-1, 8));
}

#[test]
fn names_from_c_buffers() {
    let mut buf = vec![0u8; 512];
    buf[..10].copy_from_slice(b"MacBook Mi");
    assert_eq!(device_name(true, true, &buf), "MacBook Mi");
    assert_eq!(device_name(true, true, b"Mic\0junk"), "Mic");
    assert_eq!(device_name(true, true, "Caf\u{e9}\0".as_bytes()), "Caf\u{e9}");
    assert_eq!(device_name(true, true, &[0x4d, 0xff, 0]), "M\u{fffd}");
    assert_eq!(device_name(true, true, b"no terminator"), "no terminator");
    assert_eq!(device_name(true, false, b"Mic\0"), "");
    assert_eq!(device_name(false, true, b"Mic\0"), "");
}

fn probe(id: u32, name: &[u8], input: (i32, u32), output: (i32, u32), rate: f64) -> DeviceProbe {
    DeviceProbe {
        id,
        name_status: 0,
        has_name: true,
        name_converted: true,
        name_buffer: name.to_vec(),
        input_status: input.0,
        input_size: input.1,
        output_status: output.0,
        output_size: output.1,
        rate_status: 0,
        sample_rate_bits: rate.to_bits(),
    }
}

#[test]
fn describe_one_device() {
    let info = describe_device(&probe(73, b"USB Mic\0", (0, 8), (0, 0), 44100.0));
    assert_eq!(info.id, 73);
    assert_eq!(info.name, "USB Mic");
    assert!(info.is_input);
    assert!(!info.is_output);
    assert_eq!(f64::from_bits(info.sample_rate_bits), 44100.0);
    assert_eq!(info.channel_count, 0);
}

#[test]
fn device_list_keeps_system_order() {
    let probes = vec![
        probe(81, b"Speakers\0", (0, 0), (0, 16), 48000.0),
        probe(73, b"USB Mic\0", (0, 8), (-1, 8), 44100.0),
        probe(90, b"Aggregate\0", (0, 8), (0, 8), 96000.0),
    ];
    let list = build_device_list(&probes).unwrap();
    let ids: Vec<u32> = list.iter().map(|d| d.id).collect();
    assert_eq!(ids, vec![81, 73, 90]);
    let dirs: Vec<(bool, bool)> = list.iter().map(|d| (d.is_input, d.is_output)).collect();
    assert_eq!(dirs, vec![(false, true), (true, false), (true, true)]);
    assert_eq!(list[2].name, "Aggregate");
    assert!(build_device_list(&Vec::new()).unwrap().is_empty());
}

#[test]
fn failed_name_or_rate_query_is_an_error() {
    let mut bad_name = probe(81, b"Speakers\0", (0, 0), (0, 16), 48000.0);
    bad_name.name_status = -50;
    assert_eq!(
        check_probe(&bad_name),
        Err(AecError::BackendError("AudioObjectGetPropertyData (device name) failed: -50".to_string()))
    );
    let mut bad_rate = probe(73, b"USB Mic\0", (0, 8), (0, 0), 0.0);
    bad_rate.rate_status = 2003332927;
    assert_eq!(
        check_probe(&bad_rate),
        Err(AecError::BackendError(
            "AudioObjectGetPropertyData (nominal sample rate) failed: 2003332927".to_string()
        ))
    );
    let mut both = bad_rate_clone(&bad_rate);
    both.name_status = 1;
    assert_eq!(
        check_probe(&both),
        Err(AecError::BackendError("AudioObjectGetPropertyData (device name) failed: 1".to_string()))
    );
    let probes = vec![probe(1, b"A\0", (0, 8), (0, 8), 48000.0), bad_rate, bad_name];
    assert_eq!(
        build_device_list(&probes).err(),
        Some(AecError::BackendError(
            "AudioObjectGetPropertyData (nominal sample rate) failed: 2003332927".to_string()
        ))
    );
}

fn bad_rate_clone(p: &DeviceProbe) -> DeviceProbe {
    DeviceProbe {
        id: p.id,
        name_status: p.name_status,
        has_name: p.has_name,
        name_converted: p.name_converted,
        name_buffer: p.name_buffer.clone(),
        input_status: p.input_status,
        input_size: p.input_size,
        output_status: p.output_status,
        output_size: p.output_size,
        rate_status: p.rate_status,
        sample_rate_bits: p.sample_rate_bits,
    }
}

#[test]
fn interleaved_queueing_and_rendering_keeps_every_sample_in_order() {
    let mut q = PlaybackQueue::with_capacity(0);
    let mut heard: Vec<u32> = Vec::new();
    q.extend(bits(&[0.1, 0.2, 0.3]));
    heard.extend(q.render(2));
    q.extend(bits(&[0.4]));
    heard.extend(silence(2));
    heard.extend(q.render(1));
    q.extend(bits(&[0.5, 0.6]));
    heard.extend(q.render(4));
    q.extend(bits(&[0.7]));
    assert_eq!(heard, bits(&[0.1, 0.2, 0.0, 0.0, 0.3, 0.4, 0.5, 0.6, 0.0]));
    assert_eq!(q.render(1), bits(&[0.7]));
}
