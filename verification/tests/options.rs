use rtaudio::{
    apis_from_raw, str_to_c_array, Api, DeviceParams, NativeFormats, RtAudioErrorType,
    SampleFormat, StreamFlags, StreamInfo, StreamOptions, StreamStatus, API_LINUX_ALSA,
    API_LINUX_PULSE, API_UNSPECIFIED, FLAG_MINIMIZE_LATENCY, FLAG_NONINTERLEAVED, FORMAT_FLOAT32,
    FORMAT_FLOAT64, FORMAT_SINT16, FORMAT_SINT24, FORMAT_SINT32, FORMAT_SINT8, MAX_NAME_LENGTH,
    STATUS_INPUT_OVERFLOW, STATUS_OUTPUT_UNDERFLOW,
};

#[test]
fn device_params_default_is_stereo_on_device_zero() {
    let p = DeviceParams::default();
    assert_eq!(p.device_id, 0);
    assert_eq!(p.num_channels, 2);
    assert_eq!(p.first_channel, 0);
}

#[test]
fn stream_options_default_values() {
    let o = StreamOptions::default();
    assert_eq!(o.flags.bits, 0);
    assert_eq!(o.num_buffers, 4);
    assert_eq!(o.priority, -1);
    assert_eq!(o.name, "RtAudio-rs Client");
}

#[test]
fn stream_info_default_is_blank() {
    let info = StreamInfo::default();
    assert_eq!(info.out_channels, 0);
    assert_eq!(info.in_channels, 0);
    assert_eq!(info.sample_format, SampleFormat::Float32);
    assert_eq!(info.sample_rate, 0);
    assert_eq!(info.max_frames, 0);
    assert!(!info.deinterleaved);
    assert_eq!(info.latency, None);
    assert_eq!(info.stream_time_nanos, 0);
}

#[test]
fn sample_format_default_and_raw_bits() {
    assert_eq!(SampleFormat::default(), SampleFormat::Float32);
    assert_eq!(SampleFormat::SInt8.to_raw(), FORMAT_SINT8);
    assert_eq!(SampleFormat::SInt16.to_raw(), FORMAT_SINT16);
    assert_eq!(SampleFormat::SInt24.to_raw(), FORMAT_SINT24);
    assert_eq!(SampleFormat::SInt32.to_raw(), FORMAT_SINT32);
    assert_eq!(SampleFormat::Float32.to_raw(), FORMAT_FLOAT32);
    assert_eq!(SampleFormat::Float64.to_raw(), FORMAT_FLOAT64);
}

#[test]
fn name_marshals_into_nul_terminated_fixed_array() {
    let arr = str_to_c_array("abc").expect("a short name fits");
    assert_eq!(arr.len(), MAX_NAME_LENGTH);
    assert_eq!(&arr[..3], b"abc");
    assert!(arr[3..].iter().all(|&b| b == 0));
}

#[test]
fn name_with_interior_nul_is_rejected() {
    assert!(str_to_c_array("a\u{0}b").is_err());
}

#[test]
fn name_length_boundary_counts_the_terminating_nul() {
    let longest = "x".repeat(MAX_NAME_LENGTH - 1);
    let arr = str_to_c_array(&longest).expect("511 bytes plus nul fit exactly");
    assert_eq!(arr[MAX_NAME_LENGTH - 1], 0);
    let too_long = "x".repeat(MAX_NAME_LENGTH);
    assert!(str_to_c_array(&too_long).is_err());
}

#[test]
fn name_length_is_measured_in_encoded_bytes_not_characters() {
    // 200 three-byte characters encode to 600 bytes: too long, though only
    // 200 characters
    let wide = "\u{20AC}".repeat(200);
    assert!(str_to_c_array(&wide).is_err());
    let narrow = "\u{20AC}".repeat(170);
    let arr = str_to_c_array(&narrow).expect("510 bytes plus nul fit");
    assert_eq!(&arr[..3], "\u{20AC}".as_bytes());
    assert_eq!(arr[510], 0);
}

#[test]
fn options_to_raw_carries_flags_counts_and_name() {
    let options = StreamOptions {
        flags: StreamFlags::empty()
            .with(FLAG_NONINTERLEAVED)
            .with(FLAG_MINIMIZE_LATENCY),
        num_buffers: 2,
        priority: 10,
        name: String::from("client"),
    };
    let raw = options.to_raw().expect("a plain name marshals");
    assert_eq!(raw.flags, FLAG_NONINTERLEAVED | FLAG_MINIMIZE_LATENCY);
    assert_eq!(raw.num_buffers, 2);
    assert_eq!(raw.priority, 10);
    assert_eq!(&raw.name[..6], b"client");
    assert_eq!(raw.name[6], 0);
}

#[test]
fn options_to_raw_rejects_unmarshalable_name() {
    let options = StreamOptions {
        name: String::from("bad\u{0}name"),
        ..StreamOptions::default()
    };
    match options.to_raw() {
        Err(e) => {
            assert_eq!(e.type_, RtAudioErrorType::InvalidParamter);
            assert_eq!(e.msg.as_deref(), Some("stream name is invalid"));
        }
        Ok(_) => panic!("a name with an interior nul must be rejected"),
    }
}

#[test]
fn api_codes_round_trip_and_unknown_codes_are_dropped() {
    for api in [
        Api::Unspecified,
        Api::MacOSXCore,
        Api::LinuxALSA,
        Api::UnixJack,
        Api::LinuxPulse,
        Api::LinuxOSS,
        Api::WindowsASIO,
        Api::WindowsWASAPI,
        Api::WindowsDS,
        Api::Dummy,
    ] {
        assert_eq!(Api::from_raw(api.to_raw()), Some(api));
    }
    assert_eq!(Api::from_raw(99), None);
    assert_eq!(Api::from_raw(-2), None);
}

#[test]
fn api_name_lookup_filters_the_unspecified_answer() {
    // the backend answers the unspecified code for an unknown name
    assert_eq!(Api::from_lookup(API_UNSPECIFIED), None);
    assert_eq!(Api::from_lookup(API_LINUX_ALSA), Some(Api::LinuxALSA));
    assert_eq!(Api::from_lookup(99), None);
}

#[test]
fn compiled_api_list_keeps_recognized_codes_in_order() {
    let raw = vec![API_LINUX_ALSA, 99, API_LINUX_PULSE, -7];
    assert_eq!(apis_from_raw(&raw), vec![Api::LinuxALSA, Api::LinuxPulse]);
    assert_eq!(apis_from_raw(&Vec::new()), Vec::new());
}

#[test]
fn native_formats_truncate_and_support_queries() {
    let all = NativeFormats::from_bits_truncate(u64::MAX);
    assert_eq!(all.bits, 63);
    let some = NativeFormats::from_bits_truncate(FORMAT_FLOAT32 | FORMAT_SINT16);
    assert!(some.supports(SampleFormat::Float32));
    assert!(some.supports(SampleFormat::SInt16));
    assert!(!some.supports(SampleFormat::SInt24));
    assert!(!NativeFormats::empty().supports(SampleFormat::Float32));
}

#[test]
fn stream_flags_contain_and_combine() {
    let flags = StreamFlags::from_bits(FLAG_NONINTERLEAVED);
    assert!(flags.contains(FLAG_NONINTERLEAVED));
    assert!(!flags.contains(FLAG_MINIMIZE_LATENCY));
    let both = flags.with(FLAG_MINIMIZE_LATENCY);
    assert!(both.contains(FLAG_NONINTERLEAVED | FLAG_MINIMIZE_LATENCY));
}

#[test]
fn stream_status_truncates_unknown_bits() {
    let status = StreamStatus::from_bits_truncate(0xFF);
    assert_eq!(status.bits, STATUS_INPUT_OVERFLOW | STATUS_OUTPUT_UNDERFLOW);
    assert!(status.contains(STATUS_INPUT_OVERFLOW));
    assert!(!StreamStatus::empty().contains(STATUS_OUTPUT_UNDERFLOW));
}
