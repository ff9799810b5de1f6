use rtaudio::{
    plan_data_callback, Api, CallbackAction, DeviceParams, ErrorBridge, Host, RtAudioErrorType,
    SampleFormat, StartOutcome, StreamOptions,
};

fn output_params() -> Option<DeviceParams> {
    Some(DeviceParams {
        device_id: 7,
        num_channels: 2,
        first_channel: 0,
    })
}

#[test]
fn open_with_neither_output_nor_input_is_rejected_before_backend() {
    let mut bridge = ErrorBridge::new();
    let host = Host::from_backend(Api::LinuxALSA);
    match host.open_stream(
        None,
        None,
        SampleFormat::Float32,
        48000,
        256,
        StreamOptions::default(),
        &mut bridge,
    ) {
        Ok(_) => panic!("an open without any endpoint must be rejected"),
        Err((returned_host, e)) => {
            assert_eq!(e.type_, RtAudioErrorType::InvalidUse);
            assert_eq!(returned_host.api(), Api::LinuxALSA);
            // rejected before any backend call: the handler slot was never armed
            assert!(!bridge.armed);
        }
    }
}

#[test]
fn stop_twice_is_a_no_op_both_times() {
    let mut bridge = ErrorBridge::new();
    let host = Host::from_backend(Api::LinuxPulse);
    let pending = host
        .open_stream(
            output_params(),
            None,
            SampleFormat::Float32,
            48000,
            256,
            StreamOptions::default(),
            &mut bridge,
        )
        .unwrap();
    let mut stream = pending.complete(256, 0, 48000);
    assert_eq!(stream.on_start(Ok(())), StartOutcome::Started);
    assert!(stream.started);

    let first = stream.stop(&mut bridge);
    assert!(first, "the first stop of a started stream touches the backend");
    assert!(!stream.started);

    let before = stream.clone();
    let second = stream.stop(&mut bridge);
    assert!(!second, "a second stop performs no backend call");
    assert_eq!(stream, before, "a second stop changes nothing");

    let third = stream.stop(&mut bridge);
    assert!(!third);
    assert_eq!(stream, before);
}

#[test]
fn close_returns_a_reusable_host_even_if_never_started() {
    let mut bridge = ErrorBridge::new();
    let host = Host::from_backend(Api::UnixJack);
    let pending = host
        .open_stream(
            output_params(),
            None,
            SampleFormat::SInt16,
            44100,
            512,
            StreamOptions::default(),
            &mut bridge,
        )
        .unwrap();
    let stream = pending.complete(512, 0, 44100);
    let (stop_backend_first, reusable) = stream.close(&mut bridge);
    assert!(!stop_backend_first, "a never-started stream needs no backend stop");
    assert_eq!(reusable.api(), Api::UnixJack);
    assert!(!bridge.armed, "close clears the handler slot");
}

#[test]
fn open_close_open_succeeds_both_times() {
    let mut bridge = ErrorBridge::new();
    let host = Host::from_backend(Api::LinuxALSA);

    let pending = host
        .open_stream(
            output_params(),
            None,
            SampleFormat::Float32,
            48000,
            256,
            StreamOptions::default(),
            &mut bridge,
        )
        .expect("the first open must succeed");
    let mut stream = pending.complete(256, 0, 48000);
    assert_eq!(stream.on_start(Ok(())), StartOutcome::Started);
    let (stop_backend_first, host_again) = stream.close(&mut bridge);
    assert!(stop_backend_first);

    let pending = host_again
        .open_stream(
            output_params(),
            None,
            SampleFormat::Float32,
            48000,
            256,
            StreamOptions::default(),
            &mut bridge,
        )
        .expect("an open on the handle returned by close must succeed");
    let stream = pending.complete(256, 0, 48000);
    let (_, host_back) = stream.close(&mut bridge);
    assert_eq!(host_back.api(), Api::LinuxALSA);
}

#[test]
fn info_reflects_negotiated_values_not_the_request() {
    let mut bridge = ErrorBridge::new();
    let host = Host::from_backend(Api::LinuxALSA);
    let pending = host
        .open_stream(
            output_params(),
            None,
            SampleFormat::Float32,
            48000,
            256,
            StreamOptions::default(),
            &mut bridge,
        )
        .unwrap();
    // the backend adjusted every negotiable value
    let stream = pending.complete(512, 128, 44100);
    let info = stream.info();
    assert_eq!(info.sample_rate, 44100, "negotiated rate, not the request");
    assert_eq!(info.max_frames, 512, "negotiated frame count, not the request");
    assert_eq!(info.latency, Some(128));
}

#[test]
fn unreported_negotiation_keeps_request_and_drops_latency() {
    let mut bridge = ErrorBridge::new();
    let host = Host::from_backend(Api::LinuxALSA);
    let pending = host
        .open_stream(
            output_params(),
            None,
            SampleFormat::Float32,
            48000,
            256,
            StreamOptions::default(),
            &mut bridge,
        )
        .unwrap();
    // rate 0 and latency 0 mean the backend reported nothing
    let stream = pending.complete(256, 0, 0);
    assert_eq!(stream.info().sample_rate, 48000);
    assert_eq!(stream.info().latency, None);
}

#[test]
fn float32_stereo_scenario_yields_512_sample_output_views() {
    let mut bridge = ErrorBridge::new();
    let host = Host::from_backend(Api::LinuxALSA);
    let pending = host
        .open_stream(
            output_params(),
            None,
            SampleFormat::Float32,
            48000,
            256,
            StreamOptions::default(),
            &mut bridge,
        )
        .unwrap();
    let mut stream = pending.complete(256, 0, 48000);
    assert_eq!(stream.info().out_channels, 2);
    assert_eq!(stream.on_start(Ok(())), StartOutcome::Started);

    // each invocation's output view: 2 channels x 256 frames = 512 samples
    match plan_data_callback(true, true, false, 256, stream.info()) {
        CallbackAction::Process(sizes) => {
            assert_eq!(sizes.out_len, 512);
            assert_eq!(sizes.in_len, 0);
        }
        other => panic!("expected a process plan, got {:?}", other),
    }
}

#[test]
fn failed_start_leaves_stream_stopped_and_reusable() {
    let mut bridge = ErrorBridge::new();
    let host = Host::from_backend(Api::LinuxALSA);
    let pending = host
        .open_stream(
            output_params(),
            None,
            SampleFormat::Float32,
            48000,
            256,
            StreamOptions::default(),
            &mut bridge,
        )
        .unwrap();
    let mut stream = pending.complete(256, 0, 48000);

    let backend_error = rtaudio::RtAudioError {
        type_: RtAudioErrorType::DriverError,
        msg: None,
    };
    match stream.on_start(Err(backend_error.clone())) {
        StartOutcome::FailedStopBackend(e) => assert_eq!(e, backend_error),
        StartOutcome::Started => panic!("a failed start must not report a started stream"),
    }
    assert!(!stream.started, "never started while actually failed");

    // the caller may retry
    assert_eq!(stream.on_start(Ok(())), StartOutcome::Started);
    assert!(stream.started);
}

#[test]
fn failed_open_rolls_back_and_returns_the_host() {
    let mut bridge = ErrorBridge::new();
    let host = Host::from_backend(Api::WindowsWASAPI);
    let pending = host
        .open_stream(
            output_params(),
            None,
            SampleFormat::Float32,
            48000,
            256,
            StreamOptions::default(),
            &mut bridge,
        )
        .unwrap();
    assert!(bridge.armed, "the handler slot is armed for the session");
    let backend_error = rtaudio::RtAudioError {
        type_: RtAudioErrorType::SystemError,
        msg: None,
    };
    let (host_back, e) = pending.fail(&mut bridge, backend_error.clone());
    assert_eq!(e, backend_error);
    assert_eq!(host_back.api(), Api::WindowsWASAPI);
    assert!(!bridge.armed, "a failed open clears the handler slot");
}
