//! Backend-agnostic real-time audio stream engine: the stream lifecycle state
//! machine, the realtime-callback marshaling rules, and the error bridge that
//! carries fatal realtime errors to a controlling thread.
//!
//! The native audio backend itself is driven by a thin foreign-function layer
//! that consults this crate for every decision: which transitions are legal,
//! how large the sample views of a callback invocation are, when an error
//! handler may fire, and how requested stream parameters relate to the values
//! the backend actually negotiated.

mod bridge;
mod buffer;
mod device_info;
mod enums;
mod error;
mod host;
mod options;
mod stream;

pub use bridge::{
    lemma_fires_at_most_once, realtime_error, spec_after_report, spec_is_fatal,
    spec_report_fires, ErrorBridge,
};
pub use buffer::{
    buffer_sizes, lemma_view_len_formula, side_view_len, spec_packed_width, spec_view_len,
    BufferSizes,
};
pub use device_info::{
    lossy_utf8_of, spec_find, spec_raw_name, DeviceID, DeviceInfo, RawDeviceInfo,
};
pub use enums::{
    apis_from_raw, spec_api_from_raw, spec_api_to_raw, spec_apis_from_raw, spec_format_bits, Api,
    NativeFormats, SampleFormat, StreamFlags, StreamStatus, API_DUMMY, API_LINUX_ALSA,
    API_LINUX_OSS, API_LINUX_PULSE, API_MACOSX_CORE, API_UNIX_JACK, API_UNSPECIFIED,
    API_WINDOWS_ASIO, API_WINDOWS_DS, API_WINDOWS_WASAPI, FLAG_ALSA_USE_DEFAULT, FLAG_HOG_DEVICE,
    FLAG_JACK_DONT_CONNECT, FLAG_MINIMIZE_LATENCY, FLAG_NONINTERLEAVED, FLAG_SCHEDULE_REALTIME,
    FORMAT_ALL, FORMAT_FLOAT32, FORMAT_FLOAT64, FORMAT_SINT16, FORMAT_SINT24, FORMAT_SINT32,
    FORMAT_SINT8, STATUS_ALL, STATUS_INPUT_OVERFLOW, STATUS_OUTPUT_UNDERFLOW,
};
pub use error::{
    classify_error, normalize_msg, spec_error_message, spec_error_type_from_raw, spec_kind_label,
    spec_normalized_msg, ErrorDisposition, RtAudioError, RtAudioErrorType, ERROR_DEVICE_DISCONNECT,
    ERROR_DRIVER_ERROR, ERROR_INVALID_DEVICE, ERROR_INVALID_PARAMETER, ERROR_INVALID_USE,
    ERROR_MEMORY_ERROR, ERROR_NONE, ERROR_NO_DEVICES_FOUND, ERROR_SYSTEM_ERROR,
    ERROR_THREAD_ERROR, ERROR_UNKNOWN, ERROR_WARNING,
};
pub use host::{
    clamp_device_count, device_id_from_default, device_id_from_lookup, device_matches,
    require_default_input_id, require_default_output_id, spec_device_matches, spec_initial_info,
    DeviceIter, DeviceSelector, Host,
};
pub use options::{
    spec_name_array, spec_name_ok, str_to_c_array, DeviceParams, RawStreamOptions, StreamOptions,
    MAX_NAME_LENGTH,
};
pub use stream::{
    lemma_stop_idempotent, plan_data_callback, spec_stopped, CallbackAction, PendingStream,
    StartOutcome, Stream, StreamInfo,
};
