//! The error taxonomy and the classification of raw backend error reports.
//!
//! The backend reports an error condition as a numeric code plus an optional
//! message string. Control paths classify such a report with
//! [`classify_error`]: warnings never abort an operation, every other kind
//! does.

use vstd::prelude::*;
use vstd::string::StringExecFns;

verus! {

/// Raw backend error code: no error is pending.
pub const ERROR_NONE: i32 = 0;
/// Raw backend error code: a non-critical warning.
pub const ERROR_WARNING: i32 = 1;
/// Raw backend error code: an unspecified error.
pub const ERROR_UNKNOWN: i32 = 2;
/// Raw backend error code: no devices were found on the system.
pub const ERROR_NO_DEVICES_FOUND: i32 = 3;
/// Raw backend error code: an invalid device ID was specified.
pub const ERROR_INVALID_DEVICE: i32 = 4;
/// Raw backend error code: a device in use was disconnected.
pub const ERROR_DEVICE_DISCONNECT: i32 = 5;
/// Raw backend error code: an error occurred during memory allocation.
pub const ERROR_MEMORY_ERROR: i32 = 6;
/// Raw backend error code: an invalid parameter was specified.
pub const ERROR_INVALID_PARAMETER: i32 = 7;
/// Raw backend error code: a function was called incorrectly.
pub const ERROR_INVALID_USE: i32 = 8;
/// Raw backend error code: a system driver error occurred.
pub const ERROR_DRIVER_ERROR: i32 = 9;
/// Raw backend error code: a system error occurred.
pub const ERROR_SYSTEM_ERROR: i32 = 10;
/// Raw backend error code: a thread error occurred.
pub const ERROR_THREAD_ERROR: i32 = 11;

/// The kind of an error reported by the engine or the backend.
#[derive(Debug, Clone, Copy, PartialEq, Eq, Structural)]
pub enum RtAudioErrorType {
    /// A non-critical error.
    Warning,
    /// An unspecified error type.
    Unkown,
    /// No devices found on system.
    NoDevicesFound,
    /// An invalid device ID was specified.
    InvalidDevice,
    /// A device in use was disconnected.
    DeviceDisconnect,
    /// An error occurred during memory allocation.
    MemoryError,
    /// An invalid parameter was specified to a function.
    InvalidParamter,
    /// The function was called incorrectly.
    InvalidUse,
    /// A system driver error occurred.
    DriverError,
    /// A system error occurred.
    SystemError,
    /// A thread error occurred.
    ThreadError,
}

/// An error carrying its kind and an optional backend message.
#[derive(Debug, Clone, PartialEq, Eq)]
pub struct RtAudioError {
    pub type_: RtAudioErrorType,
    pub msg: Option<String>,
}

/// The error kind, if any, that a raw backend error code stands for.
///
/// Code `ERROR_NONE` means no error is pending; every unrecognized code is
/// reported as an unspecified error rather than silently dropped.
pub open spec fn spec_error_type_from_raw(e: i32) -> Option<RtAudioErrorType> {
    if e == ERROR_NONE {
        None
    } else if e == ERROR_WARNING {
        Some(RtAudioErrorType::Warning)
    } else if e == ERROR_UNKNOWN {
        Some(RtAudioErrorType::Unkown)
    } else if e == ERROR_NO_DEVICES_FOUND {
        Some(RtAudioErrorType::NoDevicesFound)
    } else if e == ERROR_INVALID_DEVICE {
        Some(RtAudioErrorType::InvalidDevice)
    } else if e == ERROR_DEVICE_DISCONNECT {
        Some(RtAudioErrorType::DeviceDisconnect)
    } else if e == ERROR_MEMORY_ERROR {
        Some(RtAudioErrorType::MemoryError)
    } else if e == ERROR_INVALID_PARAMETER {
        Some(RtAudioErrorType::InvalidParamter)
    } else if e == ERROR_INVALID_USE {
        Some(RtAudioErrorType::InvalidUse)
    } else if e == ERROR_DRIVER_ERROR {
        Some(RtAudioErrorType::DriverError)
    } else if e == ERROR_SYSTEM_ERROR {
        Some(RtAudioErrorType::SystemError)
    } else if e == ERROR_THREAD_ERROR {
        Some(RtAudioErrorType::ThreadError)
    } else {
        Some(RtAudioErrorType::Unkown)
    }
}

impl RtAudioErrorType {
    /// The error kind, if any, that a raw backend error code stands for.
    pub fn from_raw(e: i32) -> (r: Option<RtAudioErrorType>)
        ensures
            r == spec_error_type_from_raw(e),
    {
        if e == ERROR_NONE {
            None
        } else if e == ERROR_WARNING {
            Some(RtAudioErrorType::Warning)
        } else if e == ERROR_UNKNOWN {
            Some(RtAudioErrorType::Unkown)
        } else if e == ERROR_NO_DEVICES_FOUND {
            Some(RtAudioErrorType::NoDevicesFound)
        } else if e == ERROR_INVALID_DEVICE {
            Some(RtAudioErrorType::InvalidDevice)
        } else if e == ERROR_DEVICE_DISCONNECT {
            Some(RtAudioErrorType::DeviceDisconnect)
        } else if e == ERROR_MEMORY_ERROR {
            Some(RtAudioErrorType::MemoryError)
        } else if e == ERROR_INVALID_PARAMETER {
            Some(RtAudioErrorType::InvalidParamter)
        } else if e == ERROR_INVALID_USE {
            Some(RtAudioErrorType::InvalidUse)
        } else if e == ERROR_DRIVER_ERROR {
            Some(RtAudioErrorType::DriverError)
        } else if e == ERROR_SYSTEM_ERROR {
            Some(RtAudioErrorType::SystemError)
        } else if e == ERROR_THREAD_ERROR {
            Some(RtAudioErrorType::ThreadError)
        } else {
            Some(RtAudioErrorType::Unkown)
        }
    }
}

/// The descriptive label of an error kind.
pub open spec fn spec_kind_label(t: RtAudioErrorType) -> Seq<char> {
    match t {
        RtAudioErrorType::Warning => "RtAudio: warning"@,
        RtAudioErrorType::Unkown => "RtAudio: unspecified error"@,
        RtAudioErrorType::NoDevicesFound => "RtAudio: no devices found on system"@,
        RtAudioErrorType::InvalidDevice => "RtAudio: an invalid device ID was specified"@,
        RtAudioErrorType::DeviceDisconnect => "RtAudio: a device in use was disconnected"@,
        RtAudioErrorType::MemoryError => "RtAudio: an error occurred during memory allocation"@,
        RtAudioErrorType::InvalidParamter => (
        "RtAudio: an invalid parameter was specified to a function"@),
        RtAudioErrorType::InvalidUse => "RtAudio: the function was called incorrectly"@,
        RtAudioErrorType::DriverError => "RtAudio: a system driver error occurred"@,
        RtAudioErrorType::SystemError => "RtAudio: a system error occurred"@,
        RtAudioErrorType::ThreadError => "RtAudio: a thread error occurred"@,
    }
}

impl RtAudioErrorType {
    /// The descriptive label of this error kind.
    pub fn label(&self) -> (s: &'static str)
        ensures
            s@ == spec_kind_label(*self),
    {
        match self {
            RtAudioErrorType::Warning => "RtAudio: warning",
            RtAudioErrorType::Unkown => "RtAudio: unspecified error",
            RtAudioErrorType::NoDevicesFound => "RtAudio: no devices found on system",
            RtAudioErrorType::InvalidDevice => "RtAudio: an invalid device ID was specified",
            RtAudioErrorType::DeviceDisconnect => "RtAudio: a device in use was disconnected",
            RtAudioErrorType::MemoryError => "RtAudio: an error occurred during memory allocation",
            RtAudioErrorType::InvalidParamter => (
            "RtAudio: an invalid parameter was specified to a function"),
            RtAudioErrorType::InvalidUse => "RtAudio: the function was called incorrectly",
            RtAudioErrorType::DriverError => "RtAudio: a system driver error occurred",
            RtAudioErrorType::SystemError => "RtAudio: a system error occurred",
            RtAudioErrorType::ThreadError => "RtAudio: a thread error occurred",
        }
    }
}

/// The rendered text of an error: the kind's label, then ` | ` and the
/// backend message where one is present.
pub open spec fn spec_error_message(e: RtAudioError) -> Seq<char> {
    match e.msg {
        Some(m) => spec_kind_label(e.type_) + " | "@ + m@,
        None => spec_kind_label(e.type_),
    }
}

impl RtAudioError {
    /// Render this error as text.
    pub fn message(&self) -> (s: String)
        ensures
            s@ == spec_error_message(*self),
    {
        let mut s = String::from_str(self.type_.label());
        match &self.msg {
            Some(m) => {
                s.append(" | ");
                s.append(m.as_str());
            },
            None => {},
        }
        s
    }
}

/// An optional backend message with an empty string treated as no message.
pub open spec fn spec_normalized_msg(msg: Option<String>) -> Option<String> {
    match msg {
        Some(m) => if m@.len() == 0 {
            None
        } else {
            Some(m)
        },
        None => None,
    }
}

/// Treat an empty backend message as no message.
pub fn normalize_msg(msg: Option<String>) -> (r: Option<String>)
    ensures
        r == spec_normalized_msg(msg),
{
    match msg {
        Some(m) => {
            if m.as_str().is_empty() {
                None
            } else {
                Some(m)
            }
        },
        None => None,
    }
}

/// What a control operation must do about a raw backend error report.
#[derive(Debug, Clone)]
pub enum ErrorDisposition {
    /// No error is pending: the operation proceeds.
    Proceed,
    /// A warning is pending: log it and proceed; warnings never abort an
    /// operation.
    LogWarning(RtAudioError),
    /// A fatal error is pending: abort the operation with this error.
    Fail(RtAudioError),
}

/// Classify the error report of the backend after a control operation.
///
/// `code` is the raw pending-error code and `msg` the backend's message, if
/// any; an empty message counts as none. No pending error proceeds, a warning
/// is surfaced for logging only, and every other kind aborts the operation.
pub fn classify_error(code: i32, msg: Option<String>) -> (d: ErrorDisposition)
    ensures
        (d is Proceed) <==> spec_error_type_from_raw(code) is None,
        (d is LogWarning) <==> spec_error_type_from_raw(code) == Some(RtAudioErrorType::Warning),
        d matches ErrorDisposition::LogWarning(e) ==> e.type_ == RtAudioErrorType::Warning
            && e.msg == spec_normalized_msg(msg),
        d matches ErrorDisposition::Fail(e) ==> spec_error_type_from_raw(code) == Some(e.type_)
            && e.type_ != RtAudioErrorType::Warning && e.msg == spec_normalized_msg(msg),
{
    match RtAudioErrorType::from_raw(code) {
        None => ErrorDisposition::Proceed,
        Some(t) => {
            let e = RtAudioError { type_: t, msg: normalize_msg(msg) };
            if t == RtAudioErrorType::Warning {
                ErrorDisposition::LogWarning(e)
            } else {
                ErrorDisposition::Fail(e)
            }
        },
    }
}

} // verus!
