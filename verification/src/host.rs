//! The host session: a live backend binding used to enumerate devices and,
//! by consuming it, to open a stream.
//!
//! The foreign layer performs the native queries; the decisions — how a raw
//! device count or lookup answer is interpreted, which devices a filtered
//! enumeration keeps, when an open request is rejected before any backend
//! call — are made and proved here.

use vstd::prelude::*;
use vstd::string::StringExecFns;

use crate::bridge::ErrorBridge;
use crate::device_info::{DeviceID, DeviceInfo};
use crate::enums::{Api, SampleFormat, StreamFlags, FLAG_NONINTERLEAVED};
use crate::error::{RtAudioError, RtAudioErrorType};
use crate::options::{spec_name_array, spec_name_ok, DeviceParams, StreamOptions};
use crate::stream::{PendingStream, StreamInfo};

verus! {

/// A live backend binding. Opening a stream consumes it; closing the stream
/// hands it back for reuse.
#[derive(Debug, Clone, Copy, PartialEq, Eq, Structural)]
pub struct Host {
    /// The backend this binding reported at creation.
    pub api: Api,
}

/// Clamp a backend-reported device count to a non-negative number.
///
/// The native device query reports a signed count; a negative value means
/// none could be enumerated and counts as zero. The count may change across
/// calls (devices can be plugged and unplugged), so no snapshot is implied.
pub fn clamp_device_count(raw: i32) -> (count: usize)
    ensures
        raw >= 0 ==> count == raw as usize,
        raw < 0 ==> count == 0,
{
    if raw < 0 {
        0
    } else {
        raw as usize
    }
}

/// Interpret the backend's answer to a device lookup by index.
///
/// The lookup reports device ID zero when the index names no device — in
/// particular for every index at or past the device count — and that is an
/// invalid-parameter error, never a crash.
pub fn device_id_from_lookup(raw_id: u32) -> (r: Result<DeviceID, RtAudioError>)
    ensures
        r is Ok <==> raw_id != 0,
        r matches Ok(d) ==> d == (DeviceID(raw_id)),
        r matches Err(e) ==> e.type_ == RtAudioErrorType::InvalidParamter && (e.msg matches Some(m)
            && m@ == "could not find a device at the given index"@),
{
    if raw_id == 0 {
        Err(
            RtAudioError {
                type_: RtAudioErrorType::InvalidParamter,
                msg: Some(String::from_str("could not find a device at the given index")),
            },
        )
    } else {
        Ok(DeviceID(raw_id))
    }
}

/// Interpret the backend's answer to a default-device query: ID zero means
/// no default device exists.
pub fn device_id_from_default(raw_id: u32) -> (r: Option<DeviceID>)
    ensures
        r is Some <==> raw_id != 0,
        r matches Some(d) ==> d == (DeviceID(raw_id)),
{
    if raw_id == 0 {
        None
    } else {
        Some(DeviceID(raw_id))
    }
}

/// Demand a default output device: a missing one is a no-devices-found
/// error.
pub fn require_default_output_id(id: Option<DeviceID>) -> (r: Result<DeviceID, RtAudioError>)
    ensures
        r is Ok <==> id is Some,
        id matches Some(d) ==> r == Ok::<DeviceID, RtAudioError>(d),
        r matches Err(e) ==> e.type_ == RtAudioErrorType::NoDevicesFound && (e.msg matches Some(m)
            && m@ == "No default output device found"@),
{
    match id {
        Some(d) => Ok(d),
        None => Err(
            RtAudioError {
                type_: RtAudioErrorType::NoDevicesFound,
                msg: Some(String::from_str("No default output device found")),
            },
        ),
    }
}

/// Demand a default input device: a missing one is a no-devices-found
/// error.
pub fn require_default_input_id(id: Option<DeviceID>) -> (r: Result<DeviceID, RtAudioError>)
    ensures
        r is Ok <==> id is Some,
        id matches Some(d) ==> r == Ok::<DeviceID, RtAudioError>(d),
        r matches Err(e) ==> e.type_ == RtAudioErrorType::NoDevicesFound && (e.msg matches Some(m)
            && m@ == "No default input device found"@),
{
    match id {
        Some(d) => Ok(d),
        None => Err(
            RtAudioError {
                type_: RtAudioErrorType::NoDevicesFound,
                msg: Some(String::from_str("No default input device found")),
            },
        ),
    }
}

/// Which devices a filtered enumeration keeps.
#[derive(Debug, Clone, Copy, PartialEq, Eq, Structural)]
pub enum DeviceSelector {
    /// Every device.
    All,
    /// Devices with at least one output channel.
    Output,
    /// Devices with at least one input channel.
    Input,
    /// Devices with at least one duplex channel.
    Duplex,
}

/// Whether a filtered enumeration keeps this device.
pub open spec fn spec_device_matches(d: DeviceInfo, s: DeviceSelector) -> bool {
    match s {
        DeviceSelector::All => true,
        DeviceSelector::Output => d.output_channels > 0,
        DeviceSelector::Input => d.input_channels > 0,
        DeviceSelector::Duplex => d.duplex_channels > 0,
    }
}

/// Whether a filtered enumeration keeps this device.
pub fn device_matches(d: &DeviceInfo, s: DeviceSelector) -> (r: bool)
    ensures
        r == spec_device_matches(*d, s),
{
    match s {
        DeviceSelector::All => true,
        DeviceSelector::Output => d.output_channels > 0,
        DeviceSelector::Input => d.input_channels > 0,
        DeviceSelector::Duplex => d.duplex_channels > 0,
    }
}

/// The index bookkeeping of a device enumeration: a finite, restartable
/// walk over the device count observed when the walk began. Each step hands
/// out the next index to query, until the count is exhausted.
#[derive(Debug, Clone, Copy, PartialEq, Eq, Structural)]
pub struct DeviceIter {
    /// The next index to hand out.
    pub index: usize,
    /// The device count when the walk began.
    pub num_devices: usize,
}

impl DeviceIter {
    /// Begin a walk over `num_devices` devices.
    pub fn new(num_devices: usize) -> (it: DeviceIter)
        ensures
            it.index == 0,
            it.num_devices == num_devices,
    {
        DeviceIter { index: 0, num_devices }
    }

    /// The next device index to query, or `None` when the walk is done.
    pub fn next_index(&mut self) -> (r: Option<usize>)
        ensures
            final(self).num_devices == old(self).num_devices,
            old(self).index < old(self).num_devices ==> r == Some(old(self).index)
                && final(self).index == old(self).index + 1,
            old(self).index >= old(self).num_devices ==> r is None
                && final(self).index == old(self).index,
    {
        if self.index < self.num_devices {
            let i = self.index;
            self.index = i + 1;
            Some(i)
        } else {
            None
        }
    }
}

/// The stream information an open request asks for, before negotiation:
/// channel counts from the endpoint parameters, the requested format, rate
/// and frame count, interleaving from the option flags, no latency, no
/// elapsed time.
pub open spec fn spec_initial_info(
    output_device: Option<DeviceParams>,
    input_device: Option<DeviceParams>,
    sample_format: SampleFormat,
    sample_rate: u32,
    buffer_frames: u32,
    flags: StreamFlags,
) -> StreamInfo {
    StreamInfo {
        out_channels: (match output_device {
            Some(p) => p.num_channels as usize,
            None => 0,
        }),
        in_channels: (match input_device {
            Some(p) => p.num_channels as usize,
            None => 0,
        }),
        sample_format: sample_format,
        sample_rate: sample_rate,
        max_frames: buffer_frames as usize,
        deinterleaved: flags.bits & FLAG_NONINTERLEAVED == FLAG_NONINTERLEAVED,
        latency: None,
        stream_time_nanos: 0,
    }
}

impl Host {
    /// The model of a live binding whose backend reports `api`.
    pub fn from_backend(api: Api) -> (h: Host)
        ensures
            h.api == api,
    {
        Host { api }
    }

    /// The backend being used by this binding.
    pub fn api(&self) -> (a: Api)
        ensures
            a == self.api,
    {
        self.api
    }

    /// Begin opening a stream, consuming this host.
    ///
    /// A request that configures neither an output nor an input endpoint is
    /// a caller error: it is rejected here, before any backend call, and the
    /// host comes back for retry. A display name that cannot be marshaled is
    /// rejected the same way. An accepted request arms the error-handler
    /// slot for the session and yields a [`PendingStream`] carrying the host
    /// and everything the backend call needs; the backend's answer then
    /// completes or fails it.
    ///
    /// Only one stream can be open at a time: a structural limitation of the
    /// backend, modeled by this very consumption of the host.
    pub fn open_stream(
        self,
        output_device: Option<DeviceParams>,
        input_device: Option<DeviceParams>,
        sample_format: SampleFormat,
        sample_rate: u32,
        buffer_frames: u32,
        options: StreamOptions,
        bridge: &mut ErrorBridge,
    ) -> (r: Result<PendingStream, (Host, RtAudioError)>)
        ensures
            r is Ok <==> ((output_device is Some || input_device is Some) && spec_name_ok(
                options.name@,
            )),
            output_device is None && input_device is None ==> (r matches Err(p) && p.0 == self
                && p.1.type_ == RtAudioErrorType::InvalidUse && (p.1.msg matches Some(m) && m@
                == "no output or input stream parameters were given"@) && *final(bridge) == *old(
                bridge,
            )),
            (output_device is Some || input_device is Some) && !spec_name_ok(options.name@) ==> (
            r matches Err(p) && p.0 == self && p.1.type_ == RtAudioErrorType::InvalidParamter
                && *final(bridge) == *old(bridge)),
            r matches Ok(p) ==> ({
                &&& p.host == self
                &&& p.output_device == output_device
                &&& p.input_device == input_device
                &&& p.info == spec_initial_info(
                    output_device,
                    input_device,
                    sample_format,
                    sample_rate,
                    buffer_frames,
                    options.flags,
                )
                &&& p.raw_options.flags == options.flags.bits
                &&& p.raw_options.num_buffers == options.num_buffers
                &&& p.raw_options.priority == options.priority
                &&& spec_name_array(options.name@, p.raw_options.name@)
                &&& final(bridge).armed
            }),
    {
        if output_device.is_none() && input_device.is_none() {
            return Err(
                (
                    self,
                    RtAudioError {
                        type_: RtAudioErrorType::InvalidUse,
                        msg: Some(
                            String::from_str("no output or input stream parameters were given"),
                        ),
                    },
                ),
            );
        }
        let raw_options = match options.to_raw() {
            Ok(o) => o,
            Err(e) => { return Err((self, e)) },
        };
        let out_channels: usize = match &output_device {
            Some(p) => p.num_channels as usize,
            None => 0,
        };
        let in_channels: usize = match &input_device {
            Some(p) => p.num_channels as usize,
            None => 0,
        };
        let info = StreamInfo {
            out_channels,
            in_channels,
            sample_format,
            sample_rate,
            max_frames: buffer_frames as usize,
            deinterleaved: options.flags.contains(FLAG_NONINTERLEAVED),
            latency: None,
            stream_time_nanos: 0,
        };
        bridge.register();
        Ok(PendingStream { host: self, info, output_device, input_device, raw_options })
    }
}

} // verus!
