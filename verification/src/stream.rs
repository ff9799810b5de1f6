//! The stream lifecycle state machine and the per-period callback plan.
//!
//! A stream session moves `Opened(stopped) → Started → Opened(stopped)` and
//! ends when [`Stream::close`] consumes it, handing the native binding back
//! as a reusable host. The foreign layer performs the backend calls; every
//! transition decision — what a start failure leaves behind, when a stop must
//! touch the backend, what a close returns — is made and proved here.

use vstd::prelude::*;

use crate::bridge::ErrorBridge;
use crate::buffer::{buffer_sizes, spec_view_len, BufferSizes};
use crate::enums::SampleFormat;
use crate::error::RtAudioError;
use crate::host::Host;

verus! {

/// Information about an open stream. All fields are fixed at open — the
/// negotiated values, never the raw request — except the elapsed time, which
/// the realtime thread refreshes once per callback invocation.
#[derive(Debug, Clone, PartialEq)]
pub struct StreamInfo {
    /// The number of output audio channels.
    pub out_channels: usize,
    /// The number of input audio channels.
    pub in_channels: usize,
    /// The sample format.
    pub sample_format: SampleFormat,
    /// The negotiated sample rate.
    pub sample_rate: u32,
    /// The maximum number of frames that can appear in one callback
    /// invocation.
    pub max_frames: usize,
    /// Whether the buffers are interleaved (false) or deinterleaved (true).
    pub deinterleaved: bool,
    /// The internal latency in frames, or `None` if the backend does not
    /// report latency.
    pub latency: Option<usize>,
    /// Nanoseconds elapsed since the stream was started.
    pub stream_time_nanos: u64,
}

impl Default for StreamInfo {
    /// A blank record: no channels, the default format, everything zero.
    fn default() -> (info: Self)
        ensures
            info.out_channels == 0,
            info.in_channels == 0,
            info.sample_format == SampleFormat::Float32,
            info.sample_rate == 0,
            info.max_frames == 0,
            !info.deinterleaved,
            info.latency is None,
            info.stream_time_nanos == 0,
    {
        StreamInfo {
            out_channels: 0,
            in_channels: 0,
            sample_format: SampleFormat::Float32,
            sample_rate: 0,
            max_frames: 0,
            deinterleaved: false,
            latency: None,
            stream_time_nanos: 0,
        }
    }
}

/// A stream open that passed every caller-side check and may now be offered
/// to the backend. Holds the consumed host binding; completing it yields a
/// [`Stream`], failing it returns the binding for retry.
#[derive(Debug, Clone, PartialEq)]
pub struct PendingStream {
    /// The host binding consumed by the open; on failure it is handed back.
    pub host: Host,
    /// The stream information as requested; negotiation overwrites the
    /// sample rate, the maximum frame count and the latency.
    pub info: StreamInfo,
    /// The requested output endpoint, if any.
    pub output_device: Option<crate::options::DeviceParams>,
    /// The requested input endpoint, if any.
    pub input_device: Option<crate::options::DeviceParams>,
    /// The marshaled stream options for the backend call.
    pub raw_options: crate::options::RawStreamOptions,
}

impl PendingStream {
    /// Roll the open back after a backend failure: the handler slot is
    /// cleared and the host binding returns to the caller, usable for
    /// another attempt.
    pub fn fail(self, bridge: &mut ErrorBridge, e: RtAudioError) -> (r: (Host, RtAudioError))
        ensures
            r.0 == self.host,
            r.1 == e,
            !final(bridge).armed,
    {
        bridge.clear();
        (self.host, e)
    }

    /// Complete the open with the values the backend negotiated: the frame
    /// count it wrote back, the latency it reports (nonpositive meaning
    /// unreported), and the sample rate it reports (zero meaning
    /// unreported). The resulting stream is open and stopped.
    ///
    /// The negotiated values overwrite the request: the stream's maximum
    /// frame count is the backend's, and its sample rate is the backend's
    /// whenever one was reported.
    pub fn complete(self, negotiated_frames: u32, latency: i64, reported_rate: u32) -> (s: Stream)
        requires
            latency <= usize::MAX,
        ensures
            s.host == self.host,
            !s.started,
            s.info.out_channels == self.info.out_channels,
            s.info.in_channels == self.info.in_channels,
            s.info.sample_format == self.info.sample_format,
            s.info.deinterleaved == self.info.deinterleaved,
            s.info.max_frames == negotiated_frames as usize,
            s.info.sample_rate == (if reported_rate > 0 {
                reported_rate
            } else {
                self.info.sample_rate
            }),
            s.info.latency == (if latency > 0 {
                Some(latency as usize)
            } else {
                None::<usize>
            }),
            s.info.stream_time_nanos == 0,
    {
        let mut info = self.info;
        info.max_frames = negotiated_frames as usize;
        if reported_rate > 0 {
            info.sample_rate = reported_rate;
        }
        info.latency = if latency > 0 {
            Some(latency as usize)
        } else {
            None
        };
        info.stream_time_nanos = 0;
        Stream { info, started: false, host: self.host }
    }
}

/// An open stream session: the lifecycle state machine that owns the native
/// binding until [`Stream::close`] hands it back.
#[derive(Debug, Clone, PartialEq)]
pub struct Stream {
    /// The negotiated stream information.
    pub info: StreamInfo,
    /// Whether the stream is started: true exactly between a successful
    /// start and the next stop.
    pub started: bool,
    /// The native binding the session owns; close returns it as a reusable
    /// host.
    pub host: Host,
}

/// The outcome of a start attempt.
#[derive(Debug, Clone, PartialEq)]
pub enum StartOutcome {
    /// The stream is running.
    Started,
    /// The start failed: the foreign layer must stop the backend
    /// defensively before surfacing this error, and the stream stays
    /// stopped and reusable for another start attempt.
    FailedStopBackend(RtAudioError),
}

/// A stream after a stop: the same session, no longer started.
pub open spec fn spec_stopped(s: Stream) -> Stream {
    Stream { info: s.info, started: false, host: s.host }
}

impl Stream {
    /// Information about the stream.
    pub fn info(&self) -> (r: &StreamInfo)
        ensures
            *r == self.info,
    {
        &self.info
    }

    /// Decide the outcome of a start attempt from the backend's report.
    ///
    /// The foreign layer installs the data callback, arms the backend, and
    /// passes the backend's error report here. The stream is started exactly
    /// when the backend reported success; on failure it stays stopped, so
    /// the state never reads as started while the backend actually failed.
    pub fn on_start(&mut self, backend: Result<(), RtAudioError>) -> (r: StartOutcome)
        ensures
            final(self).info == old(self).info,
            final(self).host == old(self).host,
            final(self).started <==> backend is Ok,
            r is Started <==> backend is Ok,
            backend matches Err(e) ==> r == StartOutcome::FailedStopBackend(e),
    {
        match backend {
            Ok(()) => {
                self.started = true;
                StartOutcome::Started
            },
            Err(e) => {
                self.started = false;
                StartOutcome::FailedStopBackend(e)
            },
        }
    }

    /// Stop the stream; idempotent.
    ///
    /// Returns whether the foreign layer must stop the backend: true exactly
    /// when the stream was started, so a stop of an already-stopped stream
    /// performs no backend call. The handler slot is cleared either way. The
    /// foreign layer blocks in the backend stop until no further callback
    /// invocation can occur, and only then replaces the installed data
    /// callback with a no-op, so the previous one drops race-free.
    pub fn stop(&mut self, bridge: &mut ErrorBridge) -> (need_backend_stop: bool)
        ensures
            need_backend_stop == old(self).started,
            *final(self) == spec_stopped(*old(self)),
            !final(bridge).armed,
    {
        let was_started = self.started;
        self.started = false;
        bridge.clear();
        was_started
    }

    /// Close the stream, consuming the session.
    ///
    /// Returns whether the foreign layer must stop the backend first — true
    /// exactly when the stream was still started — and the native binding
    /// repurposed as a host, always usable for opening another stream, even
    /// if this one was never started. The handler slot is cleared.
    pub fn close(self, bridge: &mut ErrorBridge) -> (r: (bool, Host))
        ensures
            r.0 == self.started,
            r.1 == self.host,
            !final(bridge).armed,
    {
        bridge.clear();
        (self.started, self.host)
    }
}

/// Stopping is idempotent: a second stop in a row finds the stream already
/// stopped, changes nothing, and — since [`Stream::stop`] asks for a backend
/// stop only of a started stream — performs no backend call either time
/// after the first.
pub proof fn lemma_stop_idempotent(s: Stream)
    ensures
        !spec_stopped(s).started,
        spec_stopped(spec_stopped(s)) == spec_stopped(s),
{
}

/// What the realtime thread must do for one callback invocation.
#[derive(Debug, Clone, Copy, PartialEq, Eq, Structural)]
pub enum CallbackAction {
    /// No callback context was supplied: abort the stream.
    AbortStream,
    /// An empty period: invoke nothing.
    Idle,
    /// Materialize sample views of these sizes, then invoke the data
    /// callback on them.
    Process(BufferSizes),
}

impl CallbackAction {
    /// The return code the backend expects for this action: nonzero aborts
    /// the stream.
    pub fn return_code(&self) -> (c: i32)
        ensures
            c == (if *self is AbortStream {
                2int
            } else {
                0int
            }),
    {
        match self {
            CallbackAction::AbortStream => 2,
            _ => 0,
        }
    }
}

/// Plan one invocation of the realtime data callback.
///
/// `context_present` is whether the backend handed back the callback
/// context; without it nothing can run and the stream is aborted.
/// `out_present` and `in_present` say which buffer pointers the backend
/// passed. A period of zero frames does nothing. Otherwise the views to
/// materialize have exactly the lengths of [`buffer_sizes`]: `channels ×
/// frames` elements per side (`× 3` bytes for the packed 24-bit format),
/// empty where a pointer or channel count is absent.
pub fn plan_data_callback(
    context_present: bool,
    out_present: bool,
    in_present: bool,
    frames: u32,
    info: &StreamInfo,
) -> (a: CallbackAction)
    requires
        spec_view_len(out_present, info.out_channels as nat, frames as nat, info.sample_format)
            <= u64::MAX,
        spec_view_len(in_present, info.in_channels as nat, frames as nat, info.sample_format)
            <= u64::MAX,
    ensures
        a is AbortStream <==> !context_present,
        a is Idle <==> (context_present && frames == 0),
        a is Process <==> (context_present && frames > 0),
        a matches CallbackAction::Process(s) ==> s.out_len == spec_view_len(
            out_present,
            info.out_channels as nat,
            frames as nat,
            info.sample_format,
        ) && s.in_len == spec_view_len(
            in_present,
            info.in_channels as nat,
            frames as nat,
            info.sample_format,
        ),
{
    if !context_present {
        CallbackAction::AbortStream
    } else if frames == 0 {
        CallbackAction::Idle
    } else {
        CallbackAction::Process(
            buffer_sizes(
                out_present,
                in_present,
                frames,
                info.out_channels,
                info.in_channels,
                info.sample_format,
            ),
        )
    }
}

} // verus!
