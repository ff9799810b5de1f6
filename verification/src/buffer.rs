//! Sizing of the typed sample views handed to the data callback.
//!
//! Once per period the realtime thread receives two opaque backend-owned
//! buffers — output and input — plus a frame count. The foreign layer turns
//! each into a typed slice; how many elements that slice must have is decided
//! here. Materializing the slice itself is inherently unchecked: that the
//! backend allocated exactly this many elements is guaranteed by the
//! negotiated stream configuration, not verifiable in this layer.

use vstd::prelude::*;

use crate::enums::SampleFormat;

verus! {

/// How many length units one sample occupies in a view of this format: the
/// packed 24-bit format is presented as raw bytes, 3 per sample; every other
/// format is presented as whole scalars, 1 per sample.
pub open spec fn spec_packed_width(f: SampleFormat) -> nat {
    if f == SampleFormat::SInt24 {
        3
    } else {
        1
    }
}

/// The length of one side's sample view: `channels × frames` elements
/// (`× 3` bytes for the packed 24-bit format), or empty when the backend
/// passed no buffer or the side has no channels.
pub open spec fn spec_view_len(present: bool, channels: nat, frames: nat, f: SampleFormat) -> nat {
    if !present || channels == 0 {
        0
    } else {
        channels * frames * spec_packed_width(f)
    }
}

/// The element counts of the two sample views of one callback invocation.
#[derive(Debug, Clone, Copy, PartialEq, Eq, Structural)]
pub struct BufferSizes {
    /// Length of the writable output view.
    pub out_len: u64,
    /// Length of the read-only input view.
    pub in_len: u64,
}

/// The view length of one side of a callback invocation.
///
/// `present` is false when the backend passed a null buffer for this side.
pub fn side_view_len(present: bool, channels: usize, frames: u32, format: SampleFormat) -> (len:
    u64)
    requires
        spec_view_len(present, channels as nat, frames as nat, format) <= u64::MAX,
    ensures
        len == spec_view_len(present, channels as nat, frames as nat, format),
{
    if !present || channels == 0 {
        0
    } else {
        proof {
            let c = channels as nat;
            let f = frames as nat;
            let pw = spec_packed_width(format);
            assert(c * f <= c * f * pw && (pw == 1 ==> c * f * pw == c * f)) by (nonlinear_arith)
                requires
                    pw >= 1,
            ;
        }
        let base: u64 = (channels as u64) * (frames as u64);
        if let SampleFormat::SInt24 = format {
            base * 3
        } else {
            base
        }
    }
}

/// The view lengths of both sides of a callback invocation.
///
/// This is the whole length contract of the marshaling layer: each view has
/// `channels × frames` elements (`× 3` bytes for the packed 24-bit format)
/// and is empty exactly when its pointer or its channel count is absent.
pub fn buffer_sizes(
    out_present: bool,
    in_present: bool,
    frames: u32,
    out_channels: usize,
    in_channels: usize,
    format: SampleFormat,
) -> (r: BufferSizes)
    requires
        spec_view_len(out_present, out_channels as nat, frames as nat, format) <= u64::MAX,
        spec_view_len(in_present, in_channels as nat, frames as nat, format) <= u64::MAX,
    ensures
        r.out_len == spec_view_len(out_present, out_channels as nat, frames as nat, format),
        r.in_len == spec_view_len(in_present, in_channels as nat, frames as nat, format),
{
    BufferSizes {
        out_len: side_view_len(out_present, out_channels, frames, format),
        in_len: side_view_len(in_present, in_channels, frames, format),
    }
}

/// For every supported format, a view built for `frames` frames and
/// `channels` channels has length `channels × frames` — `× 3` bytes for the
/// packed 24-bit format, whole scalars otherwise — and is empty exactly when
/// the buffer pointer or the channel count is absent.
pub proof fn lemma_view_len_formula(
    present: bool,
    channels: nat,
    frames: nat,
    format: SampleFormat,
)
    ensures
        present && channels > 0 ==> spec_view_len(present, channels, frames, format) == channels
            * frames * spec_packed_width(format),
        format == SampleFormat::SInt24 ==> spec_packed_width(format) == 3,
        format != SampleFormat::SInt24 ==> spec_packed_width(format) == 1,
        (!present || channels == 0) ==> spec_view_len(present, channels, frames, format) == 0,
{
}

} // verus!
