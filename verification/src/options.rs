//! Configuration records for opening a stream, and the marshaling of the
//! stream display name into the fixed-size nul-terminated array the backend
//! expects.

use vstd::prelude::*;
use vstd::string::{StrSliceExecFns, StringExecFns, StringSliceAdditionalSpecFns};
use vstd::utf8::encode_utf8;

use crate::enums::StreamFlags;
use crate::error::{RtAudioError, RtAudioErrorType};

verus! {

/// The size of the backend's fixed name arrays, terminating nul included.
pub const MAX_NAME_LENGTH: usize = 512;

/// The parameters of one endpoint (output or input) of a stream.
#[derive(Debug, Clone, Copy, PartialEq, Eq, Structural)]
pub struct DeviceParams {
    /// The ID (not index) of the device to use.
    pub device_id: u32,
    /// The number of channels in the device to use.
    pub num_channels: u32,
    /// The first channel index on the device (default = 0) to use.
    pub first_channel: u32,
}

impl Default for DeviceParams {
    /// Two channels on device 0, starting at its first channel.
    fn default() -> (p: Self)
        ensures
            p == (DeviceParams { device_id: 0, num_channels: 2, first_channel: 0 }),
    {
        Self { device_id: 0, num_channels: 2, first_channel: 0 }
    }
}

/// Additional options for opening a stream.
#[derive(Debug, Clone, PartialEq)]
pub struct StreamOptions {
    /// The option flags for this stream. By default, no flags are set.
    pub flags: StreamFlags,
    /// The number of extra buffers: controls latency where the backend
    /// honours it; a value of two is usually the smallest allowed. The value
    /// actually used may differ. The default is 4.
    pub num_buffers: u32,
    /// Scheduling priority of the callback thread, honoured only with the
    /// realtime-scheduling flag; `-1` asks for the default priority.
    pub priority: i32,
    /// The display name of the stream. Its encoding, terminating nul
    /// included, must fit the backend's fixed name array.
    pub name: String,
}

impl Default for StreamOptions {
    /// No flags, 4 buffers, default priority, and a stock display name.
    fn default() -> (o: Self)
        ensures
            o.flags.bits == 0,
            o.num_buffers == 4,
            o.priority == -1,
            o.name@ == "RtAudio-rs Client"@,
    {
        Self {
            flags: StreamFlags::empty(),
            num_buffers: 4,
            priority: -1,
            name: String::from_str("RtAudio-rs Client"),
        }
    }
}

/// Whether a display name can be marshaled: its UTF-8 encoding holds no nul
/// byte and, with the terminating nul, fits the backend's name array.
pub open spec fn spec_name_ok(name: Seq<char>) -> bool {
    !encode_utf8(name).contains(0u8) && encode_utf8(name).len() + 1 <= MAX_NAME_LENGTH
}

/// The fixed-size array a well-formed name marshals to: the encoded bytes,
/// then nul padding up to the array size.
pub open spec fn spec_name_array(name: Seq<char>, arr: Seq<u8>) -> bool {
    &&& arr.len() == MAX_NAME_LENGTH
    &&& (forall|i: int| 0 <= i < encode_utf8(name).len() ==> arr[i] == encode_utf8(name)[i])
    &&& (forall|i: int| encode_utf8(name).len() <= i < MAX_NAME_LENGTH ==> arr[i] == 0u8)
}

/// Marshal a string into the backend's fixed-size nul-terminated name array.
///
/// Fails exactly when the string's encoding holds an interior nul byte or,
/// with the terminating nul, does not fit the array.
pub fn str_to_c_array(s: &str) -> (r: Result<Vec<u8>, ()>)
    ensures
        r is Ok <==> spec_name_ok(s@),
        r matches Ok(v) ==> spec_name_array(s@, v@),
{
    let bytes = s.as_bytes_vec();
    if bytes.len() >= MAX_NAME_LENGTH {
        return Err(());
    }
    let mut arr: Vec<u8> = Vec::new();
    let mut i: usize = 0;
    while i < bytes.len()
        invariant
            i <= bytes@.len(),
            bytes@ == encode_utf8(s@),
            bytes@.len() < MAX_NAME_LENGTH,
            arr@ =~= bytes@.take(i as int),
            forall|j: int| 0 <= j < i ==> bytes@[j] != 0u8,
        decreases bytes@.len() - i,
    {
        if bytes[i] == 0 {
            proof {
                assert(bytes@[i as int] == 0u8);
                assert(bytes@.contains(0u8));
            }
            return Err(());
        }
        arr.push(bytes[i]);
        i = i + 1;
    }
    proof {
        assert(!bytes@.contains(0u8)) by {
            if bytes@.contains(0u8) {
                let w = choose|w: int| 0 <= w < bytes@.len() && bytes@[w] == 0u8;
                assert(bytes@[w] != 0u8);
            }
        }
        assert(arr@ =~= bytes@);
    }
    while arr.len() < MAX_NAME_LENGTH
        invariant
            bytes@ == encode_utf8(s@),
            bytes@.len() <= arr@.len() <= MAX_NAME_LENGTH,
            forall|j: int| 0 <= j < bytes@.len() ==> arr@[j] == bytes@[j],
            forall|j: int| bytes@.len() <= j < arr@.len() ==> arr@[j] == 0u8,
        decreases MAX_NAME_LENGTH - arr.len(),
    {
        arr.push(0);
    }
    Ok(arr)
}

/// Stream options marshaled for the backend: flag bits, counts, and the name
/// as a fixed-size nul-terminated array.
#[derive(Debug, Clone, PartialEq)]
pub struct RawStreamOptions {
    pub flags: u32,
    pub num_buffers: u32,
    pub priority: i32,
    /// Exactly `MAX_NAME_LENGTH` bytes: the encoded name, nul padded.
    pub name: Vec<u8>,
}

impl StreamOptions {
    /// Marshal these options for the backend.
    ///
    /// Fails with an invalid-parameter error exactly when the display name
    /// cannot be marshaled.
    pub fn to_raw(&self) -> (r: Result<RawStreamOptions, RtAudioError>)
        ensures
            r is Ok <==> spec_name_ok(self.name@),
            r matches Ok(o) ==> o.flags == self.flags.bits && o.num_buffers == self.num_buffers
                && o.priority == self.priority && spec_name_array(self.name@, o.name@),
            r matches Err(e) ==> e.type_ == RtAudioErrorType::InvalidParamter
                && (e.msg matches Some(m) && m@ == "stream name is invalid"@),
    {
        match str_to_c_array(self.name.as_str()) {
            Ok(name) => Ok(
                RawStreamOptions {
                    flags: self.flags.bits,
                    num_buffers: self.num_buffers,
                    priority: self.priority,
                    name,
                },
            ),
            Err(_) => Err(
                RtAudioError {
                    type_: RtAudioErrorType::InvalidParamter,
                    msg: Some(String::from_str("stream name is invalid")),
                },
            ),
        }
    }
}

} // verus!
