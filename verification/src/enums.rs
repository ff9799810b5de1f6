//! Sample formats, backend identifiers and bit-flag records.
//!
//! The numeric codes below mirror the constants of the native backend's C
//! interface; the conversion functions are specified against them exactly, so
//! the foreign layer can translate in both directions without guessing.

use vstd::prelude::*;

verus! {

/// Native format bit: 8-bit signed integer samples.
pub const FORMAT_SINT8: u64 = 1;
/// Native format bit: 16-bit signed integer samples.
pub const FORMAT_SINT16: u64 = 2;
/// Native format bit: 24-bit signed integer samples, packed in 3 bytes.
pub const FORMAT_SINT24: u64 = 4;
/// Native format bit: 32-bit signed integer samples.
pub const FORMAT_SINT32: u64 = 8;
/// Native format bit: 32-bit floating point samples.
pub const FORMAT_FLOAT32: u64 = 16;
/// Native format bit: 64-bit floating point samples.
pub const FORMAT_FLOAT64: u64 = 32;
/// All native format bits together.
pub const FORMAT_ALL: u64 = 63;

/// The sample format of a stream.
///
/// Audio data fed to and from a stream is always in host byte order; the
/// backend performs any conversion to the device's native format.
#[derive(Debug, Clone, Copy, PartialEq, Eq, Structural)]
pub enum SampleFormat {
    /// 8-bit signed integer.
    SInt8,
    /// 16-bit signed integer.
    SInt16,
    /// 24-bit signed integer, packed in 3 bytes per sample, host byte order.
    SInt24,
    /// 32-bit signed integer.
    SInt32,
    /// 32-bit floating point number, normalized between plus/minus 1.0.
    Float32,
    /// 64-bit floating point number, normalized between plus/minus 1.0.
    Float64,
}

/// The native format bit that stands for this sample format.
pub open spec fn spec_format_bits(f: SampleFormat) -> u64 {
    match f {
        SampleFormat::SInt8 => FORMAT_SINT8,
        SampleFormat::SInt16 => FORMAT_SINT16,
        SampleFormat::SInt24 => FORMAT_SINT24,
        SampleFormat::SInt32 => FORMAT_SINT32,
        SampleFormat::Float32 => FORMAT_FLOAT32,
        SampleFormat::Float64 => FORMAT_FLOAT64,
    }
}

impl SampleFormat {
    /// The format bit understood by the native backend.
    pub fn to_raw(&self) -> (bits: u64)
        ensures
            bits == spec_format_bits(*self),
    {
        match self {
            SampleFormat::SInt8 => FORMAT_SINT8,
            SampleFormat::SInt16 => FORMAT_SINT16,
            SampleFormat::SInt24 => FORMAT_SINT24,
            SampleFormat::SInt32 => FORMAT_SINT32,
            SampleFormat::Float32 => FORMAT_FLOAT32,
            SampleFormat::Float64 => FORMAT_FLOAT64,
        }
    }
}

impl Default for SampleFormat {
    /// 32-bit floating point is the default sample format.
    fn default() -> (f: Self)
        ensures
            f == SampleFormat::Float32,
    {
        SampleFormat::Float32
    }
}

/// The set of native sample formats a device supports, as a bit mask over the
/// `FORMAT_` bits.
#[derive(Debug, Clone, Copy, PartialEq, Eq, Structural)]
pub struct NativeFormats {
    pub bits: u64,
}

impl NativeFormats {
    /// No format bits set.
    pub fn empty() -> (r: NativeFormats)
        ensures
            r.bits == 0,
    {
        NativeFormats { bits: 0 }
    }

    /// Keep only the recognized format bits of a raw backend mask.
    pub fn from_bits_truncate(bits: u64) -> (r: NativeFormats)
        ensures
            r.bits == bits & FORMAT_ALL,
    {
        NativeFormats { bits: bits & FORMAT_ALL }
    }

    /// Whether the device reports native support for `format`.
    pub fn supports(&self, format: SampleFormat) -> (r: bool)
        ensures
            r == (self.bits & spec_format_bits(format) != 0),
    {
        self.bits & format.to_raw() != 0
    }
}

/// Stream option flag: use non-interleaved buffers (default is interleaved).
pub const FLAG_NONINTERLEAVED: u32 = 1;
/// Stream option flag: attempt to set parameters for the lowest possible
/// latency, possibly at the expense of stream performance.
pub const FLAG_MINIMIZE_LATENCY: u32 = 2;
/// Stream option flag: attempt to grab the device for exclusive use.
pub const FLAG_HOG_DEVICE: u32 = 4;
/// Stream option flag: attempt realtime (round-robin) scheduling for the
/// callback thread.
pub const FLAG_SCHEDULE_REALTIME: u32 = 8;
/// Stream option flag: open the default PCM device when using the ALSA
/// backend, overriding any specified device.
pub const FLAG_ALSA_USE_DEFAULT: u32 = 16;
/// Stream option flag: do not automatically connect ports (JACK only).
pub const FLAG_JACK_DONT_CONNECT: u32 = 32;

/// Stream option flags, as a bit mask over the `FLAG_` bits.
#[derive(Debug, Clone, Copy, PartialEq, Eq, Structural)]
pub struct StreamFlags {
    pub bits: u32,
}

impl StreamFlags {
    /// No flags set.
    pub fn empty() -> (r: StreamFlags)
        ensures
            r.bits == 0,
    {
        StreamFlags { bits: 0 }
    }

    /// Flags with exactly the given bits set.
    pub fn from_bits(bits: u32) -> (r: StreamFlags)
        ensures
            r.bits == bits,
    {
        StreamFlags { bits }
    }

    /// Whether every bit in `mask` is set.
    pub fn contains(&self, mask: u32) -> (r: bool)
        ensures
            r == (self.bits & mask == mask),
    {
        self.bits & mask == mask
    }

    /// These flags together with every bit in `mask`.
    pub fn with(&self, mask: u32) -> (r: StreamFlags)
        ensures
            r.bits == self.bits | mask,
    {
        StreamFlags { bits: self.bits | mask }
    }
}

/// Stream status bit: input data was discarded because of an overflow at the
/// driver.
pub const STATUS_INPUT_OVERFLOW: u32 = 1;
/// Stream status bit: the output buffer ran low, likely producing a break in
/// the output sound.
pub const STATUS_OUTPUT_UNDERFLOW: u32 = 2;
/// All stream status bits together.
pub const STATUS_ALL: u32 = 3;

/// Over- or underflow conditions reported to the data callback, as a bit mask
/// over the `STATUS_` bits.
#[derive(Debug, Clone, Copy, PartialEq, Eq, Structural)]
pub struct StreamStatus {
    pub bits: u32,
}

impl StreamStatus {
    /// No status bits set.
    pub fn empty() -> (r: StreamStatus)
        ensures
            r.bits == 0,
    {
        StreamStatus { bits: 0 }
    }

    /// Keep only the recognized status bits of a raw backend word.
    pub fn from_bits_truncate(bits: u32) -> (r: StreamStatus)
        ensures
            r.bits == bits & STATUS_ALL,
    {
        StreamStatus { bits: bits & STATUS_ALL }
    }

    /// Whether every bit in `mask` is set.
    pub fn contains(&self, mask: u32) -> (r: bool)
        ensures
            r == (self.bits & mask == mask),
    {
        self.bits & mask == mask
    }
}

/// Backend code: search for a default working backend.
pub const API_UNSPECIFIED: i32 = 0;
/// Backend code: Macintosh OS-X Core Audio.
pub const API_MACOSX_CORE: i32 = 1;
/// Backend code: the Advanced Linux Sound Architecture.
pub const API_LINUX_ALSA: i32 = 2;
/// Backend code: the Jack Low-Latency Audio Server.
pub const API_UNIX_JACK: i32 = 3;
/// Backend code: the Linux PulseAudio server.
pub const API_LINUX_PULSE: i32 = 4;
/// Backend code: the Linux Open Sound System.
pub const API_LINUX_OSS: i32 = 5;
/// Backend code: the Steinberg Audio Stream I/O interface.
pub const API_WINDOWS_ASIO: i32 = 6;
/// Backend code: the Microsoft WASAPI interface.
pub const API_WINDOWS_WASAPI: i32 = 7;
/// Backend code: the Microsoft DirectSound interface.
pub const API_WINDOWS_DS: i32 = 8;
/// Backend code: a compilable but non-functional backend.
pub const API_DUMMY: i32 = 9;

/// One native audio backend, or `Unspecified` to let the engine choose.
#[derive(Debug, Clone, Copy, PartialEq, Eq, Structural)]
pub enum Api {
    /// Search for a default working compiled backend.
    Unspecified,
    /// Macintosh OS-X Core Audio.
    MacOSXCore,
    /// The Advanced Linux Sound Architecture.
    LinuxALSA,
    /// The Jack Low-Latency Audio Server.
    UnixJack,
    /// The Linux PulseAudio server.
    LinuxPulse,
    /// The Linux Open Sound System.
    LinuxOSS,
    /// The Steinberg Audio Stream I/O interface.
    WindowsASIO,
    /// The Microsoft WASAPI interface.
    WindowsWASAPI,
    /// The Microsoft DirectSound interface.
    WindowsDS,
    /// A compilable but non-functional backend.
    Dummy,
}

/// The backend, if any, that a raw backend code stands for.
pub open spec fn spec_api_from_raw(a: i32) -> Option<Api> {
    if a == API_UNSPECIFIED {
        Some(Api::Unspecified)
    } else if a == API_MACOSX_CORE {
        Some(Api::MacOSXCore)
    } else if a == API_LINUX_ALSA {
        Some(Api::LinuxALSA)
    } else if a == API_UNIX_JACK {
        Some(Api::UnixJack)
    } else if a == API_LINUX_PULSE {
        Some(Api::LinuxPulse)
    } else if a == API_LINUX_OSS {
        Some(Api::LinuxOSS)
    } else if a == API_WINDOWS_ASIO {
        Some(Api::WindowsASIO)
    } else if a == API_WINDOWS_WASAPI {
        Some(Api::WindowsWASAPI)
    } else if a == API_WINDOWS_DS {
        Some(Api::WindowsDS)
    } else if a == API_DUMMY {
        Some(Api::Dummy)
    } else {
        None
    }
}

/// The raw backend code of a backend.
pub open spec fn spec_api_to_raw(a: Api) -> i32 {
    match a {
        Api::Unspecified => API_UNSPECIFIED,
        Api::MacOSXCore => API_MACOSX_CORE,
        Api::LinuxALSA => API_LINUX_ALSA,
        Api::UnixJack => API_UNIX_JACK,
        Api::LinuxPulse => API_LINUX_PULSE,
        Api::LinuxOSS => API_LINUX_OSS,
        Api::WindowsASIO => API_WINDOWS_ASIO,
        Api::WindowsWASAPI => API_WINDOWS_WASAPI,
        Api::WindowsDS => API_WINDOWS_DS,
        Api::Dummy => API_DUMMY,
    }
}

impl Api {
    /// The backend a raw backend code stands for, or `None` for an
    /// unrecognized code.
    pub fn from_raw(a: i32) -> (r: Option<Api>)
        ensures
            r == spec_api_from_raw(a),
    {
        if a == API_UNSPECIFIED {
            Some(Api::Unspecified)
        } else if a == API_MACOSX_CORE {
            Some(Api::MacOSXCore)
        } else if a == API_LINUX_ALSA {
            Some(Api::LinuxALSA)
        } else if a == API_UNIX_JACK {
            Some(Api::UnixJack)
        } else if a == API_LINUX_PULSE {
            Some(Api::LinuxPulse)
        } else if a == API_LINUX_OSS {
            Some(Api::LinuxOSS)
        } else if a == API_WINDOWS_ASIO {
            Some(Api::WindowsASIO)
        } else if a == API_WINDOWS_WASAPI {
            Some(Api::WindowsWASAPI)
        } else if a == API_WINDOWS_DS {
            Some(Api::WindowsDS)
        } else if a == API_DUMMY {
            Some(Api::Dummy)
        } else {
            None
        }
    }

    /// The raw code understood by the native backend.
    pub fn to_raw(&self) -> (r: i32)
        ensures
            r == spec_api_to_raw(*self),
    {
        match self {
            Api::Unspecified => API_UNSPECIFIED,
            Api::MacOSXCore => API_MACOSX_CORE,
            Api::LinuxALSA => API_LINUX_ALSA,
            Api::UnixJack => API_UNIX_JACK,
            Api::LinuxPulse => API_LINUX_PULSE,
            Api::LinuxOSS => API_LINUX_OSS,
            Api::WindowsASIO => API_WINDOWS_ASIO,
            Api::WindowsWASAPI => API_WINDOWS_WASAPI,
            Api::WindowsDS => API_WINDOWS_DS,
            Api::Dummy => API_DUMMY,
        }
    }

    /// The outcome of a backend-name lookup: the raw code the lookup
    /// reported, turned into a backend.
    ///
    /// The lookup reports `Unspecified` for an unknown name, so that code is
    /// no successful answer and yields `None` here.
    pub fn from_lookup(raw: i32) -> (r: Option<Api>)
        ensures
            r == (match spec_api_from_raw(raw) {
                Some(a) => if a == Api::Unspecified {
                    None::<Api>
                } else {
                    Some(a)
                },
                None => None::<Api>,
            }),
    {
        match Api::from_raw(raw) {
            Some(a) => {
                if a == Api::Unspecified {
                    None
                } else {
                    Some(a)
                }
            },
            None => None,
        }
    }
}

/// The recognized backends among a raw list of backend codes, in the order
/// they were reported, unrecognized codes dropped.
pub open spec fn spec_apis_from_raw(s: Seq<i32>) -> Seq<Api>
    decreases s.len(),
{
    if s.len() == 0 {
        Seq::empty()
    } else {
        let rest = spec_apis_from_raw(s.drop_last());
        match spec_api_from_raw(s.last()) {
            Some(a) => rest.push(a),
            None => rest,
        }
    }
}

/// Turn the backend's raw list of compiled backend codes into backends,
/// dropping unrecognized codes.
pub fn apis_from_raw(raw: &Vec<i32>) -> (r: Vec<Api>)
    ensures
        r@ == spec_apis_from_raw(raw@),
{
    let mut r: Vec<Api> = Vec::new();
    let mut i: usize = 0;
    while i < raw.len()
        invariant
            i <= raw.len(),
            r@ == spec_apis_from_raw(raw@.take(i as int)),
        decreases raw.len() - i,
    {
        proof {
            assert(raw@.take(i + 1 as int).drop_last() =~= raw@.take(i as int));
            assert(raw@.take(i + 1 as int).last() == raw@[i as int]);
        }
        match Api::from_raw(raw[i]) {
            Some(a) => r.push(a),
            None => {},
        }
        i = i + 1;
    }
    proof {
        assert(raw@.take(raw@.len() as int) =~= raw@);
    }
    r
}

} // verus!
