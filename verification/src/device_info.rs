//! Device descriptors and their construction from raw backend records.
//!
//! The backend answers a device query with a C-shaped record: fixed-size
//! arrays for the supported sample rates and the display name, integers for
//! booleans. [`DeviceInfo::from_raw`] turns such a record into an owned
//! descriptor: the rate list ends at the first zero entry, the name at the
//! first nul byte.

use vstd::prelude::*;
use vstd::string::StringExecFns;

use crate::enums::NativeFormats;

verus! {

/// A unique identifier for a device.
#[derive(Debug, Clone, Copy, PartialEq, Eq, PartialOrd, Ord, Hash, Structural)]
pub struct DeviceID(pub u32);

/// Queried information about a device: an immutable snapshot, owned by the
/// caller once returned, never cached by the engine.
#[derive(Debug, Clone, PartialEq)]
pub struct DeviceInfo {
    /// The unique identifier of this device.
    pub id: DeviceID,
    /// The number of output channels on this device.
    pub output_channels: u32,
    /// The number of input channels on this device.
    pub input_channels: u32,
    /// The number of duplex channels on this device.
    pub duplex_channels: u32,
    /// Whether or not this device is the default output device.
    pub is_default_output: bool,
    /// Whether or not this device is the default input device.
    pub is_default_input: bool,
    /// The native sample formats that this device supports.
    ///
    /// A stream may still be opened with any format; the backend converts to
    /// and from the best native format.
    pub native_formats: NativeFormats,
    /// The device's preferred sample rate.
    pub preferred_sample_rate: u32,
    /// The available sample rates for this device.
    pub sample_rates: Vec<u32>,
    /// The display name of the device.
    pub name: String,
}

/// A device record as the backend reports it: the fixed-size rate and name
/// arrays copied into vectors, booleans still encoded as integers.
#[derive(Debug, Clone)]
pub struct RawDeviceInfo {
    pub id: u32,
    pub output_channels: u32,
    pub input_channels: u32,
    pub duplex_channels: u32,
    pub is_default_output: i32,
    pub is_default_input: i32,
    pub native_formats: u64,
    pub preferred_sample_rate: u32,
    /// The supported-rate array; entries past the last real rate are zero.
    pub sample_rates: Vec<u32>,
    /// The display-name array: a nul-terminated byte string.
    pub name: Vec<u8>,
}

/// Index of the first occurrence of `stop` in `s`, or `s.len()` if `stop`
/// does not occur.
pub open spec fn spec_find<T>(s: Seq<T>, stop: T) -> int
    decreases s.len(),
{
    if s.len() == 0 {
        0
    } else if s[0] == stop {
        0
    } else {
        1 + spec_find(s.drop_first(), stop)
    }
}

/// `spec_find` answers `k` exactly when `stop` occurs nowhere before `k` and
/// at `k` if `k` is in range.
proof fn lemma_spec_find_is<T>(s: Seq<T>, stop: T, k: int)
    requires
        0 <= k <= s.len(),
        forall|j: int| 0 <= j < k ==> s[j] != stop,
        k < s.len() ==> s[k] == stop,
    ensures
        spec_find(s, stop) == k,
    decreases k,
{
    if s.len() == 0 {
    } else if k == 0 {
    } else {
        assert(s[0] != stop);
        assert forall|j: int| 0 <= j < k - 1 implies s.drop_first()[j] != stop by {
            assert(s.drop_first()[j] == s[j + 1]);
        }
        if k - 1 < s.len() - 1 {
            assert(s.drop_first()[k - 1] == s[k]);
        }
        lemma_spec_find_is(s.drop_first(), stop, k - 1);
    }
}

/// Index of the first zero entry of `v`, or its length if none is zero.
fn find_zero_u32(v: &Vec<u32>) -> (i: usize)
    ensures
        i == spec_find(v@, 0u32),
        i <= v@.len(),
{
    let mut i: usize = 0;
    while i < v.len()
        invariant
            i <= v.len(),
            forall|j: int| 0 <= j < i ==> v@[j] != 0u32,
        decreases v.len() - i,
    {
        if v[i] == 0 {
            proof {
                lemma_spec_find_is(v@, 0u32, i as int);
            }
            return i;
        }
        i = i + 1;
    }
    proof {
        lemma_spec_find_is(v@, 0u32, v@.len() as int);
    }
    i
}

/// Index of the first nul byte of `v`, or its length if none is nul.
fn find_nul(v: &Vec<u8>) -> (i: usize)
    ensures
        i == spec_find(v@, 0u8),
        i <= v@.len(),
{
    let mut i: usize = 0;
    while i < v.len()
        invariant
            i <= v.len(),
            forall|j: int| 0 <= j < i ==> v@[j] != 0u8,
        decreases v.len() - i,
    {
        if v[i] == 0 {
            proof {
                lemma_spec_find_is(v@, 0u8, i as int);
            }
            return i;
        }
        i = i + 1;
    }
    proof {
        lemma_spec_find_is(v@, 0u8, v@.len() as int);
    }
    i
}

/// The characters that lossy UTF-8 decoding yields for a byte string; the
/// result depends on the bytes alone.
pub uninterp spec fn lossy_utf8_of(bytes: Seq<u8>) -> Seq<char>;

/// Relies on `String::from_utf8_lossy`: the result is a function of the bytes
/// alone, and valid UTF-8 decodes exactly, without replacement characters.
#[verifier::external_body]
fn bytes_to_string_lossy(bytes: &Vec<u8>) -> (r: String)
    ensures
        r@ == lossy_utf8_of(bytes@),
        vstd::utf8::valid_utf8(bytes@) ==> r@ == vstd::utf8::decode_utf8(bytes@),
{
    String::from_utf8_lossy(bytes).into_owned()
}

/// The display name a raw record decodes to: the bytes before the first nul,
/// decoded leniently; a record with no nul at all is malformed and yields the
/// fallback name `error`.
pub open spec fn spec_raw_name(name: Seq<u8>) -> Seq<char> {
    if spec_find(name, 0u8) < name.len() {
        lossy_utf8_of(name.take(spec_find(name, 0u8)))
    } else {
        "error"@
    }
}

impl DeviceInfo {
    /// Build a device descriptor from a raw backend record.
    ///
    /// The supported-rate list is the prefix of the rate array before its
    /// first zero entry; the display name is decoded from the name bytes
    /// before the first nul. Booleans are nonzero integers; unrecognized
    /// native-format bits are dropped.
    pub fn from_raw(d: RawDeviceInfo) -> (info: DeviceInfo)
        ensures
            info.id == (DeviceID(d.id)),
            info.output_channels == d.output_channels,
            info.input_channels == d.input_channels,
            info.duplex_channels == d.duplex_channels,
            info.is_default_output == (d.is_default_output != 0),
            info.is_default_input == (d.is_default_input != 0),
            info.native_formats.bits == d.native_formats & crate::enums::FORMAT_ALL,
            info.preferred_sample_rate == d.preferred_sample_rate,
            info.sample_rates@ == d.sample_rates@.take(spec_find(d.sample_rates@, 0u32)),
            info.name@ == spec_raw_name(d.name@),
    {
        let rates_end = find_zero_u32(&d.sample_rates);
        let mut sample_rates: Vec<u32> = Vec::new();
        let mut i: usize = 0;
        while i < rates_end
            invariant
                i <= rates_end,
                rates_end == spec_find(d.sample_rates@, 0u32),
                rates_end <= d.sample_rates@.len(),
                sample_rates@ == d.sample_rates@.take(i as int),
            decreases rates_end - i,
        {
            sample_rates.push(d.sample_rates[i]);
            proof {
                assert(sample_rates@ =~= d.sample_rates@.take(i + 1 as int));
            }
            i = i + 1;
        }

        let name_end = find_nul(&d.name);
        let name = if name_end < d.name.len() {
            let mut prefix: Vec<u8> = Vec::new();
            let mut j: usize = 0;
            while j < name_end
                invariant
                    j <= name_end,
                    name_end <= d.name@.len(),
                    prefix@ == d.name@.take(j as int),
                decreases name_end - j,
            {
                prefix.push(d.name[j]);
                proof {
                    assert(prefix@ =~= d.name@.take(j + 1 as int));
                }
                j = j + 1;
            }
            bytes_to_string_lossy(&prefix)
        } else {
            String::from_str("error")
        };

        DeviceInfo {
            id: DeviceID(d.id),
            output_channels: d.output_channels,
            input_channels: d.input_channels,
            duplex_channels: d.duplex_channels,
            is_default_output: d.is_default_output != 0,
            is_default_input: d.is_default_input != 0,
            native_formats: NativeFormats::from_bits_truncate(d.native_formats),
            preferred_sample_rate: d.preferred_sample_rate,
            sample_rates,
            name,
        }
    }
}

} // verus!
