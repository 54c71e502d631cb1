//! The decoder's fixed-point sample format and its conversions to integers.
//!
//! A sample is a 32-bit signed number with one sign bit, three whole-number
//! bits and 28 fractional bits, so that the raw value `0x1000_0000` stands
//! for 1.0.

use vstd::prelude::*;
use vstd::std_specs::convert::FromSpec;

verus! {

/// The raw value that stands for 1.0: two to the power of 28, the number of
/// fractional bits.
pub const UNITY: i32 = 0x1000_0000;

/// The raw value of one step of a 16-bit sample: the 13 bits that a sample
/// has below the resolution of 16 bits.
pub const STEP16: i32 = 0x2000;

/// `v` limited to the closed range from `lo` to `hi`.
pub open spec fn clip(v: int, lo: int, hi: int) -> int {
    if v < lo {
        lo
    } else if v > hi {
        hi
    } else {
        v
    }
}

/// The 16-bit value of the raw sample `raw`: half a step is added, the sum
/// is limited to the range from -1.0 up to the last value below 1.0, and the
/// bits below the 16-bit resolution are dropped.
pub open spec fn quantize16(raw: int) -> int {
    clip(raw + STEP16 / 2, -UNITY, UNITY - 1) / (STEP16 as int)
}

/// The 32-bit value of the raw sample `raw`: eight times the raw value,
/// limited to what 32 bits hold.
pub open spec fn widen32(raw: int) -> int {
    clip(8 * raw, i32::MIN as int, i32::MAX as int)
}

/// The raw sample for the 32-bit value `v`: an eighth of it, rounded
/// towards zero.
pub open spec fn narrow32(v: int) -> int {
    if v >= 0 {
        v / 8
    } else {
        -((-v) / 8)
    }
}

/// A sample in the decoder's native fixed-point format.
///
/// A 32-bit value comprised of a sign bit, three whole number bits and 28
/// fractional bits.
#[derive(Clone, Copy, Debug, PartialEq, Eq, Structural)]
pub struct MadFixed32 {
    value: i32,
}

impl View for MadFixed32 {
    type V = i32;

    /// The raw fixed-point value.
    closed spec fn view(&self) -> i32 {
        self.value
    }
}

impl DeepView for MadFixed32 {
    type V = i32;

    open spec fn deep_view(&self) -> i32 {
        self@
    }
}

impl MadFixed32 {
    /// Construct a sample from a value in the fixed-point format.
    pub fn new(v: i32) -> (r: MadFixed32)
        ensures
            r@ == v,
    {
        MadFixed32 { value: v }
    }

    /// Get the raw fixed-point representation.
    pub fn to_raw(&self) -> (r: i32)
        ensures
            r == self@,
    {
        self.value
    }

    /// Convert to a 16-bit sample, rounding to the nearest step and clipping
    /// to the 16-bit range.
    pub fn to_i16(&self) -> (r: i16)
        ensures
            r == quantize16(self@ as int),
    {
        let unity = UNITY as i64;
        let rounded: i64 = self.value as i64 + (STEP16 / 2) as i64;
        let clipped: i64 = if rounded < -unity {
            -unity
        } else if rounded > unity - 1 {
            unity - 1
        } else {
            rounded
        };
        // The shift is made on the value raised by 1.0, which is not negative.
        let raised: u32 = (clipped + unity) as u32;
        let shifted: u32 = raised >> 13;
        assert(shifted == raised / 0x2000) by (bit_vector)
            requires
                shifted == raised >> 13,
        ;
        (shifted as i32 - 0x8000) as i16
    }

    /// Convert to a 32-bit sample, clipping to the 32-bit range.
    pub fn to_i32(&self) -> (r: i32)
        ensures
            r == widen32(self@ as int),
    {
        if self.value > i32::MAX / 8 {
            i32::MAX
        } else if self.value < i32::MIN / 8 {
            i32::MIN
        } else {
            self.value * 8
        }
    }
}

impl Default for MadFixed32 {
    /// The sample that stands for silence.
    fn default() -> (r: MadFixed32)
        ensures
            r@ == 0,
    {
        MadFixed32 { value: 0 }
    }
}

impl From<i32> for MadFixed32 {
    /// The sample for a 32-bit value: an eighth of it, rounded towards zero.
    fn from(v: i32) -> (r: MadFixed32) {
        MadFixed32 { value: v / 8 }
    }
}

impl vstd::std_specs::convert::FromSpecImpl<i32> for MadFixed32 {
    open spec fn obeys_from_spec() -> bool {
        true
    }

    closed spec fn from_spec(v: i32) -> MadFixed32 {
        MadFixed32 { value: narrow32(v as int) as i32 }
    }
}

/// What `MadFixed32::from` returns for a 32-bit value.
pub proof fn from_i32_value(v: i32)
    ensures
        <MadFixed32 as FromSpec<i32>>::from_spec(v)@ == narrow32(v as int),
        -UNITY <= narrow32(v as int) <= UNITY - 1,
{
}

/// A 16-bit sample, scaled to the fixed-point format, converts back to
/// itself.
pub proof fn i16_round_trip(k: i16)
    ensures
        quantize16(k * STEP16) == k,
{
}

/// The 16-bit conversion clips at both ends of the fixed-point range and
/// never wraps: every sample lands in the 16-bit range, the smallest on the
/// lowest 16-bit value and the largest on the highest.
pub proof fn i16_clips(raw: i32)
    ensures
        i16::MIN <= quantize16(raw as int) <= i16::MAX,
        quantize16(i32::MIN as int) == i16::MIN,
        quantize16(i32::MAX as int) == i16::MAX,
        raw <= -UNITY ==> quantize16(raw as int) == i16::MIN,
        raw >= UNITY - STEP16 / 2 ==> quantize16(raw as int) == i16::MAX,
{
}

/// The 16-bit conversion keeps the order of samples.
pub proof fn i16_monotonic(a: i32, b: i32)
    requires
        a <= b,
    ensures
        quantize16(a as int) <= quantize16(b as int),
{
}

/// Widening to 32 bits and narrowing again gives the sample back, as long
/// as the sample lies within the range that the widening does not clip.
pub proof fn i32_round_trip(raw: i32)
    requires
        -UNITY <= raw <= UNITY - 1,
    ensures
        widen32(raw as int) == 8 * raw,
        narrow32(widen32(raw as int)) == raw,
{
}

} // verus!
