//! Bit sets that libobs reports for output and encoder types.
//!
//! Both sets keep every bit they are built from, including bits that a newer libobs
//! defines and this crate does not name.
use vstd::prelude::*;

verus! {

/// The bit that libobs uses for each named output capability.
pub const OBS_OUTPUT_VIDEO: u32 = 1;
pub const OBS_OUTPUT_AUDIO: u32 = 2;
pub const OBS_OUTPUT_ENCODED: u32 = 4;
pub const OBS_OUTPUT_SERVICE: u32 = 8;
pub const OBS_OUTPUT_MULTI_TRACK_AUDIO: u32 = 16;
pub const OBS_OUTPUT_CAN_PAUSE: u32 = 32;
pub const OBS_OUTPUT_MULTI_TRACK_VIDEO: u32 = 64;

/// The bit that libobs uses for each named encoder capability.
pub const OBS_ENCODER_CAP_DEPRECATED: u32 = 1;
pub const OBS_ENCODER_CAP_PASS_TEXTURE: u32 = 2;
pub const OBS_ENCODER_CAP_DYN_BITRATE: u32 = 4;
pub const OBS_ENCODER_CAP_INTERNAL: u32 = 8;
pub const OBS_ENCODER_CAP_ROI: u32 = 16;
pub const OBS_ENCODER_CAP_SCALING: u32 = 32;

/// Encoder capabilities that keep an encoder type out of the encoders offered to users.
pub const ENCODER_HIDE_FLAGS: u32 = OBS_ENCODER_CAP_DEPRECATED | OBS_ENCODER_CAP_INTERNAL;

/// `a` holds every bit of `b`.
pub open spec fn bits_contain(a: u32, b: u32) -> bool {
    a & b == b
}

/// Capability flags reported by libobs for an output type. Unknown future bits are retained.
#[derive(Clone, Copy, Debug, PartialEq, Eq, Structural)]
pub struct OutputCapabilities {
    bits: u32,
}

impl View for OutputCapabilities {
    type V = u32;

    closed spec fn view(&self) -> u32 {
        self.bits
    }
}

impl OutputCapabilities {
    pub fn empty() -> (r: Self)
        ensures
            r@ == 0,
    {
        OutputCapabilities { bits: 0 }
    }

    pub fn video() -> (r: Self)
        ensures
            r@ == OBS_OUTPUT_VIDEO,
    {
        OutputCapabilities { bits: OBS_OUTPUT_VIDEO }
    }

    pub fn audio() -> (r: Self)
        ensures
            r@ == OBS_OUTPUT_AUDIO,
    {
        OutputCapabilities { bits: OBS_OUTPUT_AUDIO }
    }

    pub fn encoded() -> (r: Self)
        ensures
            r@ == OBS_OUTPUT_ENCODED,
    {
        OutputCapabilities { bits: OBS_OUTPUT_ENCODED }
    }

    pub fn service() -> (r: Self)
        ensures
            r@ == OBS_OUTPUT_SERVICE,
    {
        OutputCapabilities { bits: OBS_OUTPUT_SERVICE }
    }

    pub fn multi_track_audio() -> (r: Self)
        ensures
            r@ == OBS_OUTPUT_MULTI_TRACK_AUDIO,
    {
        OutputCapabilities { bits: OBS_OUTPUT_MULTI_TRACK_AUDIO }
    }

    pub fn can_pause() -> (r: Self)
        ensures
            r@ == OBS_OUTPUT_CAN_PAUSE,
    {
        OutputCapabilities { bits: OBS_OUTPUT_CAN_PAUSE }
    }

    pub fn multi_track_video() -> (r: Self)
        ensures
            r@ == OBS_OUTPUT_MULTI_TRACK_VIDEO,
    {
        OutputCapabilities { bits: OBS_OUTPUT_MULTI_TRACK_VIDEO }
    }

    /// The set holding exactly `bits`.
    pub closed spec fn with_bits(bits: u32) -> Self {
        OutputCapabilities { bits }
    }

    /// Keeps every bit, named or not.
    pub fn from_bits_retain(bits: u32) -> (r: Self)
        ensures
            r@ == bits,
            r == Self::with_bits(bits),
    {
        OutputCapabilities { bits }
    }

    pub broadcast proof fn lemma_with_bits_view(bits: u32)
        ensures
            #[trigger] Self::with_bits(bits)@ == bits,
    {
    }

    pub fn bits(&self) -> (r: u32)
        ensures
            r == self@,
    {
        self.bits
    }

    /// Whether every bit of `other` is set in `self`.
    pub fn contains(&self, other: Self) -> (r: bool)
        ensures
            r == bits_contain(self@, other@),
    {
        self.bits & other.bits == other.bits
    }

    /// The bits of both sets.
    pub fn union(self, other: Self) -> (r: Self)
        ensures
            r@ == self@ | other@,
    {
        OutputCapabilities { bits: self.bits | other.bits }
    }
}

/// Capability flags reported by libobs for an encoder type. Unknown future bits are retained.
#[derive(Clone, Copy, Debug, PartialEq, Eq, Structural)]
pub struct EncoderCapabilities {
    bits: u32,
}

impl View for EncoderCapabilities {
    type V = u32;

    closed spec fn view(&self) -> u32 {
        self.bits
    }
}

impl EncoderCapabilities {
    pub fn empty() -> (r: Self)
        ensures
            r@ == 0,
    {
        EncoderCapabilities { bits: 0 }
    }

    pub fn deprecated() -> (r: Self)
        ensures
            r@ == OBS_ENCODER_CAP_DEPRECATED,
    {
        EncoderCapabilities { bits: OBS_ENCODER_CAP_DEPRECATED }
    }

    pub fn pass_texture() -> (r: Self)
        ensures
            r@ == OBS_ENCODER_CAP_PASS_TEXTURE,
    {
        EncoderCapabilities { bits: OBS_ENCODER_CAP_PASS_TEXTURE }
    }

    pub fn dynamic_bitrate() -> (r: Self)
        ensures
            r@ == OBS_ENCODER_CAP_DYN_BITRATE,
    {
        EncoderCapabilities { bits: OBS_ENCODER_CAP_DYN_BITRATE }
    }

    pub fn internal() -> (r: Self)
        ensures
            r@ == OBS_ENCODER_CAP_INTERNAL,
    {
        EncoderCapabilities { bits: OBS_ENCODER_CAP_INTERNAL }
    }

    pub fn roi() -> (r: Self)
        ensures
            r@ == OBS_ENCODER_CAP_ROI,
    {
        EncoderCapabilities { bits: OBS_ENCODER_CAP_ROI }
    }

    pub fn scaling() -> (r: Self)
        ensures
            r@ == OBS_ENCODER_CAP_SCALING,
    {
        EncoderCapabilities { bits: OBS_ENCODER_CAP_SCALING }
    }

    /// Keeps every bit, named or not.
    pub fn from_bits_retain(bits: u32) -> (r: Self)
        ensures
            r@ == bits,
    {
        EncoderCapabilities { bits }
    }

    pub fn bits(&self) -> (r: u32)
        ensures
            r == self@,
    {
        self.bits
    }

    /// Whether every bit of `other` is set in `self`.
    pub fn contains(&self, other: Self) -> (r: bool)
        ensures
            r == bits_contain(self@, other@),
    {
        self.bits & other.bits == other.bits
    }

    /// The bits of both sets.
    pub fn union(self, other: Self) -> (r: Self)
        ensures
            r@ == self@ | other@,
    {
        EncoderCapabilities { bits: self.bits | other.bits }
    }
}

/// A set always contains the empty set and itself, and a union contains both of its parts.
pub proof fn lemma_contains_basics(a: u32, b: u32)
    ensures
        bits_contain(a, 0),
        bits_contain(a, a),
        bits_contain(a | b, a),
        bits_contain(a | b, b),
{
    assert(a & 0 == 0) by (bit_vector);
    assert(a & a == a) by (bit_vector);
    assert((a | b) & a == a) by (bit_vector);
    assert((a | b) & b == b) by (bit_vector);
}

} // verus!
