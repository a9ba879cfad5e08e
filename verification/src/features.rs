use vstd::prelude::*;

use crate::raw;

verus! {

/// A bitset of capabilities a backend advertises.
///
/// Each named feature is an associated function returning its single bit.
#[derive(Debug, Clone, Copy, PartialEq, Eq, Hash, Default, Structural)]
pub struct Features(pub u64);

impl Features {
    /// The backend is usable on the current system right now.
    #[allow(non_snake_case)]
    #[verifier::allow_in_spec]
    pub fn IS_SUPPORTED_AT_RUNTIME() -> Self
        returns
            Self(raw::PRISM_BACKEND_IS_SUPPORTED_AT_RUNTIME),
    {
        Self(raw::PRISM_BACKEND_IS_SUPPORTED_AT_RUNTIME)
    }

    /// Supports speaking.
    #[allow(non_snake_case)]
    #[verifier::allow_in_spec]
    pub fn SPEAK() -> Self
        returns
            Self(raw::PRISM_BACKEND_SUPPORTS_SPEAK),
    {
        Self(raw::PRISM_BACKEND_SUPPORTS_SPEAK)
    }

    /// Supports speaking to memory.
    #[allow(non_snake_case)]
    #[verifier::allow_in_spec]
    pub fn SPEAK_TO_MEMORY() -> Self
        returns
            Self(raw::PRISM_BACKEND_SUPPORTS_SPEAK_TO_MEMORY),
    {
        Self(raw::PRISM_BACKEND_SUPPORTS_SPEAK_TO_MEMORY)
    }

    /// Supports braille output.
    #[allow(non_snake_case)]
    #[verifier::allow_in_spec]
    pub fn BRAILLE() -> Self
        returns
            Self(raw::PRISM_BACKEND_SUPPORTS_BRAILLE),
    {
        Self(raw::PRISM_BACKEND_SUPPORTS_BRAILLE)
    }

    /// Supports combined speech and braille output.
    #[allow(non_snake_case)]
    #[verifier::allow_in_spec]
    pub fn OUTPUT() -> Self
        returns
            Self(raw::PRISM_BACKEND_SUPPORTS_OUTPUT),
    {
        Self(raw::PRISM_BACKEND_SUPPORTS_OUTPUT)
    }

    /// Supports asking whether speech is in progress.
    #[allow(non_snake_case)]
    #[verifier::allow_in_spec]
    pub fn IS_SPEAKING() -> Self
        returns
            Self(raw::PRISM_BACKEND_SUPPORTS_IS_SPEAKING),
    {
        Self(raw::PRISM_BACKEND_SUPPORTS_IS_SPEAKING)
    }

    /// Supports stopping speech.
    #[allow(non_snake_case)]
    #[verifier::allow_in_spec]
    pub fn STOP() -> Self
        returns
            Self(raw::PRISM_BACKEND_SUPPORTS_STOP),
    {
        Self(raw::PRISM_BACKEND_SUPPORTS_STOP)
    }

    /// Supports pausing speech.
    #[allow(non_snake_case)]
    #[verifier::allow_in_spec]
    pub fn PAUSE() -> Self
        returns
            Self(raw::PRISM_BACKEND_SUPPORTS_PAUSE),
    {
        Self(raw::PRISM_BACKEND_SUPPORTS_PAUSE)
    }

    /// Supports resuming speech.
    #[allow(non_snake_case)]
    #[verifier::allow_in_spec]
    pub fn RESUME() -> Self
        returns
            Self(raw::PRISM_BACKEND_SUPPORTS_RESUME),
    {
        Self(raw::PRISM_BACKEND_SUPPORTS_RESUME)
    }

    /// Supports setting the volume.
    #[allow(non_snake_case)]
    #[verifier::allow_in_spec]
    pub fn SET_VOLUME() -> Self
        returns
            Self(raw::PRISM_BACKEND_SUPPORTS_SET_VOLUME),
    {
        Self(raw::PRISM_BACKEND_SUPPORTS_SET_VOLUME)
    }

    /// Supports reading the volume.
    #[allow(non_snake_case)]
    #[verifier::allow_in_spec]
    pub fn GET_VOLUME() -> Self
        returns
            Self(raw::PRISM_BACKEND_SUPPORTS_GET_VOLUME),
    {
        Self(raw::PRISM_BACKEND_SUPPORTS_GET_VOLUME)
    }

    /// Supports setting the rate.
    #[allow(non_snake_case)]
    #[verifier::allow_in_spec]
    pub fn SET_RATE() -> Self
        returns
            Self(raw::PRISM_BACKEND_SUPPORTS_SET_RATE),
    {
        Self(raw::PRISM_BACKEND_SUPPORTS_SET_RATE)
    }

    /// Supports reading the rate.
    #[allow(non_snake_case)]
    #[verifier::allow_in_spec]
    pub fn GET_RATE() -> Self
        returns
            Self(raw::PRISM_BACKEND_SUPPORTS_GET_RATE),
    {
        Self(raw::PRISM_BACKEND_SUPPORTS_GET_RATE)
    }

    /// Supports setting the pitch.
    #[allow(non_snake_case)]
    #[verifier::allow_in_spec]
    pub fn SET_PITCH() -> Self
        returns
            Self(raw::PRISM_BACKEND_SUPPORTS_SET_PITCH),
    {
        Self(raw::PRISM_BACKEND_SUPPORTS_SET_PITCH)
    }

    /// Supports reading the pitch.
    #[allow(non_snake_case)]
    #[verifier::allow_in_spec]
    pub fn GET_PITCH() -> Self
        returns
            Self(raw::PRISM_BACKEND_SUPPORTS_GET_PITCH),
    {
        Self(raw::PRISM_BACKEND_SUPPORTS_GET_PITCH)
    }

    /// Supports refreshing the voice list.
    #[allow(non_snake_case)]
    #[verifier::allow_in_spec]
    pub fn REFRESH_VOICES() -> Self
        returns
            Self(raw::PRISM_BACKEND_SUPPORTS_REFRESH_VOICES),
    {
        Self(raw::PRISM_BACKEND_SUPPORTS_REFRESH_VOICES)
    }

    /// Supports counting voices.
    #[allow(non_snake_case)]
    #[verifier::allow_in_spec]
    pub fn COUNT_VOICES() -> Self
        returns
            Self(raw::PRISM_BACKEND_SUPPORTS_COUNT_VOICES),
    {
        Self(raw::PRISM_BACKEND_SUPPORTS_COUNT_VOICES)
    }

    /// Supports reading a voice's name.
    #[allow(non_snake_case)]
    #[verifier::allow_in_spec]
    pub fn GET_VOICE_NAME() -> Self
        returns
            Self(raw::PRISM_BACKEND_SUPPORTS_GET_VOICE_NAME),
    {
        Self(raw::PRISM_BACKEND_SUPPORTS_GET_VOICE_NAME)
    }

    /// Supports reading a voice's language.
    #[allow(non_snake_case)]
    #[verifier::allow_in_spec]
    pub fn GET_VOICE_LANGUAGE() -> Self
        returns
            Self(raw::PRISM_BACKEND_SUPPORTS_GET_VOICE_LANGUAGE),
    {
        Self(raw::PRISM_BACKEND_SUPPORTS_GET_VOICE_LANGUAGE)
    }

    /// Supports reading the current voice.
    #[allow(non_snake_case)]
    #[verifier::allow_in_spec]
    pub fn GET_VOICE() -> Self
        returns
            Self(raw::PRISM_BACKEND_SUPPORTS_GET_VOICE),
    {
        Self(raw::PRISM_BACKEND_SUPPORTS_GET_VOICE)
    }

    /// Supports selecting a voice.
    #[allow(non_snake_case)]
    #[verifier::allow_in_spec]
    pub fn SET_VOICE() -> Self
        returns
            Self(raw::PRISM_BACKEND_SUPPORTS_SET_VOICE),
    {
        Self(raw::PRISM_BACKEND_SUPPORTS_SET_VOICE)
    }

    /// Supports reading the channel count.
    #[allow(non_snake_case)]
    #[verifier::allow_in_spec]
    pub fn GET_CHANNELS() -> Self
        returns
            Self(raw::PRISM_BACKEND_SUPPORTS_GET_CHANNELS),
    {
        Self(raw::PRISM_BACKEND_SUPPORTS_GET_CHANNELS)
    }

    /// Supports reading the sample rate.
    #[allow(non_snake_case)]
    #[verifier::allow_in_spec]
    pub fn GET_SAMPLE_RATE() -> Self
        returns
            Self(raw::PRISM_BACKEND_SUPPORTS_GET_SAMPLE_RATE),
    {
        Self(raw::PRISM_BACKEND_SUPPORTS_GET_SAMPLE_RATE)
    }

    /// Supports reading the bit depth.
    #[allow(non_snake_case)]
    #[verifier::allow_in_spec]
    pub fn GET_BIT_DEPTH() -> Self
        returns
            Self(raw::PRISM_BACKEND_SUPPORTS_GET_BIT_DEPTH),
    {
        Self(raw::PRISM_BACKEND_SUPPORTS_GET_BIT_DEPTH)
    }

    /// The backend trims leading and trailing silence when speaking.
    #[allow(non_snake_case)]
    #[verifier::allow_in_spec]
    pub fn SILENCE_TRIMMING_ON_SPEAK() -> Self
        returns
            Self(raw::PRISM_BACKEND_PERFORMS_SILENCE_TRIMMING_ON_SPEAK),
    {
        Self(raw::PRISM_BACKEND_PERFORMS_SILENCE_TRIMMING_ON_SPEAK)
    }

    /// The backend trims leading and trailing silence when speaking to memory.
    #[allow(non_snake_case)]
    #[verifier::allow_in_spec]
    pub fn SILENCE_TRIMMING_ON_SPEAK_TO_MEMORY() -> Self
        returns
            Self(raw::PRISM_BACKEND_PERFORMS_SILENCE_TRIMMING_ON_SPEAK_TO_MEMORY),
    {
        Self(raw::PRISM_BACKEND_PERFORMS_SILENCE_TRIMMING_ON_SPEAK_TO_MEMORY)
    }

    /// Speaking accepts SSML markup.
    #[allow(non_snake_case)]
    #[verifier::allow_in_spec]
    pub fn SPEAK_SSML() -> Self
        returns
            Self(raw::PRISM_BACKEND_SUPPORTS_SPEAK_SSML),
    {
        Self(raw::PRISM_BACKEND_SUPPORTS_SPEAK_SSML)
    }

    /// Speaking to memory accepts SSML markup.
    #[allow(non_snake_case)]
    #[verifier::allow_in_spec]
    pub fn SPEAK_TO_MEMORY_SSML() -> Self
        returns
            Self(raw::PRISM_BACKEND_SUPPORTS_SPEAK_TO_MEMORY_SSML),
    {
        Self(raw::PRISM_BACKEND_SUPPORTS_SPEAK_TO_MEMORY_SSML)
    }

    /// Whether every feature of `other` is present in `self`.
    pub open spec fn includes(self, other: Self) -> bool {
        self.0 & other.0 == other.0
    }

    /// Returns `true` if every feature in `other` is present in `self`.
    pub fn contains(self, other: Self) -> (r: bool)
        ensures
            r == self.includes(other),
    {
        self.0 & other.0 == other.0
    }
}

impl core::ops::BitOr for Features {
    type Output = Self;

    fn bitor(self, rhs: Self) -> (r: Self)
        ensures
            r.0 == self.0 | rhs.0,
    {
        Self(self.0 | rhs.0)
    }
}

impl vstd::std_specs::ops::BitOrSpecImpl for Features {
    open spec fn obeys_bitor_spec() -> bool {
        true
    }

    open spec fn bitor_req(self, rhs: Self) -> bool {
        true
    }

    open spec fn bitor_spec(self, rhs: Self) -> Self {
        Features(self.0 | rhs.0)
    }
}

impl core::ops::BitAnd for Features {
    type Output = Self;

    fn bitand(self, rhs: Self) -> (r: Self)
        ensures
            r.0 == self.0 & rhs.0,
    {
        Self(self.0 & rhs.0)
    }
}

impl vstd::std_specs::ops::BitAndSpecImpl for Features {
    open spec fn obeys_bitand_spec() -> bool {
        true
    }

    open spec fn bitand_req(self, rhs: Self) -> bool {
        true
    }

    open spec fn bitand_spec(self, rhs: Self) -> Self {
        Features(self.0 & rhs.0)
    }
}

/// Every set of features includes itself and the empty set.
pub proof fn lemma_includes_reflexive(a: Features)
    ensures
        a.includes(a),
        a.includes(Features(0)),
{
    let x = a.0;
    assert(x & x == x) by (bit_vector);
    assert(x & 0 == 0) by (bit_vector);
}

/// Inclusion is transitive.
pub proof fn lemma_includes_transitive(a: Features, b: Features, c: Features)
    requires
        a.includes(b),
        b.includes(c),
    ensures
        a.includes(c),
{
    let (x, y, z) = (a.0, b.0, c.0);
    assert(x & y == y && y & z == z ==> x & z == z) by (bit_vector);
}

/// A set includes a union exactly when it includes both parts, and a union
/// includes each of its parts.
pub proof fn lemma_includes_union(a: Features, b: Features, c: Features)
    ensures
        a.includes(Features(b.0 | c.0)) == (a.includes(b) && a.includes(c)),
        Features(b.0 | c.0).includes(b),
        Features(b.0 | c.0).includes(c),
{
    let (x, y, z) = (a.0, b.0, c.0);
    assert((x & (y | z) == (y | z)) == (x & y == y && x & z == z)) by (bit_vector);
    assert((y | z) & y == y) by (bit_vector);
    assert((y | z) & z == z) by (bit_vector);
}

/// An intersection is included in each of its parts, and holds everything
/// that both parts include.
pub proof fn lemma_includes_intersection(a: Features, b: Features, c: Features)
    ensures
        a.includes(Features(a.0 & b.0)),
        b.includes(Features(a.0 & b.0)),
        (a.includes(c) && b.includes(c)) ==> Features(a.0 & b.0).includes(c),
{
    let (x, y, z) = (a.0, b.0, c.0);
    assert(x & (x & y) == (x & y)) by (bit_vector);
    assert(y & (x & y) == (x & y)) by (bit_vector);
    assert((x & z == z && y & z == z) ==> (x & y) & z == z) by (bit_vector);
}

/// A set includes another exactly when no bit of the other is missing from
/// it; the empty set includes only the empty set.
pub proof fn lemma_includes_no_missing_bit(a: Features, b: Features)
    ensures
        a.includes(b) <==> b.0 & !a.0 == 0,
        Features(0).includes(b) ==> b.0 == 0,
{
    let (x, y) = (a.0, b.0);
    assert((x & y == y) <==> (y & !x == 0)) by (bit_vector);
    assert((0u64 & y == y) ==> y == 0) by (bit_vector);
}

/// A set includes the single feature at bit `i` exactly when that bit is set
/// in it.
pub proof fn lemma_includes_single_bit(a: Features, i: u64)
    requires
        i < 64,
    ensures
        a.includes(Features(1u64 << i)) <==> a.0 & (1u64 << i) != 0,
{
    let x = a.0;
    assert(i < 64 ==> ((x & (1u64 << i) == (1u64 << i)) <==> (x & (1u64 << i) != 0))) by (bit_vector);
}

} // verus!
