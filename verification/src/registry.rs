//! The decisions behind registering a custom backend with prism.
use vstd::prelude::*;

use crate::error::{code_of_error, Error};
use crate::features::Features;
use crate::raw;
use crate::text::{c_string_of, lemma_nul_byte_iff_nul_char, to_cstring};
use vstd::utf8::encode_utf8;

verus! {

/// Which members of a custom backend's vtable receive an implementation.
///
/// The four lifecycle members are always installed; each operation member
/// is installed exactly when its feature is declared.
#[derive(Debug, Clone, Copy, PartialEq, Eq)]
pub struct VTableSlots {
    /// Per-instance construction.
    pub create: bool,
    /// Per-instance destruction.
    pub destroy: bool,
    /// The runtime availability probe.
    pub is_supported: bool,
    /// Initialization.
    pub initialize: bool,
    /// The `speak` operation.
    pub speak: bool,
    /// The `speak_to_memory` operation.
    pub speak_to_memory: bool,
    /// The `braille` operation.
    pub braille: bool,
    /// The `output` operation.
    pub output: bool,
    /// The `stop` operation.
    pub stop: bool,
    /// The `pause` operation.
    pub pause: bool,
    /// The `resume` operation.
    pub resume: bool,
    /// The `is_speaking` operation.
    pub is_speaking: bool,
    /// The `set_volume` operation.
    pub set_volume: bool,
    /// The `get_volume` operation.
    pub get_volume: bool,
    /// The `set_rate` operation.
    pub set_rate: bool,
    /// The `get_rate` operation.
    pub get_rate: bool,
    /// The `set_pitch` operation.
    pub set_pitch: bool,
    /// The `get_pitch` operation.
    pub get_pitch: bool,
    /// The `refresh_voices` operation.
    pub refresh_voices: bool,
    /// The `count_voices` operation.
    pub count_voices: bool,
    /// The `get_voice_name` operation.
    pub get_voice_name: bool,
    /// The `get_voice_language` operation.
    pub get_voice_language: bool,
    /// The `set_voice` operation.
    pub set_voice: bool,
    /// The `get_voice` operation.
    pub get_voice: bool,
    /// The `get_channels` operation.
    pub get_channels: bool,
    /// The `get_sample_rate` operation.
    pub get_sample_rate: bool,
    /// The `get_bit_depth` operation.
    pub get_bit_depth: bool,
}

/// The feature bits of every operation a vtable can implement.
pub open spec fn operation_bits() -> u64 {
    raw::PRISM_BACKEND_SUPPORTS_SPEAK
        | raw::PRISM_BACKEND_SUPPORTS_SPEAK_TO_MEMORY
        | raw::PRISM_BACKEND_SUPPORTS_BRAILLE
        | raw::PRISM_BACKEND_SUPPORTS_OUTPUT
        | raw::PRISM_BACKEND_SUPPORTS_STOP
        | raw::PRISM_BACKEND_SUPPORTS_PAUSE
        | raw::PRISM_BACKEND_SUPPORTS_RESUME
        | raw::PRISM_BACKEND_SUPPORTS_IS_SPEAKING
        | raw::PRISM_BACKEND_SUPPORTS_SET_VOLUME
        | raw::PRISM_BACKEND_SUPPORTS_GET_VOLUME
        | raw::PRISM_BACKEND_SUPPORTS_SET_RATE
        | raw::PRISM_BACKEND_SUPPORTS_GET_RATE
        | raw::PRISM_BACKEND_SUPPORTS_SET_PITCH
        | raw::PRISM_BACKEND_SUPPORTS_GET_PITCH
        | raw::PRISM_BACKEND_SUPPORTS_REFRESH_VOICES
        | raw::PRISM_BACKEND_SUPPORTS_COUNT_VOICES
        | raw::PRISM_BACKEND_SUPPORTS_GET_VOICE_NAME
        | raw::PRISM_BACKEND_SUPPORTS_GET_VOICE_LANGUAGE
        | raw::PRISM_BACKEND_SUPPORTS_SET_VOICE
        | raw::PRISM_BACKEND_SUPPORTS_GET_VOICE
        | raw::PRISM_BACKEND_SUPPORTS_GET_CHANNELS
        | raw::PRISM_BACKEND_SUPPORTS_GET_SAMPLE_RATE
        | raw::PRISM_BACKEND_SUPPORTS_GET_BIT_DEPTH
}

/// The operations a set of vtable slots implements, as feature bits.
pub open spec fn implemented_operations(slots: VTableSlots) -> u64 {
    (if slots.speak { raw::PRISM_BACKEND_SUPPORTS_SPEAK } else { 0 })
        | (if slots.speak_to_memory { raw::PRISM_BACKEND_SUPPORTS_SPEAK_TO_MEMORY } else { 0 })
        | (if slots.braille { raw::PRISM_BACKEND_SUPPORTS_BRAILLE } else { 0 })
        | (if slots.output { raw::PRISM_BACKEND_SUPPORTS_OUTPUT } else { 0 })
        | (if slots.stop { raw::PRISM_BACKEND_SUPPORTS_STOP } else { 0 })
        | (if slots.pause { raw::PRISM_BACKEND_SUPPORTS_PAUSE } else { 0 })
        | (if slots.resume { raw::PRISM_BACKEND_SUPPORTS_RESUME } else { 0 })
        | (if slots.is_speaking { raw::PRISM_BACKEND_SUPPORTS_IS_SPEAKING } else { 0 })
        | (if slots.set_volume { raw::PRISM_BACKEND_SUPPORTS_SET_VOLUME } else { 0 })
        | (if slots.get_volume { raw::PRISM_BACKEND_SUPPORTS_GET_VOLUME } else { 0 })
        | (if slots.set_rate { raw::PRISM_BACKEND_SUPPORTS_SET_RATE } else { 0 })
        | (if slots.get_rate { raw::PRISM_BACKEND_SUPPORTS_GET_RATE } else { 0 })
        | (if slots.set_pitch { raw::PRISM_BACKEND_SUPPORTS_SET_PITCH } else { 0 })
        | (if slots.get_pitch { raw::PRISM_BACKEND_SUPPORTS_GET_PITCH } else { 0 })
        | (if slots.refresh_voices { raw::PRISM_BACKEND_SUPPORTS_REFRESH_VOICES } else { 0 })
        | (if slots.count_voices { raw::PRISM_BACKEND_SUPPORTS_COUNT_VOICES } else { 0 })
        | (if slots.get_voice_name { raw::PRISM_BACKEND_SUPPORTS_GET_VOICE_NAME } else { 0 })
        | (if slots.get_voice_language { raw::PRISM_BACKEND_SUPPORTS_GET_VOICE_LANGUAGE } else { 0 })
        | (if slots.set_voice { raw::PRISM_BACKEND_SUPPORTS_SET_VOICE } else { 0 })
        | (if slots.get_voice { raw::PRISM_BACKEND_SUPPORTS_GET_VOICE } else { 0 })
        | (if slots.get_channels { raw::PRISM_BACKEND_SUPPORTS_GET_CHANNELS } else { 0 })
        | (if slots.get_sample_rate { raw::PRISM_BACKEND_SUPPORTS_GET_SAMPLE_RATE } else { 0 })
        | (if slots.get_bit_depth { raw::PRISM_BACKEND_SUPPORTS_GET_BIT_DEPTH } else { 0 })
}

/// The slots a vtable built for `features` fills.
pub open spec fn slots_for(features: Features) -> VTableSlots {
    VTableSlots {
        create: true,
        destroy: true,
        is_supported: true,
        initialize: true,
        speak: features.includes(Features::SPEAK()),
        speak_to_memory: features.includes(Features::SPEAK_TO_MEMORY()),
        braille: features.includes(Features::BRAILLE()),
        output: features.includes(Features::OUTPUT()),
        stop: features.includes(Features::STOP()),
        pause: features.includes(Features::PAUSE()),
        resume: features.includes(Features::RESUME()),
        is_speaking: features.includes(Features::IS_SPEAKING()),
        set_volume: features.includes(Features::SET_VOLUME()),
        get_volume: features.includes(Features::GET_VOLUME()),
        set_rate: features.includes(Features::SET_RATE()),
        get_rate: features.includes(Features::GET_RATE()),
        set_pitch: features.includes(Features::SET_PITCH()),
        get_pitch: features.includes(Features::GET_PITCH()),
        refresh_voices: features.includes(Features::REFRESH_VOICES()),
        count_voices: features.includes(Features::COUNT_VOICES()),
        get_voice_name: features.includes(Features::GET_VOICE_NAME()),
        get_voice_language: features.includes(Features::GET_VOICE_LANGUAGE()),
        set_voice: features.includes(Features::SET_VOICE()),
        get_voice: features.includes(Features::GET_VOICE()),
        get_channels: features.includes(Features::GET_CHANNELS()),
        get_sample_rate: features.includes(Features::GET_SAMPLE_RATE()),
        get_bit_depth: features.includes(Features::GET_BIT_DEPTH()),
    }
}

/// Decides the vtable for a backend declaring `features`: an implementation
/// for each declared operation and nothing for the rest.
///
/// prism rejects a registration whose declared features and installed
/// operations disagree, so both are derived from the one `features` value.
pub fn vtable_for(features: Features) -> (slots: VTableSlots)
    ensures
        slots == slots_for(features),
{
    VTableSlots {
        create: true,
        destroy: true,
        is_supported: true,
        initialize: true,
        speak: features.contains(Features::SPEAK()),
        speak_to_memory: features.contains(Features::SPEAK_TO_MEMORY()),
        braille: features.contains(Features::BRAILLE()),
        output: features.contains(Features::OUTPUT()),
        stop: features.contains(Features::STOP()),
        pause: features.contains(Features::PAUSE()),
        resume: features.contains(Features::RESUME()),
        is_speaking: features.contains(Features::IS_SPEAKING()),
        set_volume: features.contains(Features::SET_VOLUME()),
        get_volume: features.contains(Features::GET_VOLUME()),
        set_rate: features.contains(Features::SET_RATE()),
        get_rate: features.contains(Features::GET_RATE()),
        set_pitch: features.contains(Features::SET_PITCH()),
        get_pitch: features.contains(Features::GET_PITCH()),
        refresh_voices: features.contains(Features::REFRESH_VOICES()),
        count_voices: features.contains(Features::COUNT_VOICES()),
        get_voice_name: features.contains(Features::GET_VOICE_NAME()),
        get_voice_language: features.contains(Features::GET_VOICE_LANGUAGE()),
        set_voice: features.contains(Features::SET_VOICE()),
        get_voice: features.contains(Features::GET_VOICE()),
        get_channels: features.contains(Features::GET_CHANNELS()),
        get_sample_rate: features.contains(Features::GET_SAMPLE_RATE()),
        get_bit_depth: features.contains(Features::GET_BIT_DEPTH()),
    }
}

/// The operations a vtable built for `features` implements are exactly the
/// operations `features` declares: the consistency prism demands of every
/// registration.
pub proof fn lemma_vtable_matches_features(features: Features)
    ensures
        implemented_operations(slots_for(features)) == features.0 & operation_bits(),
{
    let f = features.0;
    assert(operation_bits() == 0x1ff_fffcu64) by (bit_vector);
    assert(
        (if f & 0x4 == 0x4 { 0x4u64 } else { 0u64 })
            | (if f & 0x8 == 0x8 { 0x8u64 } else { 0u64 })
            | (if f & 0x10 == 0x10 { 0x10u64 } else { 0u64 })
            | (if f & 0x20 == 0x20 { 0x20u64 } else { 0u64 })
            | (if f & 0x80 == 0x80 { 0x80u64 } else { 0u64 })
            | (if f & 0x100 == 0x100 { 0x100u64 } else { 0u64 })
            | (if f & 0x200 == 0x200 { 0x200u64 } else { 0u64 })
            | (if f & 0x40 == 0x40 { 0x40u64 } else { 0u64 })
            | (if f & 0x400 == 0x400 { 0x400u64 } else { 0u64 })
            | (if f & 0x800 == 0x800 { 0x800u64 } else { 0u64 })
            | (if f & 0x1000 == 0x1000 { 0x1000u64 } else { 0u64 })
            | (if f & 0x2000 == 0x2000 { 0x2000u64 } else { 0u64 })
            | (if f & 0x4000 == 0x4000 { 0x4000u64 } else { 0u64 })
            | (if f & 0x8000 == 0x8000 { 0x8000u64 } else { 0u64 })
            | (if f & 0x10000 == 0x10000 { 0x10000u64 } else { 0u64 })
            | (if f & 0x20000 == 0x20000 { 0x20000u64 } else { 0u64 })
            | (if f & 0x40000 == 0x40000 { 0x40000u64 } else { 0u64 })
            | (if f & 0x80000 == 0x80000 { 0x80000u64 } else { 0u64 })
            | (if f & 0x200000 == 0x200000 { 0x200000u64 } else { 0u64 })
            | (if f & 0x100000 == 0x100000 { 0x100000u64 } else { 0u64 })
            | (if f & 0x400000 == 0x400000 { 0x400000u64 } else { 0u64 })
            | (if f & 0x800000 == 0x800000 { 0x800000u64 } else { 0u64 })
            | (if f & 0x1000000 == 0x1000000 { 0x1000000u64 } else { 0u64 })
        == f & 0x1ff_fffc) by (bit_vector);
}

/// The priority prism receives for a backend registered with `priority`:
/// it must fit in a C `int`.
pub open spec fn priority_of(priority: u32) -> Result<i32, Error> {
    if priority <= i32::MAX {
        Ok(priority as i32)
    } else {
        Err(Error::InvalidParam)
    }
}

/// Converts the priority of a custom backend into the C `int` prism takes.
pub fn priority_code(priority: u32) -> (r: Result<i32, Error>)
    ensures
        r == priority_of(priority),
{
    if priority <= 0x7fff_ffff {
        Ok(priority as i32)
    } else {
        Err(Error::InvalidParam)
    }
}

/// Converts the priority override for a plugin library into what prism
/// takes: `-1` keeps the priority each backend declares.
pub fn priority_override_code(priority_override: Option<u32>) -> (r: Result<i32, Error>)
    ensures
        r == (match priority_override {
            Some(priority) => priority_of(priority),
            None => Ok::<i32, Error>(-1i32),
        }),
{
    match priority_override {
        Some(priority) => priority_code(priority),
        None => Ok(-1),
    }
}

/// Splits the outcome of a custom backend's query into the status code
/// prism receives and the value to store in its out-parameter, which is
/// written only on success.
pub fn value_reply<T>(result: Result<T, Error>) -> (reply: (i32, Option<T>))
    ensures
        result matches Ok(v) ==> reply.0 == raw::PRISM_OK && reply.1 == Some(v),
        result matches Err(e) ==> reply.0 == code_of_error(e) && reply.1 is None,
{
    match result {
        Ok(value) => (raw::PRISM_OK, Some(value)),
        Err(error) => (error.to_raw(), None),
    }
}

/// The reply prism receives for a custom backend's voice name or language:
/// the text as a C string, or the status code of what went wrong.
pub open spec fn text_reply_of(result: Result<String, Error>) -> Result<Seq<u8>, i32> {
    match result {
        Ok(text) => match c_string_of(text@) {
            Ok(bytes) => Ok(bytes),
            Err(_) => Err(raw::PRISM_ERROR_INVALID_PARAM),
        },
        Err(e) => Err(code_of_error(e)),
    }
}

/// Turns the outcome of a custom backend's voice name or language query into
/// the NUL-terminated bytes prism reads, or the status code to return.
pub fn text_reply(result: Result<String, Error>) -> (reply: Result<Vec<u8>, i32>)
    ensures
        reply matches Ok(bytes) ==> text_reply_of(result) == Ok::<Seq<u8>, i32>(bytes@),
        reply matches Err(code) ==> text_reply_of(result) == Err::<Seq<u8>, i32>(code),
{
    match result {
        Ok(text) => match to_cstring(text.as_str()) {
            Ok(bytes) => Ok(bytes),
            Err(_) => Err(raw::PRISM_ERROR_INVALID_PARAM),
        },
        Err(error) => Err(error.to_raw()),
    }
}

/// Whatever a backend declares, its vtable has all four lifecycle members:
/// prism can always create, destroy, probe and initialize its instances.
pub proof fn lemma_lifecycle_always_installed(features: Features)
    ensures
        slots_for(features).create,
        slots_for(features).destroy,
        slots_for(features).is_supported,
        slots_for(features).initialize,
{
}

/// The vtable depends on the declared operations alone: features that name
/// no operation, such as runtime support, silence trimming or SSML, change
/// nothing in it.
pub proof fn lemma_slots_ignore_other_features(features: Features)
    ensures
        slots_for(features) == slots_for(Features(features.0 & operation_bits())),
{
    let f = features.0;
    assert(operation_bits() == 0x1ff_fffcu64) by (bit_vector);
    assert(
        (((f & 0x1ff_fffcu64) & 0x4u64 == 0x4u64) <==> (f & 0x4u64 == 0x4u64))
        && (((f & 0x1ff_fffcu64) & 0x8u64 == 0x8u64) <==> (f & 0x8u64 == 0x8u64))
        && (((f & 0x1ff_fffcu64) & 0x10u64 == 0x10u64) <==> (f & 0x10u64 == 0x10u64))
        && (((f & 0x1ff_fffcu64) & 0x20u64 == 0x20u64) <==> (f & 0x20u64 == 0x20u64))
        && (((f & 0x1ff_fffcu64) & 0x80u64 == 0x80u64) <==> (f & 0x80u64 == 0x80u64))
        && (((f & 0x1ff_fffcu64) & 0x100u64 == 0x100u64) <==> (f & 0x100u64 == 0x100u64))
        && (((f & 0x1ff_fffcu64) & 0x200u64 == 0x200u64) <==> (f & 0x200u64 == 0x200u64))
        && (((f & 0x1ff_fffcu64) & 0x40u64 == 0x40u64) <==> (f & 0x40u64 == 0x40u64))
        && (((f & 0x1ff_fffcu64) & 0x400u64 == 0x400u64) <==> (f & 0x400u64 == 0x400u64))
        && (((f & 0x1ff_fffcu64) & 0x800u64 == 0x800u64) <==> (f & 0x800u64 == 0x800u64))
        && (((f & 0x1ff_fffcu64) & 0x1000u64 == 0x1000u64) <==> (f & 0x1000u64 == 0x1000u64))
        && (((f & 0x1ff_fffcu64) & 0x2000u64 == 0x2000u64) <==> (f & 0x2000u64 == 0x2000u64))
        && (((f & 0x1ff_fffcu64) & 0x4000u64 == 0x4000u64) <==> (f & 0x4000u64 == 0x4000u64))
        && (((f & 0x1ff_fffcu64) & 0x8000u64 == 0x8000u64) <==> (f & 0x8000u64 == 0x8000u64))
        && (((f & 0x1ff_fffcu64) & 0x10000u64 == 0x10000u64) <==> (f & 0x10000u64 == 0x10000u64))
        && (((f & 0x1ff_fffcu64) & 0x20000u64 == 0x20000u64) <==> (f & 0x20000u64 == 0x20000u64))
        && (((f & 0x1ff_fffcu64) & 0x40000u64 == 0x40000u64) <==> (f & 0x40000u64 == 0x40000u64))
        && (((f & 0x1ff_fffcu64) & 0x80000u64 == 0x80000u64) <==> (f & 0x80000u64 == 0x80000u64))
        && (((f & 0x1ff_fffcu64) & 0x200000u64 == 0x200000u64) <==> (f & 0x200000u64 == 0x200000u64))
        && (((f & 0x1ff_fffcu64) & 0x100000u64 == 0x100000u64) <==> (f & 0x100000u64 == 0x100000u64))
        && (((f & 0x1ff_fffcu64) & 0x400000u64 == 0x400000u64) <==> (f & 0x400000u64 == 0x400000u64))
        && (((f & 0x1ff_fffcu64) & 0x800000u64 == 0x800000u64) <==> (f & 0x800000u64 == 0x800000u64))
        && (((f & 0x1ff_fffcu64) & 0x1000000u64 == 0x1000000u64) <==> (f & 0x1000000u64 == 0x1000000u64))) by (bit_vector);
    let h = Features(features.0 & operation_bits());
    assert(h.0 == (f & 0x1ff_fffcu64));
    assert(slots_for(features) == slots_for(h));
}

/// The reply to a voice name or language query: a failure is answered with
/// its own status code, a text without NUL with its UTF-8 bytes and a
/// terminator (the empty text too), and a text holding a NUL with
/// `PRISM_ERROR_INVALID_PARAM`.
pub proof fn lemma_text_reply(result: Result<String, Error>)
    ensures
        result matches Err(e) ==> text_reply_of(result) == Err::<Seq<u8>, i32>(code_of_error(e)),
        result matches Ok(t) ==> (!t@.contains('\0') ==> text_reply_of(result) == Ok::<Seq<u8>, i32>(
            encode_utf8(t@).push(0u8),
        )),
        result matches Ok(t) ==> (t@.contains('\0') ==> text_reply_of(result) == Err::<Seq<u8>, i32>(
            raw::PRISM_ERROR_INVALID_PARAM,
        )),
{
    if let Ok(t) = result {
        lemma_nul_byte_iff_nul_char(t@);
    }
}

} // verus!
