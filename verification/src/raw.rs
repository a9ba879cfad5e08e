//! The values of prism's C interface: its opaque handle types, status codes,
//! log levels, feature bits and the identifiers of its built-in backends.
use vstd::prelude::*;

verus! {

/// An opaque prism context, holding a backend registry.
#[derive(Debug)]
pub struct PrismContext {
    _opaque: [u8; 0],
}

/// An opaque backend instance obtained from a registry.
#[derive(Debug)]
pub struct PrismBackend {
    _opaque: [u8; 0],
}

/// An opaque, immutable set of backend registrations.
#[derive(Debug)]
pub struct PrismRegistry {
    _opaque: [u8; 0],
}

/// An opaque, mutable collection of backend registrations.
#[derive(Debug)]
pub struct PrismRegistryBuilder {
    _opaque: [u8; 0],
}

/// Success.
pub const PRISM_OK: i32 = 0;
/// The backend has not been initialized.
pub const PRISM_ERROR_NOT_INITIALIZED: i32 = 1;
/// A parameter was invalid.
pub const PRISM_ERROR_INVALID_PARAM: i32 = 2;
/// The operation is not implemented.
pub const PRISM_ERROR_NOT_IMPLEMENTED: i32 = 3;
/// No voices are available for this backend.
pub const PRISM_ERROR_NO_VOICES: i32 = 4;
/// The specified voice was not found.
pub const PRISM_ERROR_VOICE_NOT_FOUND: i32 = 5;
/// Speech synthesis failed.
pub const PRISM_ERROR_SPEAK_FAILURE: i32 = 6;
/// Memory allocation failed.
pub const PRISM_ERROR_MEMORY_FAILURE: i32 = 7;
/// A parameter value exceeded its valid range.
pub const PRISM_ERROR_RANGE_OUT_OF_BOUNDS: i32 = 8;
/// An internal error occurred.
pub const PRISM_ERROR_INTERNAL: i32 = 9;
/// No speech is currently playing.
pub const PRISM_ERROR_NOT_SPEAKING: i32 = 10;
/// Speech is not currently paused.
pub const PRISM_ERROR_NOT_PAUSED: i32 = 11;
/// Speech is already paused.
pub const PRISM_ERROR_ALREADY_PAUSED: i32 = 12;
/// Text contains invalid UTF-8 sequences.
pub const PRISM_ERROR_INVALID_UTF8: i32 = 13;
/// The operation is invalid in the current state.
pub const PRISM_ERROR_INVALID_OPERATION: i32 = 14;
/// The backend was already initialized.
pub const PRISM_ERROR_ALREADY_INITIALIZED: i32 = 15;
/// The backend's underlying system component is unavailable.
pub const PRISM_ERROR_BACKEND_NOT_AVAILABLE: i32 = 16;
/// An unspecified error occurred.
pub const PRISM_ERROR_UNKNOWN: i32 = 17;
/// The engine reported an audio format prism cannot understand.
pub const PRISM_ERROR_INVALID_AUDIO_FORMAT: i32 = 18;
/// The backend's limit on live instances would be exceeded.
pub const PRISM_ERROR_INTERNAL_BACKEND_LIMIT_EXCEEDED: i32 = 19;
/// The backend entered an undefined state and must be re-initialized.
pub const PRISM_ERROR_BACKEND_ENTERED_UNDEFINED_STATE: i32 = 20;
/// A shared library could not be opened.
pub const PRISM_ERROR_LIBRARY_LOAD_FAILED: i32 = 21;
/// A shared library does not export the plugin entry point.
pub const PRISM_ERROR_LIBRARY_INVALID: i32 = 22;
/// A plugin declined the host, or declared an ABI this prism does not accept.
pub const PRISM_ERROR_INCOMPATIBLE_ABI: i32 = 23;
/// The number of defined status codes. Not itself an error.
pub const PRISM_ERROR_COUNT: i32 = 24;

/// Fine-grained tracing of internal operations.
pub const PRISM_LOG_LEVEL_TRACE: i32 = 0;
/// Diagnostic information useful during development.
pub const PRISM_LOG_LEVEL_DEBUG: i32 = 1;
/// Messages describing normal operation.
pub const PRISM_LOG_LEVEL_INFO: i32 = 2;
/// Conditions that may indicate a problem.
pub const PRISM_LOG_LEVEL_WARN: i32 = 3;
/// Error conditions.
pub const PRISM_LOG_LEVEL_ERROR: i32 = 4;
/// Not a severity: as a threshold it suppresses every message.
pub const PRISM_LOG_LEVEL_NONE: i32 = 5;

/// The engine or service is available right now.
pub const PRISM_BACKEND_IS_SUPPORTED_AT_RUNTIME: u64 = 0x1;
/// Speaking is implemented.
pub const PRISM_BACKEND_SUPPORTS_SPEAK: u64 = 0x4;
/// Speaking to memory is implemented.
pub const PRISM_BACKEND_SUPPORTS_SPEAK_TO_MEMORY: u64 = 0x8;
/// Braille output is implemented.
pub const PRISM_BACKEND_SUPPORTS_BRAILLE: u64 = 0x10;
/// Combined output is implemented.
pub const PRISM_BACKEND_SUPPORTS_OUTPUT: u64 = 0x20;
/// The speaking query is implemented.
pub const PRISM_BACKEND_SUPPORTS_IS_SPEAKING: u64 = 0x40;
/// Stopping is implemented.
pub const PRISM_BACKEND_SUPPORTS_STOP: u64 = 0x80;
/// Pausing is implemented.
pub const PRISM_BACKEND_SUPPORTS_PAUSE: u64 = 0x100;
/// Resuming is implemented.
pub const PRISM_BACKEND_SUPPORTS_RESUME: u64 = 0x200;
/// Setting the volume is implemented.
pub const PRISM_BACKEND_SUPPORTS_SET_VOLUME: u64 = 0x400;
/// Reading the volume is implemented.
pub const PRISM_BACKEND_SUPPORTS_GET_VOLUME: u64 = 0x800;
/// Setting the rate is implemented.
pub const PRISM_BACKEND_SUPPORTS_SET_RATE: u64 = 0x1000;
/// Reading the rate is implemented.
pub const PRISM_BACKEND_SUPPORTS_GET_RATE: u64 = 0x2000;
/// Setting the pitch is implemented.
pub const PRISM_BACKEND_SUPPORTS_SET_PITCH: u64 = 0x4000;
/// Reading the pitch is implemented.
pub const PRISM_BACKEND_SUPPORTS_GET_PITCH: u64 = 0x8000;
/// Refreshing the voice list is implemented.
pub const PRISM_BACKEND_SUPPORTS_REFRESH_VOICES: u64 = 0x1_0000;
/// Counting voices is implemented.
pub const PRISM_BACKEND_SUPPORTS_COUNT_VOICES: u64 = 0x2_0000;
/// Reading a voice's name is implemented.
pub const PRISM_BACKEND_SUPPORTS_GET_VOICE_NAME: u64 = 0x4_0000;
/// Reading a voice's language is implemented.
pub const PRISM_BACKEND_SUPPORTS_GET_VOICE_LANGUAGE: u64 = 0x8_0000;
/// Reading the current voice is implemented.
pub const PRISM_BACKEND_SUPPORTS_GET_VOICE: u64 = 0x10_0000;
/// Selecting a voice is implemented.
pub const PRISM_BACKEND_SUPPORTS_SET_VOICE: u64 = 0x20_0000;
/// Reading the channel count is implemented.
pub const PRISM_BACKEND_SUPPORTS_GET_CHANNELS: u64 = 0x40_0000;
/// Reading the sample rate is implemented.
pub const PRISM_BACKEND_SUPPORTS_GET_SAMPLE_RATE: u64 = 0x80_0000;
/// Reading the bit depth is implemented.
pub const PRISM_BACKEND_SUPPORTS_GET_BIT_DEPTH: u64 = 0x100_0000;
/// Reserved.
pub const PRISM_BACKEND_PERFORMS_SILENCE_TRIMMING_ON_SPEAK: u64 = 0x200_0000;
/// Silence is trimmed from audio delivered by speaking to memory.
pub const PRISM_BACKEND_PERFORMS_SILENCE_TRIMMING_ON_SPEAK_TO_MEMORY: u64 = 0x400_0000;
/// Reserved.
pub const PRISM_BACKEND_SUPPORTS_SPEAK_SSML: u64 = 0x800_0000;
/// Reserved.
pub const PRISM_BACKEND_SUPPORTS_SPEAK_TO_MEMORY_SSML: u64 = 0x1000_0000;
/// The highest bit reserved for feature flags.
pub const PRISM_BACKEND_FEATURE_MAX_BIT: u64 = 0x8000_0000_0000_0000;

/// The invalid backend identifier.
pub const PRISM_BACKEND_INVALID: u64 = 0;
/// Microsoft SAPI.
pub const PRISM_BACKEND_SAPI: u64 = 0x1D6D_F724_22CE_EE66;
/// `AVSpeechSynthesizer`.
pub const PRISM_BACKEND_AV_SPEECH: u64 = 0x28E3_4295_7780_5C24;
/// `VoiceOver`.
pub const PRISM_BACKEND_VOICE_OVER: u64 = 0xCB48_9796_1A75_4BCB;
/// Speech Dispatcher.
pub const PRISM_BACKEND_SPEECH_DISPATCHER: u64 = 0xE3D6_F895_D949_EBFE;
/// NVDA.
pub const PRISM_BACKEND_NVDA: u64 = 0x89CC_19C5_C4AC_1A56;
/// JAWS.
pub const PRISM_BACKEND_JAWS: u64 = 0xAC3D_60E9_BD84_B53E;
/// Windows `OneCore` speech.
pub const PRISM_BACKEND_ONE_CORE: u64 = 0x6797_D32F_0D99_4CB4;
/// Orca.
pub const PRISM_BACKEND_ORCA: u64 = 0x10AA_1FC0_5A17_F96C;
/// Android screen readers.
pub const PRISM_BACKEND_ANDROID_SCREEN_READER: u64 = 0xD199_C175_AEEC_494B;
/// Android text-to-speech.
pub const PRISM_BACKEND_ANDROID_TTS: u64 = 0xBC17_5831_BFE4_E5CC;
/// The Web Speech API.
pub const PRISM_BACKEND_WEB_SPEECH: u64 = 0x3572_538D_44D4_4A8F;
/// UI Automation notifications.
pub const PRISM_BACKEND_UIA: u64 = 0x6238_F019_DB67_8F8E;
/// Zhengdu Screen Reader.
pub const PRISM_BACKEND_ZDSR: u64 = 0x3D93_C56C_9E7F_2A2E;
/// `ZoomText`.
pub const PRISM_BACKEND_ZOOM_TEXT: u64 = 0xAE43_9D62_DC7B_1479;
/// `BoyPCReader`.
pub const PRISM_BACKEND_BOY_PC_READER: u64 = 0x285A_BA1C_16F3_300F;
/// PC-Talker.
pub const PRISM_BACKEND_PC_TALKER: u64 = 0x344B_9519_62E3_B835;
/// `SenseReader`.
pub const PRISM_BACKEND_SENSE_READER: u64 = 0xED47_6089_0B55_C2F2;
/// System Access.
pub const PRISM_BACKEND_SYSTEM_ACCESS: u64 = 0x8380_F2A3_7B2C_3EB6;
/// Window-Eyes.
pub const PRISM_BACKEND_WINDOW_EYES: u64 = 0x9120_D899_0878_5C13;
/// Spiel.
pub const PRISM_BACKEND_SPIEL: u64 = 0x478B_44F1_4AD3_D89C;

/// The config layout version this binding describes.
pub const PRISM_CONFIG_VERSION: u8 = 3;
/// The plugin ABI generation this binding describes.
pub const PRISM_PLUGIN_ABI_VERSION: u64 = 1;

} // verus!
