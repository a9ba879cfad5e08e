use vstd::prelude::*;

use crate::error::Error;
use crate::raw;

verus! {

/// The identifier of a backend in the registry.
///
/// The associated functions name the backends built into prism; plugin
/// backends receive ids outside this set.
#[derive(Debug, Clone, Copy, PartialEq, Eq, Hash, Structural)]
pub struct BackendId(pub u64);

impl BackendId {
    /// The reserved invalid backend id.
    #[allow(non_snake_case)]
    #[verifier::allow_in_spec]
    pub fn INVALID() -> Self
        returns
            Self(raw::PRISM_BACKEND_INVALID),
    {
        Self(raw::PRISM_BACKEND_INVALID)
    }

    /// Microsoft Speech API (Windows).
    #[allow(non_snake_case)]
    #[verifier::allow_in_spec]
    pub fn SAPI() -> Self
        returns
            Self(raw::PRISM_BACKEND_SAPI),
    {
        Self(raw::PRISM_BACKEND_SAPI)
    }

    /// `AVSpeechSynthesizer` (macOS and iOS).
    #[allow(non_snake_case)]
    #[verifier::allow_in_spec]
    pub fn AV_SPEECH() -> Self
        returns
            Self(raw::PRISM_BACKEND_AV_SPEECH),
    {
        Self(raw::PRISM_BACKEND_AV_SPEECH)
    }

    /// `VoiceOver` (macOS and iOS).
    #[allow(non_snake_case)]
    #[verifier::allow_in_spec]
    pub fn VOICE_OVER() -> Self
        returns
            Self(raw::PRISM_BACKEND_VOICE_OVER),
    {
        Self(raw::PRISM_BACKEND_VOICE_OVER)
    }

    /// speech-dispatcher (Linux and BSD).
    #[allow(non_snake_case)]
    #[verifier::allow_in_spec]
    pub fn SPEECH_DISPATCHER() -> Self
        returns
            Self(raw::PRISM_BACKEND_SPEECH_DISPATCHER),
    {
        Self(raw::PRISM_BACKEND_SPEECH_DISPATCHER)
    }

    /// NVDA (Windows).
    #[allow(non_snake_case)]
    #[verifier::allow_in_spec]
    pub fn NVDA() -> Self
        returns
            Self(raw::PRISM_BACKEND_NVDA),
    {
        Self(raw::PRISM_BACKEND_NVDA)
    }

    /// JAWS (Windows).
    #[allow(non_snake_case)]
    #[verifier::allow_in_spec]
    pub fn JAWS() -> Self
        returns
            Self(raw::PRISM_BACKEND_JAWS),
    {
        Self(raw::PRISM_BACKEND_JAWS)
    }

    /// Windows `OneCore` speech.
    #[allow(non_snake_case)]
    #[verifier::allow_in_spec]
    pub fn ONE_CORE() -> Self
        returns
            Self(raw::PRISM_BACKEND_ONE_CORE),
    {
        Self(raw::PRISM_BACKEND_ONE_CORE)
    }

    /// Orca (Linux).
    #[allow(non_snake_case)]
    #[verifier::allow_in_spec]
    pub fn ORCA() -> Self
        returns
            Self(raw::PRISM_BACKEND_ORCA),
    {
        Self(raw::PRISM_BACKEND_ORCA)
    }

    /// The active Android screen reader, such as `TalkBack`.
    #[allow(non_snake_case)]
    #[verifier::allow_in_spec]
    pub fn ANDROID_SCREEN_READER() -> Self
        returns
            Self(raw::PRISM_BACKEND_ANDROID_SCREEN_READER),
    {
        Self(raw::PRISM_BACKEND_ANDROID_SCREEN_READER)
    }

    /// Android text-to-speech.
    #[allow(non_snake_case)]
    #[verifier::allow_in_spec]
    pub fn ANDROID_TTS() -> Self
        returns
            Self(raw::PRISM_BACKEND_ANDROID_TTS),
    {
        Self(raw::PRISM_BACKEND_ANDROID_TTS)
    }

    /// The Web Speech API (WebAssembly).
    #[allow(non_snake_case)]
    #[verifier::allow_in_spec]
    pub fn WEB_SPEECH() -> Self
        returns
            Self(raw::PRISM_BACKEND_WEB_SPEECH),
    {
        Self(raw::PRISM_BACKEND_WEB_SPEECH)
    }

    /// UI Automation notifications (Windows).
    #[allow(non_snake_case)]
    #[verifier::allow_in_spec]
    pub fn UIA() -> Self
        returns
            Self(raw::PRISM_BACKEND_UIA),
    {
        Self(raw::PRISM_BACKEND_UIA)
    }

    /// Zhengdu Screen Reader (Windows).
    #[allow(non_snake_case)]
    #[verifier::allow_in_spec]
    pub fn ZDSR() -> Self
        returns
            Self(raw::PRISM_BACKEND_ZDSR),
    {
        Self(raw::PRISM_BACKEND_ZDSR)
    }

    /// `ZoomText` (Windows).
    #[allow(non_snake_case)]
    #[verifier::allow_in_spec]
    pub fn ZOOM_TEXT() -> Self
        returns
            Self(raw::PRISM_BACKEND_ZOOM_TEXT),
    {
        Self(raw::PRISM_BACKEND_ZOOM_TEXT)
    }

    /// `BoyPCReader` (Windows).
    #[allow(non_snake_case)]
    #[verifier::allow_in_spec]
    pub fn BOY_PC_READER() -> Self
        returns
            Self(raw::PRISM_BACKEND_BOY_PC_READER),
    {
        Self(raw::PRISM_BACKEND_BOY_PC_READER)
    }

    /// PC-Talker (Windows).
    #[allow(non_snake_case)]
    #[verifier::allow_in_spec]
    pub fn PC_TALKER() -> Self
        returns
            Self(raw::PRISM_BACKEND_PC_TALKER),
    {
        Self(raw::PRISM_BACKEND_PC_TALKER)
    }

    /// `SenseReader` (Windows).
    #[allow(non_snake_case)]
    #[verifier::allow_in_spec]
    pub fn SENSE_READER() -> Self
        returns
            Self(raw::PRISM_BACKEND_SENSE_READER),
    {
        Self(raw::PRISM_BACKEND_SENSE_READER)
    }

    /// System Access (Windows).
    #[allow(non_snake_case)]
    #[verifier::allow_in_spec]
    pub fn SYSTEM_ACCESS() -> Self
        returns
            Self(raw::PRISM_BACKEND_SYSTEM_ACCESS),
    {
        Self(raw::PRISM_BACKEND_SYSTEM_ACCESS)
    }

    /// Window-Eyes (Windows).
    #[allow(non_snake_case)]
    #[verifier::allow_in_spec]
    pub fn WINDOW_EYES() -> Self
        returns
            Self(raw::PRISM_BACKEND_WINDOW_EYES),
    {
        Self(raw::PRISM_BACKEND_WINDOW_EYES)
    }

    /// Spiel (Linux).
    #[allow(non_snake_case)]
    #[verifier::allow_in_spec]
    pub fn SPIEL() -> Self
        returns
            Self(raw::PRISM_BACKEND_SPIEL),
    {
        Self(raw::PRISM_BACKEND_SPIEL)
    }

    /// The outcome of looking a backend up by name, given the identifier
    /// prism answered with: the invalid identifier means no such backend.
    pub fn from_lookup(id: u64) -> (r: Result<Self, Error>)
        ensures
            r == (if id == raw::PRISM_BACKEND_INVALID {
                Err::<Self, Error>(Error::BackendNotAvailable)
            } else {
                Ok(BackendId(id))
            }),
    {
        if id == raw::PRISM_BACKEND_INVALID {
            Err(Error::BackendNotAvailable)
        } else {
            Ok(BackendId(id))
        }
    }
}

} // verus!
