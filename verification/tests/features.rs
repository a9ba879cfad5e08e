use prismer::{BackendId, Error, Features};

#[test]
fn feature_bits_match_prism() {
    assert_eq!(Features::IS_SUPPORTED_AT_RUNTIME().0, 1 << 0);
    assert_eq!(Features::SPEAK().0, 1 << 2);
    assert_eq!(Features::SPEAK_TO_MEMORY().0, 1 << 3);
    assert_eq!(Features::BRAILLE().0, 1 << 4);
    assert_eq!(Features::OUTPUT().0, 1 << 5);
    assert_eq!(Features::IS_SPEAKING().0, 1 << 6);
    assert_eq!(Features::STOP().0, 1 << 7);
    assert_eq!(Features::PAUSE().0, 1 << 8);
    assert_eq!(Features::RESUME().0, 1 << 9);
    assert_eq!(Features::SET_VOLUME().0, 1 << 10);
    assert_eq!(Features::GET_VOLUME().0, 1 << 11);
    assert_eq!(Features::SET_RATE().0, 1 << 12);
    assert_eq!(Features::GET_RATE().0, 1 << 13);
    assert_eq!(Features::SET_PITCH().0, 1 << 14);
    assert_eq!(Features::GET_PITCH().0, 1 << 15);
    assert_eq!(Features::REFRESH_VOICES().0, 1 << 16);
    assert_eq!(Features::COUNT_VOICES().0, 1 << 17);
    assert_eq!(Features::GET_VOICE_NAME().0, 1 << 18);
    assert_eq!(Features::GET_VOICE_LANGUAGE().0, 1 << 19);
    assert_eq!(Features::GET_VOICE().0, 1 << 20);
    assert_eq!(Features::SET_VOICE().0, 1 << 21);
    assert_eq!(Features::GET_CHANNELS().0, 1 << 22);
    assert_eq!(Features::GET_SAMPLE_RATE().0, 1 << 23);
    assert_eq!(Features::GET_BIT_DEPTH().0, 1 << 24);
    assert_eq!(Features::SILENCE_TRIMMING_ON_SPEAK().0, 1 << 25);
    assert_eq!(Features::SILENCE_TRIMMING_ON_SPEAK_TO_MEMORY().0, 1 << 26);
    assert_eq!(Features::SPEAK_SSML().0, 1 << 27);
    assert_eq!(Features::SPEAK_TO_MEMORY_SSML().0, 1 << 28);
}

#[test]
fn union_and_intersection_combine_bits() {
    let both = Features::SPEAK() | Features::STOP();
    assert_eq!(both, Features(0x84));
    assert_eq!(both & Features::STOP(), Features::STOP());
    assert_eq!(both & Features::PAUSE(), Features(0));
}

#[test]
fn contains_requires_every_bit() {
    let declared = Features::SPEAK() | Features::STOP() | Features::IS_SPEAKING();
    assert!(declared.contains(Features::SPEAK()));
    assert!(declared.contains(Features::SPEAK() | Features::STOP()));
    assert!(!declared.contains(Features::SPEAK() | Features::PAUSE()));
    assert!(!declared.contains(Features::BRAILLE()));
}

#[test]
fn contains_is_reflexive_and_includes_empty() {
    let f = Features(0xdead_beef);
    assert!(f.contains(f));
    assert!(f.contains(Features(0)));
    assert!(Features(0).contains(Features(0)));
    assert!(!Features(0).contains(Features::SPEAK()));
    assert_eq!(Features::default(), Features(0));
}

#[test]
fn contains_union_iff_both() {
    let a = Features(0b1011_0110);
    for b in 0u64..16 {
        for c in 0u64..16 {
            let (b, c) = (Features(b << 2), Features(c << 4));
            assert_eq!(a.contains(b | c), a.contains(b) && a.contains(c));
            assert!((b | c).contains(b));
            assert!(a.contains(a & b));
        }
    }
}

#[test]
fn backend_ids_match_prism() {
    assert_eq!(BackendId::INVALID(), BackendId(0));
    assert_eq!(BackendId::SAPI(), BackendId(0x1D6D_F724_22CE_EE66));
    assert_eq!(BackendId::AV_SPEECH(), BackendId(0x28E3_4295_7780_5C24));
    assert_eq!(BackendId::VOICE_OVER(), BackendId(0xCB48_9796_1A75_4BCB));
    assert_eq!(BackendId::SPEECH_DISPATCHER(), BackendId(0xE3D6_F895_D949_EBFE));
    assert_eq!(BackendId::NVDA(), BackendId(0x89CC_19C5_C4AC_1A56));
    assert_eq!(BackendId::JAWS(), BackendId(0xAC3D_60E9_BD84_B53E));
    assert_eq!(BackendId::ONE_CORE(), BackendId(0x6797_D32F_0D99_4CB4));
    assert_eq!(BackendId::ORCA(), BackendId(0x10AA_1FC0_5A17_F96C));
    assert_eq!(BackendId::ANDROID_SCREEN_READER(), BackendId(0xD199_C175_AEEC_494B));
    assert_eq!(BackendId::ANDROID_TTS(), BackendId(0xBC17_5831_BFE4_E5CC));
    assert_eq!(BackendId::WEB_SPEECH(), BackendId(0x3572_538D_44D4_4A8F));
    assert_eq!(BackendId::UIA(), BackendId(0x6238_F019_DB67_8F8E));
    assert_eq!(BackendId::ZDSR(), BackendId(0x3D93_C56C_9E7F_2A2E));
    assert_eq!(BackendId::ZOOM_TEXT(), BackendId(0xAE43_9D62_DC7B_1479));
    assert_eq!(BackendId::BOY_PC_READER(), BackendId(0x285A_BA1C_16F3_300F));
    assert_eq!(BackendId::PC_TALKER(), BackendId(0x344B_9519_62E3_B835));
    assert_eq!(BackendId::SENSE_READER(), BackendId(0xED47_6089_0B55_C2F2));
    assert_eq!(BackendId::SYSTEM_ACCESS(), BackendId(0x8380_F2A3_7B2C_3EB6));
    assert_eq!(BackendId::WINDOW_EYES(), BackendId(0x9120_D899_0878_5C13));
    assert_eq!(BackendId::SPIEL(), BackendId(0x478B_44F1_4AD3_D89C));
}

#[test]
fn lookup_of_invalid_id_is_not_available() {
    assert_eq!(BackendId::from_lookup(0), Err(Error::BackendNotAvailable));
    assert_eq!(BackendId::from_lookup(0x89CC_19C5_C4AC_1A56), Ok(BackendId::NVDA()));
    assert_eq!(BackendId::from_lookup(1), Ok(BackendId(1)));
}
