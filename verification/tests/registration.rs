use prismer::{
    priority_code, priority_override_code, text_reply, value_reply, vtable_for, Error, Features,
};

#[test]
fn lifecycle_slots_are_always_installed() {
    let slots = vtable_for(Features(0));
    assert!(slots.create && slots.destroy && slots.is_supported && slots.initialize);
    assert!(!slots.speak && !slots.stop && !slots.get_bit_depth);
}

#[test]
fn declared_operations_get_slots() {
    let slots = vtable_for(Features::SPEAK() | Features::STOP());
    assert!(slots.speak);
    assert!(slots.stop);
    assert!(!slots.speak_to_memory);
    assert!(!slots.braille);
    assert!(!slots.output);
    assert!(!slots.pause);
    assert!(!slots.resume);
    assert!(!slots.is_speaking);
    assert!(!slots.get_voice);
    assert!(!slots.set_voice);
}

#[test]
fn every_operation_slot_follows_its_feature() {
    let all = vtable_for(Features(u64::MAX));
    let flags = [
        all.speak,
        all.speak_to_memory,
        all.braille,
        all.output,
        all.stop,
        all.pause,
        all.resume,
        all.is_speaking,
        all.set_volume,
        all.get_volume,
        all.set_rate,
        all.get_rate,
        all.set_pitch,
        all.get_pitch,
        all.refresh_voices,
        all.count_voices,
        all.get_voice_name,
        all.get_voice_language,
        all.set_voice,
        all.get_voice,
        all.get_channels,
        all.get_sample_rate,
        all.get_bit_depth,
    ];
    assert!(flags.iter().all(|installed| *installed));
    let voice_only = vtable_for(Features::GET_VOICE());
    assert!(voice_only.get_voice && !voice_only.set_voice);
    let set_only = vtable_for(Features::SET_VOICE());
    assert!(set_only.set_voice && !set_only.get_voice);
    let formats = vtable_for(Features::GET_CHANNELS() | Features::GET_SAMPLE_RATE());
    assert!(formats.get_channels && formats.get_sample_rate && !formats.get_bit_depth);
}

#[test]
fn non_operation_features_install_nothing_extra() {
    let slots = vtable_for(Features::IS_SUPPORTED_AT_RUNTIME() | Features::SPEAK_SSML());
    assert_eq!(slots, vtable_for(Features(0)));
}

#[test]
fn priorities_must_fit_a_c_int() {
    assert_eq!(priority_code(0), Ok(0));
    assert_eq!(priority_code(10), Ok(10));
    assert_eq!(priority_code(i32::MAX as u32), Ok(i32::MAX));
    assert_eq!(priority_code(i32::MAX as u32 + 1), Err(Error::InvalidParam));
    assert_eq!(priority_code(u32::MAX), Err(Error::InvalidParam));
}

#[test]
fn missing_override_keeps_declared_priorities() {
    assert_eq!(priority_override_code(None), Ok(-1));
    assert_eq!(priority_override_code(Some(7)), Ok(7));
    assert_eq!(priority_override_code(Some(u32::MAX)), Err(Error::InvalidParam));
}

#[test]
fn value_replies_write_only_on_success() {
    assert_eq!(value_reply(Ok::<usize, Error>(3)), (0, Some(3)));
    assert_eq!(value_reply(Err::<usize, Error>(Error::NotImplemented)), (3, None));
    assert_eq!(value_reply(Err::<bool, Error>(Error::Unknown(-2))), (-2, None));
}

#[test]
fn text_replies_are_c_strings() {
    assert_eq!(text_reply(Ok("Alex".to_string())), Ok(b"Alex\0".to_vec()));
    assert_eq!(text_reply(Ok("en\0US".to_string())), Err(2));
    assert_eq!(text_reply(Err(Error::VoiceNotFound)), Err(5));
}
