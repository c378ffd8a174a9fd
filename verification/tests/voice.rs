use quick_assistant::speakstream::SpeakStream;
use quick_assistant::voice::{
    assistant_voice_to_str, parse_assistant_voice, parse_voice, voice_to_str, Voice, VoiceEnum,
};
use quick_assistant::{assistant, options, tools};

#[test]
fn parse_voice_and_voice_to_str_roundtrip() {
    let voice = parse_voice("Alloy").expect("voice should parse");
    assert_eq!(voice_to_str(&voice), "alloy");
    assert!(parse_voice("doesnotexist").is_none());
}

#[test]
fn every_voice_is_found_by_its_name() {
    for voice in [
        Voice::Alloy,
        Voice::Ash,
        Voice::Coral,
        Voice::Echo,
        Voice::Fable,
        Voice::Onyx,
        Voice::Nova,
        Voice::Sage,
        Voice::Shimmer,
    ] {
        let name = assistant_voice_to_str(&voice);
        assert_eq!(parse_assistant_voice(name), Some(voice));
        assert_eq!(parse_assistant_voice(&name.to_uppercase()), Some(voice));
        if voice_to_str(&voice) != "unknown" {
            assert_eq!(parse_voice(name), Some(voice));
        } else {
            assert_eq!(parse_voice(name), None);
        }
    }
    assert_eq!(assistant_voice_to_str(&Voice::Other), "unknown");
    assert_eq!(parse_assistant_voice("unknown"), None);
}

#[test]
fn lowercase_is_that_of_unicode() {
    // The Kelvin sign is a capital k.
    assert_eq!(parse_voice("EC\u{48}O"), Some(Voice::Echo));
    let mut speech = SpeakStream::new(Voice::Echo, 0x3f80_0000);
    assert_eq!(tools::set_voice(&mut speech, "\u{212a}"), "Invalid voice name");
}

#[test]
fn voice_set_is_told() {
    let mut speech = SpeakStream::new(Voice::Echo, 0x3f80_0000);
    assert_eq!(tools::get_voice(&speech), "Current voice is echo");
    assert_eq!(tools::set_voice(&mut speech, "NOVA"), "Voice set to nova");
    assert_eq!(tools::get_voice(&speech), "Current voice is nova");
    assert_eq!(tools::set_voice(&mut speech, "sage"), "Invalid voice name");
    assert_eq!(tools::get_voice(&speech), "Current voice is nova");
    assert_eq!(assistant::set_voice(&mut speech, "Sage"), "Voice set to sage");
    assert_eq!(assistant::get_voice(&speech), "sage");
    assert_eq!(tools::get_voice(&speech), "Current voice is unknown");
}

#[test]
fn starting_voice_is_echo_unless_chosen() {
    assert_eq!(options::starting_voice(None), Voice::Echo);
    assert_eq!(options::starting_voice(Some(VoiceEnum::Fable)), Voice::Fable);
    assert_eq!(Voice::from(VoiceEnum::Shimmer), Voice::Shimmer);
}
