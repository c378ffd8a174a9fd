use quick_assistant::sentences::{get_second_to_last_char, SentenceAccumulator};
use quick_assistant::speak_stream_ext::SpeakStreamExt;
use quick_assistant::speakstream::{
    AudioTask, PlaybackStep, SpeakState, SpeakStream, TickEvent, Ticker, AI_VOICE_SINK_BUFFER_SIZE,
};
use quick_assistant::voice::Voice;

fn stream() -> SpeakStream {
    SpeakStream::new(Voice::Echo, 0x3f80_0000)
}

fn said(s: &mut SpeakStream) -> Vec<String> {
    let mut out = Vec::new();
    let mut n = 0;
    while let Some(c) = s.start_conversion(n) {
        out.push(c.text);
        s.next_conversion();
        n += 1;
    }
    out
}

#[test]
fn sentences_are_taken_from_tokens() {
    let mut a = SentenceAccumulator::new();
    assert!(a.add_token("This is a sentence that is long enough").is_empty());
    let found = a.add_token(" to be one. And more");
    assert_eq!(found, vec!["This is a sentence that is long enough to be one.".to_string()]);
    assert_eq!(a.complete_sentence(), Some("And more".to_string()));
    assert_eq!(a.complete_sentence(), None);
}

#[test]
fn tokens_join() {
    let whole = "One two three four five six. Seven, eight! Nine? Ten eleven twelve thirteen. ";
    let mut one = SentenceAccumulator::new();
    let at_once = one.add_token(whole);
    let mut many = SentenceAccumulator::new();
    let mut by_char = Vec::new();
    for c in whole.chars() {
        by_char.extend(many.add_token(&c.to_string()));
    }
    assert_eq!(at_once, by_char);
    assert_eq!(one.complete_sentence(), many.complete_sentence());
}

#[test]
fn long_text_is_cut() {
    let mut a = SentenceAccumulator::new();
    let found = a.add_token(&"x".repeat(1000));
    assert!(found.len() >= 3);
    let left = a.complete_sentence().unwrap_or_default();
    assert_eq!(found.concat().len() + left.len(), 1000);
    a.add_token("forgotten");
    a.clear_buffer();
    assert_eq!(a.complete_sentence(), None);
}

#[test]
fn second_to_last_character() {
    assert_eq!(get_second_to_last_char(""), None);
    assert_eq!(get_second_to_last_char("a"), None);
    assert_eq!(get_second_to_last_char("éa"), Some('é'));
    assert_eq!(get_second_to_last_char("abc"), Some('b'));
}

#[test]
fn sentences_are_said_in_order() {
    let mut s = stream();
    s.add_token("The first sentence is this one here. The second sentence comes after it. Rest");
    s.complete_sentence();
    assert_eq!(
        said(&mut s),
        vec![
            "The first sentence is this one here.".to_string(),
            "The second sentence comes after it.".to_string(),
            "Rest".to_string()
        ]
    );
}

#[test]
fn stopped_speech_is_not_said() {
    let mut s = stream();
    s.add_token("The first sentence is this one here. The second sentence comes after it. Rest");
    assert!(s.start_conversion(7).is_some());
    s.stop_speech();
    s.complete_sentence();
    assert!(s.start_conversion(8).is_none());
    assert_eq!(s.conversion_finished(Some(7), "gone".to_string()), vec![7]);
    assert!(s.next_audio().is_none());
    assert_eq!(s.conversion_finished(Some(9), "heard".to_string()), Vec::<u64>::new());
    assert!(matches!(s.next_audio(), Some(AudioTask::Speech { clip: 9, text }) if text == "heard"));
}

#[test]
fn killed_conversions_are_told_once() {
    let mut s = stream();
    s.add_token("The first sentence is this one here. The second sentence comes after it. ");
    assert!(s.start_conversion(1).is_some());
    assert!(s.start_conversion(2).is_some());
    assert!(s.take_killed().is_empty());
    s.stop_speech();
    assert_eq!(s.take_killed(), vec![1, 2]);
    assert!(s.take_killed().is_empty());
    assert_eq!(s.next_conversion(), None);
}

#[test]
fn queues_are_bounded() {
    let mut s = stream();
    for i in 0..20 {
        s.add_token(&format!("This is the sentence with number {} of many. ", i));
    }
    let mut started = 0;
    while s.start_conversion(started).is_some() {
        started += 1;
    }
    assert_eq!(started as usize, AI_VOICE_SINK_BUFFER_SIZE);
    let mut waiting = 0;
    while s.has_room() {
        s.next_conversion();
        s.conversion_finished(Some(waiting), String::new());
        waiting += 1;
    }
    assert_eq!(waiting as usize, AI_VOICE_SINK_BUFFER_SIZE);
}

#[test]
fn failed_conversion_is_told_by_a_sound() {
    let mut s = stream();
    s.conversion_finished(None, "lost".to_string());
    assert!(matches!(s.next_audio(), Some(AudioTask::Error)));
}

#[test]
fn states_are_told_in_order() {
    let mut s = stream();
    s.add_token("The first sentence is this one here. ");
    s.start_conversion(0);
    s.next_conversion();
    s.conversion_finished(Some(0), "x".to_string());
    assert!(s.next_audio().is_some());
    assert_eq!(s.poll_playback(false), PlaybackStep::Wait);
    s.stop_speech();
    assert_eq!(s.poll_playback(false), PlaybackStep::Stop);
    assert_eq!(s.poll_playback(true), PlaybackStep::Ended);
    assert_eq!(
        s.take_states(),
        vec![
            SpeakState::Converting,
            SpeakState::Playing,
            SpeakState::Idle,
            SpeakState::Idle,
            SpeakState::Idle
        ]
    );
    assert!(s.take_states().is_empty());
}

#[test]
fn muting_is_remembered() {
    let mut s = stream();
    assert!(!s.is_muted());
    s.mute();
    assert!(s.is_muted());
    s.unmute();
    assert!(!s.is_muted());
    s.set_speech_speed(0x4000_0000);
    assert_eq!(f32::from_bits(s.get_speech_speed()), 2.0);
    s.start_audio_ducking();
    s.stop_audio_ducking();
}

#[test]
fn no_tick_over_the_voice() {
    let mut t = Ticker::new();
    assert!(!t.step(TickEvent::Nothing, true).play);
    assert!(t.step(TickEvent::State(SpeakState::Converting), true).play);
    assert!(!t.step(TickEvent::Nothing, false).play);
    assert!(t.step(TickEvent::Nothing, true).play);
    let playing = t.step(TickEvent::State(SpeakState::Playing), true);
    assert!(playing.stop && !playing.play);
    assert!(!t.step(TickEvent::State(SpeakState::Converting), true).play);
    assert!(t.step(TickEvent::State(SpeakState::Idle), true).stop);
    assert!(t.step(TickEvent::State(SpeakState::Converting), true).play);
    assert!(t.step(TickEvent::Gone, true).done);
}
