use quick_assistant::chat::{
    expired_timer_message, heard, request_failure, Choice, ChoiceStep, Conversation, Finish, Heard,
    Message, RequestFailure, RequestStep, ResponseEvent, Transcription,
};
use quick_assistant::clock::Timestamp;
use quick_assistant::push_to_talk::{new_recording_file_name, recording_file_name, KeyAction, TalkKey, SHORTEST_RECORDING};
use quick_assistant::speakstream::SpeakStream;
use quick_assistant::timers::Timer;
use quick_assistant::voice::Voice;

fn speech() -> SpeakStream {
    SpeakStream::new(Voice::Echo, 1.0f32.to_bits())
}

fn said(s: &mut SpeakStream) -> Vec<String> {
    s.complete_sentence();
    let mut out = Vec::new();
    let mut n = 0;
    while let Some(c) = s.start_conversion(n) {
        out.push(c.text);
        s.next_conversion();
        n += 1;
    }
    out
}

fn content(s: &str) -> Choice<String> {
    Choice { fn_name: None, fn_args: None, finish: Finish::No, content: Some(s.to_string()) }
}

fn call(name: Option<&str>, args: Option<&str>, finish: Finish) -> Choice<String> {
    Choice {
        fn_name: name.map(|s| s.to_string()),
        fn_args: args.map(|s| s.to_string()),
        finish,
        content: None,
    }
}

fn now() -> Timestamp {
    Timestamp::new(1_733_301_840, 0, -28_800).unwrap()
}

fn user(s: &str) -> Message<String> {
    Message::User { content: s.to_string() }
}

#[test]
fn conversation_starts_with_instructions() {
    let c = Conversation::new();
    assert_eq!(c.history().len(), 1);
    assert!(matches!(&c.history()[0], Message::System { content } if content.starts_with("You are a desktop voice assistant.")));
}

#[test]
fn user_messages_tell_the_time() {
    let mut c = Conversation::new();
    c.receive(user("hello"), &now());
    assert!(matches!(&c.history()[1], Message::User { content }
        if content == "Local Time: 2024-12-04 00:44:00 -08:00\nhello"));
    c.receive_at(user("again"), "noon");
    assert!(matches!(&c.history()[2], Message::User { content }
        if content == "Local Time: noon\nagain"));
    c.receive(Message::Tool { content: "t".to_string() }, &now());
    assert!(matches!(&c.history()[3], Message::Tool { content } if content == "t"));
}

#[test]
fn responses_are_spoken_and_remembered() {
    let mut c = Conversation::new();
    let mut s = speech();
    c.receive(user("hello"), &now());
    c.start_request();
    assert_eq!(c.take_choice(&mut s, &content("Hel")), ChoiceStep::Print { label: true });
    assert_eq!(c.take_choice(&mut s, &content("lo.")), ChoiceStep::Print { label: false });
    assert_eq!(c.take_choice(&mut s, &call(None, None, Finish::Otherwise)), ChoiceStep::Nothing);
    c.response_ended();
    assert!(matches!(c.history().last(), Some(Message::Assistant { content }) if content == "Hello."));
    assert_eq!(said(&mut s), vec!["Hello.".to_string()]);
}

#[test]
fn functions_are_called_with_all_their_arguments() {
    let mut c = Conversation::new();
    let mut s = speech();
    c.receive(user("hello"), &now());
    c.start_request();
    c.take_choice(&mut s, &call(Some("set_volume"), Some("{\"vol"), Finish::No));
    c.take_choice(&mut s, &call(None, Some("ume\": 1}"), Finish::No));
    let step = c.take_choice(&mut s, &call(None, None, Finish::FunctionCall));
    assert_eq!(step, ChoiceStep::Call);
    assert_eq!(c.call(), ("set_volume".to_string(), "{\"volume\": 1}".to_string()));
    assert!(!c.call_answered(None));
    assert_eq!(c.history().len(), 2);
    assert!(c.call_answered(Some("done".to_string())));
    assert!(matches!(c.history().last(), Some(Message::Function { fn_name, content })
        if fn_name == "set_volume" && content == "done"));
    assert_eq!(c.call(), (String::new(), String::new()));
}

#[test]
fn code_is_not_spoken() {
    let mut c = Conversation::new();
    let mut s = speech();
    c.start_request();
    for more in ["Look", " here\n", "```rust", "\nlet x = 1;", "\n```", "\nDone."] {
        c.take_choice(&mut s, &content(more));
    }
    assert_eq!(c.figure_number(), 2);
    c.response_ended();
    assert!(matches!(c.history().last(), Some(Message::Assistant { content })
        if content == "Look here\n```rust\nlet x = 1;\n```\nDone."));
    let spoken = said(&mut s).join(" ");
    assert!(spoken.starts_with("Look here"));
    assert!(spoken.contains("See figure 1..."));
    assert!(spoken.ends_with("Done."));
    assert!(!spoken.contains("let x"));
}

#[test]
fn second_code_block_is_the_second_figure() {
    let mut c = Conversation::new();
    let mut s = speech();
    c.start_request();
    for more in ["```", "\na", "\n```", "\nand", "\n```", "\nb", "\n```", "\nend"] {
        c.take_choice(&mut s, &content(more));
    }
    let spoken = said(&mut s).join(" ");
    assert!(spoken.contains("See figure 1..."));
    assert!(spoken.contains("See figure 2..."));
    assert!(!spoken.contains("See figure 3"));
    assert_eq!(c.figure_number(), 3);
}

#[test]
fn oldest_message_is_forgotten_first() {
    let mut c = Conversation::new();
    assert_eq!(c.response_failed(), None);
    c.receive_at(user("one"), "t");
    c.receive_at(user("two"), "t");
    assert_eq!(c.response_failed(), Some(2));
    assert!(matches!(&c.history()[0], Message::System { .. }));
    assert!(matches!(&c.history()[1], Message::User { content } if content.ends_with("two")));
}

#[test]
fn label_is_printed_once_for_a_message() {
    let mut c = Conversation::new();
    let mut s = speech();
    c.receive_at(user("one"), "t");
    c.start_request();
    assert_eq!(c.take_choice(&mut s, &content("a")), ChoiceStep::Print { label: true });
    c.call_answered(Some("x".to_string()));
    assert_eq!(c.take_choice(&mut s, &content("b")), ChoiceStep::Print { label: false });
    c.receive_at(user("two"), "t");
    c.start_request();
    assert_eq!(c.take_choice(&mut s, &content("c")), ChoiceStep::Print { label: true });
}

#[test]
fn what_was_heard() {
    assert!(matches!(heard(Transcription::Text("hi".to_string())), Heard::Said(Message::User { content }) if content == "hi"));
    assert!(matches!(heard(Transcription::Text(String::new())), Heard::Nothing));
    assert!(matches!(heard(Transcription::Failed("x".to_string())), Heard::Failure(e) if e == "Failed to transcribe audio: x"));
    assert!(matches!(heard(Transcription::TimedOut("x".to_string())), Heard::Failure(e) if e == "Failed to transcribe audio due to timeout: x"));
}

#[test]
fn lost_requests_are_told() {
    let x = "x".to_string();
    assert_eq!(request_failure(&RequestFailure::NoStream(x.clone())), "Failed to create stream: x");
    assert_eq!(
        request_failure(&RequestFailure::StreamTimeout(x.clone())),
        "Failed to create stream due to timeout: x"
    );
    assert_eq!(
        request_failure(&RequestFailure::ResponseTimeout(x)),
        "Failed to get response from AI due to timeout: x"
    );
}

#[test]
fn expired_timers_are_told() {
    let t = Timer { id: 4, description: "tea".to_string(), timestamp: now() };
    assert!(matches!(expired_timer_message(&t), Message::Function { fn_name, content }
        if fn_name == "check_on_timers"
            && content.starts_with("A timer has gone off with the following details.")
            && content.ends_with("\nTimer_ID: \"4\" Timer_description: \"tea\" goes off at time: \"2024-12-04T00:44:00-08:00\"")));
}

#[test]
fn shortest_recording_is_two_tenths_of_a_second() {
    for nanos in (SHORTEST_RECORDING as u64 - 2000)..(SHORTEST_RECORDING as u64 + 2000) {
        let length = std::time::Duration::from_nanos(nanos);
        assert_eq!((nanos as u128) < SHORTEST_RECORDING, length.as_secs_f32() < 0.2, "{}", nanos);
    }
    for nanos in [0u64, 1, 100_000_000, 199_999_000, 200_000_000, 1_000_000_000, 60_000_000_000] {
        let length = std::time::Duration::from_nanos(nanos);
        assert_eq!((nanos as u128) < SHORTEST_RECORDING, length.as_secs_f32() < 0.2, "{}", nanos);
    }
}

#[test]
fn key_is_held_to_talk() {
    let mut key = TalkKey::new();
    assert!(key.release().is_empty());
    assert_eq!(
        key.press("a.wav"),
        vec![
            KeyAction::StopAlarm,
            KeyAction::StopAssistant,
            KeyAction::StopSpeech,
            KeyAction::StartRecording
        ]
    );
    assert!(key.press("b.wav").is_empty());
    assert_eq!(
        key.release(),
        vec![KeyAction::StopAlarm, KeyAction::StopRecording, KeyAction::TakeRecording]
    );
    let taken = key.recording_stopped(Ok(1_000_000_000), Ok(()));
    assert!(taken.errors.is_empty());
    assert_eq!(taken.recording, Some("a.wav".to_string()));
    let again = key.recording_stopped(Ok(1_000_000_000), Ok(()));
    assert_eq!(again.recording, None);
    assert_eq!(recording_file_name("1234"), "1234.wav");
}

#[test]
fn recordings_that_fail_are_left_out() {
    let mut key = TalkKey::new();
    key.press("a.wav");
    key.release();
    let short = key.recording_stopped(Ok(SHORTEST_RECORDING - 1), Ok(()));
    assert_eq!(short.recording, None);
    assert_eq!(
        short.errors,
        vec!["User recording too short. Aborting transctiption and LLM response.".to_string()]
    );
    let broken = key.recording_stopped(Err("t".to_string()), Err("r".to_string()));
    assert_eq!(broken.recording, None);
    assert_eq!(
        broken.errors,
        vec![
            "Failed to get elapsed recording time: t".to_string(),
            "Failed to stop recording: r".to_string()
        ]
    );
    let untimed = key.recording_stopped(Err("t".to_string()), Ok(()));
    assert_eq!(untimed.recording, None);
    assert_eq!(untimed.errors.len(), 1);
}

#[test]
fn other_key_is_held_to_talk() {
    let mut key = TalkKey::new();
    assert_eq!(
        key.press_assistant(true),
        vec![
            KeyAction::StopAssistant,
            KeyAction::StopSpeech,
            KeyAction::StartDucking,
            KeyAction::StartRecording
        ]
    );
    key.recording_started(Some("a.wav".to_string()));
    assert!(key.press_assistant(true).is_empty());
    key.recording_started(None);
    assert_eq!(
        key.release_assistant(true),
        vec![KeyAction::StopRecording, KeyAction::TakeRecording, KeyAction::StopDucking]
    );
    let short = key.assistant_recording_stopped(5, true);
    assert_eq!(
        short.errors,
        vec!["User recording too short. Aborting transcription and LLM response.".to_string()]
    );
    assert_eq!(key.assistant_recording_stopped(300_000_000, false).recording, None);
    assert_eq!(
        key.assistant_recording_stopped(300_000_000, true).recording,
        Some("a.wav".to_string())
    );
    assert_eq!(
        key.press_assistant(false),
        vec![KeyAction::StopAssistant, KeyAction::StopSpeech, KeyAction::StartRecording]
    );
    assert_eq!(
        key.release_assistant(false),
        vec![KeyAction::StopRecording, KeyAction::TakeRecording]
    );
}

#[test]
fn recordings_have_random_names() {
    let name = new_recording_file_name();
    let unique = name.strip_suffix(".wav").unwrap();
    assert_eq!(uuid::Uuid::parse_str(unique).unwrap().to_string(), unique);
    assert_ne!(new_recording_file_name(), name);
}

#[test]
fn present_is_told_with_a_message() {
    let mut c = Conversation::new();
    let before = chrono::Local::now().to_string();
    c.receive_now(user("hello"));
    let after = chrono::Local::now().to_string();
    match &c.history()[1] {
        Message::User { content } => {
            let time = content
                .strip_prefix("Local Time: ")
                .and_then(|s| s.strip_suffix("\nhello"))
                .unwrap();
            let parse = |s: &str| s.parse::<chrono::DateTime<chrono::Local>>().unwrap();
            assert!(parse(&before) <= parse(time) && parse(time) <= parse(&after));
        }
        _ => panic!("a message of the user"),
    }
}

#[test]
fn requests_end() {
    let mut c = Conversation::new();
    c.receive_at(user("one"), "t");
    c.start_request();
    let mut stop = false;
    let x = "x".to_string();
    assert!(matches!(c.request_step(ResponseEvent::More, &mut stop), RequestStep::TakeChoices));
    let failures = [
        (RequestFailure::NoStream(x.clone()), "Failed to create stream: x"),
        (RequestFailure::StreamTimeout(x.clone()), "Failed to create stream due to timeout: x"),
        (RequestFailure::ResponseTimeout(x), "Failed to get response from AI due to timeout: x"),
    ];
    for (failure, told) in failures {
        assert!(matches!(c.request_step(ResponseEvent::Lost(failure), &mut stop),
            RequestStep::Over { error: Some(e) } if e == told));
    }
    assert_eq!(c.history().len(), 2);
    let mut s = speech();
    c.take_choice(&mut s, &content("hi"));
    assert!(matches!(
        c.request_step(ResponseEvent::Ended, &mut stop),
        RequestStep::Over { error: None }
    ));
    assert!(matches!(&c.history()[2], Message::Assistant { content } if content == "hi"));
    assert!(!stop);
}

#[test]
fn refused_conversations_are_asked_again() {
    let mut c = Conversation::new();
    let mut stop = false;
    c.receive_at(user("one"), "t");
    c.receive_at(user("two"), "t");
    assert!(matches!(
        c.request_step(ResponseEvent::Refused, &mut stop),
        RequestStep::Again { left: Some(2) }
    ));
    assert!(matches!(
        c.request_step(ResponseEvent::Refused, &mut stop),
        RequestStep::Again { left: Some(1) }
    ));
    assert!(matches!(
        c.request_step(ResponseEvent::Refused, &mut stop),
        RequestStep::Again { left: None }
    ));
    assert!(matches!(&c.history()[0], Message::System { .. }));
}

#[test]
fn stopping_is_heeded_once() {
    for refused in [false, true] {
        let event = || if refused { ResponseEvent::Refused } else { ResponseEvent::More };
        let mut c = Conversation::new();
        let mut s = speech();
        let mut stop = true;
        c.receive_at(user("one"), "t");
        c.start_request();
        c.take_choice(&mut s, &content("so far"));
        assert!(matches!(
            c.request_step(event(), &mut stop),
            RequestStep::Over { error: None }
        ));
        assert!(!stop);
        assert_eq!(c.history().len(), 3);
        assert!(matches!(&c.history()[2], Message::Assistant { content } if content == "so far"));
        assert!(!matches!(c.request_step(event(), &mut stop), RequestStep::Over { .. }));
    }
    // Nothing has come that could be stopped.
    let mut c = Conversation::new();
    let mut stop = true;
    c.request_step(ResponseEvent::Lost(RequestFailure::NoStream(String::new())), &mut stop);
    assert!(stop);
}
