use async_openai::types::{AssistantTools, CreateAssistantRequestArgs, FunctionObject};
use quick_assistant::assistant::{
    asked_speed, billing_answer, brightness_answer, clipboard_read_answer, clipboard_set_answer,
    get_clipboard_string, handle_requires_action, is_answered, media_answer, tool_outputs, ClipboardRead,
    RequiredCall, RunStream, StreamEvent, StreamStep,
};
use quick_assistant::catalogue::{assistant_tools, chat_functions, Kind};
use quick_assistant::options::{check_options, SubCommands, TalkKeyChoice};
use quick_assistant::speakstream::SpeakStream;
use quick_assistant::tools::{call_fn, media_button, MediaButton, ToolCall};
use quick_assistant::ui::MessageBox;
use quick_assistant::voice::Voice;

/// Whether a request with this function has it, and the library offers it.
fn includes(name: &str, description: &str, parameters: &str) -> bool {
    let req = CreateAssistantRequestArgs::default()
        .instructions("test")
        .model("gpt-4o")
        .tools(vec![FunctionObject {
            name: name.into(),
            description: Some(description.into()),
            parameters: Some(serde_json::from_str(parameters).unwrap()),
            strict: None,
        }
        .into()])
        .build()
        .unwrap();
    let tools = req.tools.unwrap();
    let in_request = tools.iter().any(|t| match t {
        AssistantTools::Function(f) => f.function.name == name,
        _ => false,
    });
    let offered = assistant_tools();
    let tool = offered.iter().find(|t| t.name == name).unwrap();
    in_request && tool.description.starts_with(description)
}

const NOTHING: &str = "{\"type\": \"object\", \"properties\": {}, \"required\": []}";

#[test]
fn build_assistant_request() {
    let req = CreateAssistantRequestArgs::default()
        .model("gpt-4o")
        .build();
    assert!(req.is_ok());
}

#[test]
fn includes_open_openai_billing_function() {
    assert!(includes(
        "open_openai_billing",
        "Opens the OpenAI usage dashboard in the default web browser.",
        NOTHING
    ));
}

#[test]
fn includes_speedtest_function() {
    assert!(includes(
        "speedtest",
        "Runs an internet speedtest and returns the results.",
        NOTHING
    ));
}

#[test]
fn includes_set_screen_brightness_function() {
    assert!(includes(
        "set_screen_brightness",
        "Sets the screen brightness from 0 to 100 using the `luster` utility.",
        "{\"type\": \"object\", \"properties\": {\"brightness\": {\"type\": \"integer\"}}, \"required\": [\"brightness\"]}"
    ));
}

#[test]
fn includes_set_speech_speed_function() {
    assert!(includes(
        "set_speech_speed",
        "Sets how fast the AI voice speaks.",
        "{\"type\": \"object\", \"properties\": {\"speed\": {\"type\": \"number\"}}, \"required\": [\"speed\"]}"
    ));
}

#[test]
fn includes_media_controls_function() {
    assert!(includes(
        "media_controls",
        "Plays, pauses or seeks media.",
        "{\"type\": \"object\", \"properties\": {\"media_button\": {\"type\": \"string\", \"enum\": [\"MediaStop\", \"MediaNextTrack\", \"MediaPlayPause\", \"MediaPrevTrack\", \"VolumeUp\", \"VolumeDown\", \"VolumeMute\"]}}, \"required\": [\"media_button\"]}"
    ));
}

#[test]
fn includes_mute_speech_function() {
    assert!(includes("mute_speech", "Mutes the AI voice output.", NOTHING));
}

#[test]
fn includes_get_system_info_function() {
    assert!(includes(
        "get_system_info",
        "Returns system information like CPU and memory usage.",
        NOTHING
    ));
}

#[test]
fn get_clipboard_returns_contents() {
    match get_clipboard_string(ClipboardRead::Held("clipboard_test".to_string())) {
        Ok(contents) => assert_eq!(contents, "clipboard_test"),
        Err(_) => panic!("the clipboard was read"),
    }
}

#[test]
fn clipboard_that_cannot_be_read() {
    let closed = get_clipboard_string(ClipboardRead::NotOpened("x".to_string()));
    assert_eq!(clipboard_read_answer(closed), "Failed to initialize clipboard: x");
    let unread = get_clipboard_string(ClipboardRead::NotRead("x".to_string()));
    assert_eq!(clipboard_read_answer(unread), "Failed to read clipboard contents: x");
    assert_eq!(clipboard_read_answer(Ok("t".to_string())), "t");
    assert_eq!(clipboard_set_answer(&None), "Clipboard set");
    assert_eq!(
        clipboard_set_answer(&Some("x".to_string())),
        "Failed to set clipboard: x"
    );
}

#[test]
fn offered_tools_are_known() {
    for tool in assistant_tools() {
        assert!(!matches!(handle_requires_action(&tool.name, "{}"), RequiredCall::Unknown));
    }
    for tool in chat_functions() {
        assert!(!matches!(call_fn(&tool.name, "{}"), Some(ToolCall::Unknown)));
    }
    assert_eq!(assistant_tools().len(), 15);
    assert_eq!(chat_functions().len(), 25);
}

#[test]
fn offered_parameters() {
    let functions = chat_functions();
    let timer = functions.iter().find(|f| f.name == "set_timer_at").unwrap();
    assert_eq!(timer.parameters.len(), 2);
    assert!(timer.parameters[0].required && timer.parameters[0].name == "time");
    assert!(!timer.parameters[1].required && timer.parameters[1].name == "description");
    let media = functions.iter().find(|f| f.name == "media_controls").unwrap();
    assert_eq!(media.parameters[0].choices.len(), 7);
    for choice in &media.parameters[0].choices {
        assert!(media_button(choice).is_some());
    }
    let tools = assistant_tools();
    let brightness = tools.iter().find(|f| f.name == "set_screen_brightness").unwrap();
    assert_eq!(brightness.parameters[0].kind, Kind::Integer);
    let temperature = tools.iter().find(|f| f.name == "get_current_temperature").unwrap();
    assert_eq!(temperature.parameters[1].choices, vec!["Celsius", "Fahrenheit"]);
    assert_eq!(
        temperature.parameters[0].description,
        Some("The city and state, e.g., San Francisco, CA".to_string())
    );
}

#[test]
fn required_calls_are_read() {
    assert!(matches!(handle_requires_action("get_current_temperature", ""), RequiredCall::Answer(a) if a == "57"));
    assert!(matches!(handle_requires_action("get_rain_probability", ""), RequiredCall::Answer(a) if a == "0.06"));
    assert!(matches!(handle_requires_action("set_clipboard", "{\"clipboard_text\": \"x\"}"), RequiredCall::SetClipboard(t) if t == "x"));
    assert!(matches!(handle_requires_action("set_clipboard", "no json"), RequiredCall::SetClipboard(t) if t.is_empty()));
    assert!(matches!(handle_requires_action("get_clipboard", ""), RequiredCall::GetClipboard));
    assert!(matches!(
        handle_requires_action("media_controls", "{\"media_button\": \"VolumeUp\"}"),
        RequiredCall::MediaControls(Some(MediaButton::VolumeUp))
    ));
    assert!(matches!(
        handle_requires_action("media_controls", "{}"),
        RequiredCall::MediaControls(None)
    ));
    assert!(matches!(handle_requires_action("open_openai_billing", ""), RequiredCall::OpenOpenaiBilling));
    assert!(matches!(handle_requires_action("speedtest", ""), RequiredCall::Speedtest));
    assert!(matches!(handle_requires_action("set_speech_speed", "{\"speed\": 2.5}"), RequiredCall::SetSpeechSpeed(Some(n)) if n == "2.5"));
    assert!(matches!(handle_requires_action("set_speech_speed", "{}"), RequiredCall::SetSpeechSpeed(None)));
    assert!(matches!(handle_requires_action("get_speech_speed", ""), RequiredCall::GetSpeechSpeed));
    assert!(matches!(handle_requires_action("mute_speech", ""), RequiredCall::MuteSpeech));
    assert!(matches!(handle_requires_action("unmute_speech", ""), RequiredCall::UnmuteSpeech));
    assert!(matches!(handle_requires_action("set_voice", "{\"voice\": \"Ash\"}"), RequiredCall::SetVoice(v) if v == "Ash"));
    assert!(matches!(handle_requires_action("get_system_info", ""), RequiredCall::GetSystemInfo));
    assert!(matches!(handle_requires_action("get_voice", ""), RequiredCall::GetVoice));
    assert!(matches!(handle_requires_action("make_tea", ""), RequiredCall::Unknown));
}

#[test]
fn brightness_is_from_0_to_100() {
    let asked = |n: &str| {
        handle_requires_action("set_screen_brightness", &format!("{{\"brightness\": {}}}", n))
    };
    for n in 0..=100u32 {
        assert!(matches!(asked(&n.to_string()), RequiredCall::SetScreenBrightness(b) if b == n));
    }
    for n in [
        "101", "150", "-1", "4294967296", "4294967346", "-4294967295", "9223372036854775807",
        "-9223372036854775808", "9223372036854775808", "18446744073709551615",
        "18446744073709551616", "-9223372036854775809", "1e20", "-1e300",
        "100000000000000000000000000000000000000000000000000",
    ] {
        assert!(
            matches!(asked(n), RequiredCall::Answer(a)
                if a == "Failed to set brightness: Brightness must be between 0 and 100"),
            "{}",
            n
        );
    }
    for n in ["\"70\"", "50.5", "-0.5", "1e-7", "1.5e-20", "null", "[7]", "{}"] {
        assert!(matches!(asked(n), RequiredCall::SetScreenBrightness(0)), "{}", n);
    }
    assert!(matches!(
        handle_requires_action("set_screen_brightness", "{}"),
        RequiredCall::SetScreenBrightness(0)
    ));
    assert!(matches!(
        handle_requires_action("set_screen_brightness", "{"),
        RequiredCall::SetScreenBrightness(0)
    ));
}

#[test]
fn required_answers() {
    assert_eq!(asked_speed(None), 1.0f32.to_bits());
    assert_eq!(asked_speed(Some(2.5f32.to_bits())), 2.5f32.to_bits());
    assert_eq!(brightness_answer(&None), "Brightness set");
    assert_eq!(brightness_answer(&Some("x".to_string())), "Failed to set brightness: x");
    assert_eq!(billing_answer(&None), "Opened OpenAI billing page");
    assert_eq!(
        billing_answer(&Some("x".to_string())),
        "Failed to open OpenAI billing page: x"
    );
    for name in ["MediaStop", "MediaNextTrack", "MediaPlayPause", "MediaPrevTrack", "VolumeUp", "VolumeDown", "VolumeMute"] {
        assert_eq!(media_answer(media_button(name)), name);
    }
    assert_eq!(media_answer(media_button("Eject")), "Unknown button");
}

#[test]
fn only_answers_are_submitted() {
    let ids = vec!["a".to_string(), "b".to_string(), "c".to_string()];
    let calls = vec![
        handle_requires_action("get_voice", "{}"),
        handle_requires_action("make_tea", "{}"),
        handle_requires_action("set_screen_brightness", "{\"brightness\": 150}"),
    ];
    let answered: Vec<bool> = calls.iter().map(is_answered).collect();
    assert_eq!(answered, vec![true, false, true]);
    let told = vec!["1".to_string(), "2".to_string(), "3".to_string()];
    let outputs = tool_outputs(&ids, &calls, &told);
    assert_eq!(outputs.len(), 2);
    assert_eq!((outputs[0].tool_call_id.as_str(), outputs[0].output.as_str()), ("a", "1"));
    assert_eq!((outputs[1].tool_call_id.as_str(), outputs[1].output.as_str()), ("c", "3"));
}

#[test]
fn known_calls_are_answered_once() {
    let tools = assistant_tools();
    assert_eq!(tools.len(), 15);
    let ids: Vec<String> = (0..tools.len()).map(|i| i.to_string()).collect();
    let calls: Vec<_> = tools.iter().map(|t| handle_requires_action(&t.name, "{}")).collect();
    let told: Vec<String> = tools.iter().map(|t| t.name.clone()).collect();
    let outputs = tool_outputs(&ids, &calls, &told);
    assert_eq!(outputs.len(), tools.len());
    for (i, output) in outputs.iter().enumerate() {
        assert_eq!(output.tool_call_id, ids[i]);
        assert_eq!(output.output, told[i]);
    }
}

#[test]
fn first_run_is_kept() {
    let mut speech = SpeakStream::new(Voice::Echo, 1.0f32.to_bits());
    let mut stream = RunStream::new();
    let run = |id: &str, requires_action: bool| StreamEvent::Run { id: id.to_string(), requires_action };
    assert!(matches!(stream.step(&mut speech, false, &StreamEvent::Other), StreamStep::Nothing));
    assert!(matches!(stream.step(&mut speech, false, &run("r1", false)), StreamStep::Nothing));
    assert!(matches!(stream.step(&mut speech, false, &run("r2", true)), StreamStep::Act));
    let none: Vec<String> = Vec::new();
    assert!(matches!(stream.step(&mut speech, false, &StreamEvent::Texts(none)), StreamStep::Print { label: false }));
    let texts = vec!["Hel".to_string(), "lo".to_string()];
    assert!(matches!(stream.step(&mut speech, false, &StreamEvent::Texts(texts)), StreamStep::Print { label: true }));
    let more = vec![".".to_string()];
    assert!(matches!(stream.step(&mut speech, false, &StreamEvent::Texts(more)), StreamStep::Print { label: false }));
    assert!(matches!(stream.step(&mut speech, false, &StreamEvent::Error("x".to_string())), StreamStep::PrintError));
    let lost = vec!["lost".to_string()];
    assert!(matches!(stream.step(&mut speech, true, &StreamEvent::Texts(lost)), StreamStep::Leave { cancel: Some(id) } if id == "r1"));
    speech.complete_sentence();
    assert_eq!(speech.start_conversion(0).unwrap().text, "Hello.");
}

#[test]
fn interrupted_before_a_run() {
    let mut speech = SpeakStream::new(Voice::Echo, 1.0f32.to_bits());
    let mut stream = RunStream::new();
    assert!(matches!(stream.step(&mut speech, true, &StreamEvent::Other), StreamStep::Leave { cancel: None }));
}

#[test]
fn options_are_checked() {
    let normal = 1.0f32.to_bits();
    assert!(matches!(check_options(normal, Some('k'), Some(3), true), Ok(TalkKeyChoice::Named('k'))));
    assert!(matches!(check_options::<char>(normal, None, Some(3), true), Ok(TalkKeyChoice::Special(3))));
    assert!(matches!(check_options(0.4f32.to_bits(), Some('k'), None, true), Err(e) if e == "Speech speed must be between 0.5 and 100.0"));
    assert!(matches!(check_options::<char>(normal, None, None, true), Err(e) if e.starts_with("No push to talk key specified.")));
    assert!(matches!(check_options(normal, Some('k'), None, false), Err(e) if e.starts_with("OPENAI_API_KEY not set.")));
    assert_ne!(SubCommands::ShowKeyPresses, SubCommands::ListDevices);
}

#[test]
fn messages_are_sent_once() {
    let mut window = MessageBox {
        history: "first".to_string(),
        message: "  \t".to_string(),
        send_enabled: true,
    };
    window.disable_send_if_empty_message();
    assert!(!window.send_enabled);
    window.handle_message();
    assert_eq!(window.history, "first");
    window.message = " hi ".to_string();
    window.disable_send_if_empty_message();
    assert!(window.send_enabled);
    window.handle_message();
    assert_eq!(window.history, "first\n hi ");
    assert_eq!(window.message, "");
    assert!(!window.send_enabled);
    window.handle_message();
    assert_eq!(window.history, "first\n hi ");
}
