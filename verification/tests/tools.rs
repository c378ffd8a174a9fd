use quick_assistant::default_device_sink::{get_output_device, OutputSelection};
use quick_assistant::speakstream::SpeakStream;
use quick_assistant::tools::{
    brightness_answer, call_answer, call_fn, clipboard_answer, is_protected, is_speech_speed, kill_answer,
    list_output_devices, live_log_answer, location_answer, mute_speech, open_application,
    page_address, page_answer, presses, set_output_device, set_speech_speed, speech_speed_answer,
    speedtest_started, tool_call, unmute_speech, volume_answer, when_answered, Answering,
    Arguments, ClipboardOutcome,
    KeyStep, MediaButton, Page, ToolCall,
};
use quick_assistant::voice::Voice;

fn arguments() -> Arguments<String> {
    Arguments { error: None, text: None, description: None, unsigned: None, number: None }
}

fn text(s: &str) -> Arguments<String> {
    Arguments { text: Some(s.to_string()), ..arguments() }
}

#[test]
fn brightness_is_read_from_a_string() {
    assert!(matches!(
        call_fn("set_screen_brightness", "{\"brightness\": \"70\"}"),
        Some(ToolCall::SetScreenBrightness(70))
    ));
    assert!(matches!(
        call_fn("set_screen_brightness", "{\"brightness\": \"+7\"}"),
        Some(ToolCall::SetScreenBrightness(7))
    ));
    for bad in ["{\"brightness\": 70}", "{\"brightness\": \"-1\"}", "{\"brightness\": \"4294967296\"}", "{}", "[]", "no json"] {
        assert!(call_fn("set_screen_brightness", bad).is_none(), "{}", bad);
    }
    assert_eq!(brightness_answer(true), "Brightness set");
    assert_eq!(brightness_answer(false), "Failed to set brightness");
}

#[test]
fn media_buttons_are_pressed() {
    for (name, button, times) in [
        ("MediaStop", MediaButton::Stop, 1),
        ("MediaNextTrack", MediaButton::NextTrack, 1),
        ("MediaPlayPause", MediaButton::PlayPause, 1),
        ("MediaPrevTrack", MediaButton::PrevTrack, 2),
        ("VolumeUp", MediaButton::VolumeUp, 5),
        ("VolumeDown", MediaButton::VolumeDown, 5),
        ("VolumeMute", MediaButton::VolumeMute, 1),
    ] {
        let call = call_fn("media_controls", &format!("{{\"media_button\": \"{}\"}}", name));
        assert!(
            matches!(call, Some(ToolCall::MediaControls { button: Some(b), name: n }) if b == button && n == name)
        );
        assert_eq!(presses(button), times);
    }
    assert!(matches!(
        call_fn("media_controls", "{\"media_button\": \"Eject\"}"),
        Some(ToolCall::MediaControls { button: None, name }) if name == "Eject"
    ));
    assert!(call_fn("media_controls", "{\"media_button\": 1}").is_none());
}

#[test]
fn volume_is_from_0_to_100() {
    let asked = |n: &str| match call_fn("set_volume", &format!("{{\"volume\": {}}}", n)) {
        Some(ToolCall::SetVolume(volume)) => volume,
        _ => panic!("{}", n),
    };
    for n in 0..=100u32 {
        assert_eq!(asked(&n.to_string()), Some(n));
    }
    for n in [
        "101", "4294967297", "4294967346", "18446744073709551615", "18446744073709551616", "-1",
        "-9223372036854775808", "-9223372036854775809",
    ] {
        assert_eq!(asked(n), None, "{}", n);
    }
    for n in ["\"30\"", "30.5", "-0.5", "null"] {
        assert_eq!(asked(n), Some(0), "{}", n);
    }
    assert!(matches!(call_fn("set_volume", "{}"), Some(ToolCall::SetVolume(Some(0)))));
    assert!(call_fn("set_volume", "{").is_none());
    assert_eq!(volume_answer(Some(30), &Some(Ok(()))), "Volume set to 30");
    assert_eq!(
        volume_answer(Some(30), &Some(Err("x".to_string()))),
        "Failed to set volume: x"
    );
    assert_eq!(
        volume_answer(None, &Some(Err("x".to_string()))),
        "Failed to set volume: Volume must be between 0 and 100"
    );
    assert_eq!(
        volume_answer(None, &Some(Ok(()))),
        "Failed to set volume: Volume must be between 0 and 100"
    );
    assert_eq!(volume_answer(Some(30), &None), "set_volume is only supported on Windows");
    assert_eq!(volume_answer(None, &None), "set_volume is only supported on Windows");
}

#[test]
fn applications_are_opened_by_typing() {
    assert!(matches!(
        call_fn("open_application", "{\"application\": \"Paint\"}"),
        Some(ToolCall::OpenApplication(name)) if name == "Paint"
    ));
    let steps = open_application("Paint");
    assert_eq!(steps.len(), 5);
    assert!(matches!(steps[0], KeyStep::Meta));
    assert!(matches!(steps[1], KeyStep::Pause(500)));
    assert!(matches!(&steps[2], KeyStep::Type(name) if name == "Paint"));
    assert!(matches!(steps[3], KeyStep::Pause(500)));
    assert!(matches!(steps[4], KeyStep::Return));
}

#[test]
fn pages_are_opened() {
    assert!(matches!(call_fn("open_logs_folder", ""), Some(ToolCall::OpenLogsFolder)));
    assert!(matches!(call_fn("open_openai_billing", "x"), Some(ToolCall::OpenOpenaiBilling)));
    assert!(matches!(call_fn("open_assistance_repo", "{}"), Some(ToolCall::OpenAssistanceRepo)));
    assert_eq!(page_address(Page::LogsFolder), None);
    assert_eq!(page_address(Page::OpenaiBilling), Some("https://platform.openai.com/usage"));
    assert_eq!(
        page_address(Page::AssistanceRepo),
        Some("https://github.com/sloganking/quick-assistant")
    );
    let e = Some("x".to_string());
    assert_eq!(page_answer(Page::LogsFolder, &None), None);
    assert_eq!(
        page_answer(Page::LogsFolder, &e),
        Some("Showing logs folder failed with: x".to_string())
    );
    assert_eq!(
        page_answer(Page::OpenaiBilling, &e),
        Some("Failed to open OpenAI billing page: x".to_string())
    );
    assert_eq!(
        page_answer(Page::AssistanceRepo, &e),
        Some("Failed to open AI Assistance repository: x".to_string())
    );
}

#[test]
fn protected_is_not_killed() {
    for name in ["System", "System Idle Process", "explorer.exe", "lsass.exe", "igfxTray.exe"] {
        assert!(is_protected(name));
        let call = call_fn("kill_processes_with_name", &format!("{{\"process_name\": \"{}\"}}", name));
        assert!(matches!(call, Some(ToolCall::Answer(answer)) if answer == format!(
            "Cannot kill critical system process: \"{}\" as it is on the blacklist. Inform the user that it's on the blacklist and cannot be killed. ",
            name
        )));
    }
    assert!(!is_protected("Explorer.exe"));
    assert!(matches!(
        tool_call("kill_processes_with_name", text("notepad.exe")),
        Some(ToolCall::KillProcessesWithName(name)) if name == "notepad.exe"
    ));
    assert_eq!(kill_answer("a.exe", Some(())), "Killed all processes with name: \"a.exe\"");
    assert_eq!(kill_answer("a.exe", None), "Failed to kill all processes with name: a.exe");
}

#[test]
fn calls_without_arguments() {
    assert!(matches!(call_fn("sysinfo", ""), Some(ToolCall::Sysinfo)));
    assert!(matches!(call_fn("get_system_processes", ""), Some(ToolCall::GetSystemProcesses)));
    assert!(matches!(call_fn("speedtest", ""), Some(ToolCall::Speedtest)));
    assert!(matches!(call_fn("get_location", ""), Some(ToolCall::GetLocation)));
    assert!(matches!(call_fn("check_on_timers", ""), Some(ToolCall::CheckOnTimers)));
    assert!(matches!(call_fn("show_live_log_stream", ""), Some(ToolCall::ShowLiveLogStream)));
    assert!(matches!(call_fn("get_speech_speed", ""), Some(ToolCall::GetSpeechSpeed)));
    assert!(matches!(call_fn("mute_speech", ""), Some(ToolCall::MuteSpeech)));
    assert!(matches!(call_fn("unmute_speech", ""), Some(ToolCall::UnmuteSpeech)));
    assert!(matches!(call_fn("get_voice", ""), Some(ToolCall::GetVoice)));
    assert!(matches!(call_fn("list_output_devices", ""), Some(ToolCall::ListOutputDevices)));
    assert!(matches!(call_fn("make_tea", "{}"), Some(ToolCall::Unknown)));
    assert!(matches!(call_fn("", ""), Some(ToolCall::Unknown)));
}

#[test]
fn timers_are_asked_for() {
    assert!(matches!(
        call_fn("set_timer_at", "{\"time\": \"soon\", \"description\": \"tea\"}"),
        Some(ToolCall::SetTimerAt { time, description }) if time == "soon" && description == "tea"
    ));
    assert!(matches!(
        call_fn("set_timer_at", "{\"time\": \"soon\", \"description\": 1}"),
        Some(ToolCall::SetTimerAt { time, description }) if time == "soon" && description.is_empty()
    ));
    assert!(call_fn("set_timer_at", "{\"description\": \"tea\"}").is_none());
    assert!(matches!(
        call_fn("delete_timer_by_id", "{\"timer_id\": 18446744073709551615}"),
        Some(ToolCall::DeleteTimerById(18446744073709551615))
    ));
    assert!(call_fn("delete_timer_by_id", "{\"timer_id\": -1}").is_none());
    assert!(call_fn("delete_timer_by_id", "{\"timer_id\": \"1\"}").is_none());
}

#[test]
fn clipboard_calls_are_always_answered() {
    assert!(matches!(
        call_fn("set_clipboard", "{\"clipboard_text\": \"a \\u00e9\"}"),
        Some(ToolCall::SetClipboard(t)) if t == "a é"
    ));
    assert!(matches!(
        call_fn("set_clipboard", "{}"),
        Some(ToolCall::Answer(a)) if a == "Missing 'clipboard_text' argument."
    ));
    assert!(matches!(
        call_fn("set_clipboard", "{"),
        Some(ToolCall::Answer(a)) if a == "Failed to parse arguments: EOF while parsing an object at line 1 column 1"
    ));
    assert_eq!(clipboard_answer(&ClipboardOutcome::Changed), "Clipboard set successfully.");
    assert_eq!(
        clipboard_answer(&ClipboardOutcome::NotOpened("x".to_string())),
        "Failed to initialize clipboard: x"
    );
    assert_eq!(
        clipboard_answer(&ClipboardOutcome::NotSet("x".to_string())),
        "Failed to set clipboard contents: x"
    );
}

#[test]
fn missing_arguments_are_told() {
    for (name, answer) in [
        ("set_speech_speed", "Missing 'speed' argument"),
        ("set_voice", "Missing 'voice' argument"),
        ("set_output_device", "Missing 'device_name' argument"),
    ] {
        assert!(matches!(call_fn(name, "{}"), Some(ToolCall::Answer(a)) if a == answer));
        assert!(call_fn(name, "not json").is_none());
    }
    assert!(matches!(
        call_fn("set_voice", "{\"voice\": \"Nova\"}"),
        Some(ToolCall::SetVoice(v)) if v == "Nova"
    ));
}

#[test]
fn bad_arguments_are_not_acted_on() {
    for name in ["set_screen_brightness", "media_controls", "open_application", "kill_processes_with_name", "set_timer_at", "set_voice", "set_output_device", "set_volume", "delete_timer_by_id", "set_speech_speed"] {
        let a = Arguments {
            error: Some("bad".to_string()),
            text: Some("1".to_string()),
            description: None,
            unsigned: Some(1),
            number: Some("1".to_string()),
        };
        assert!(tool_call(name, a).is_none(), "{}", name);
    }
}

#[test]
fn speed_is_read_as_it_is_printed() {
    for (args, shown) in [
        ("{\"speed\": 1.5}", "1.5"),
        ("{\"speed\": 2}", "2"),
        ("{\"speed\": 1e2}", "100.0"),
        ("{\"speed\": -3}", "-3"),
    ] {
        assert!(
            matches!(call_fn("set_speech_speed", args), Some(ToolCall::SetSpeechSpeed(n)) if n == shown)
        );
    }
}

#[test]
fn speech_speed_has_limits() {
    for speed in [0.0f32, 0.49999997, 0.5, 1.0, 99.99999, 100.0, 100.00001, -1.0, -0.0, f32::NAN, f32::INFINITY, f32::NEG_INFINITY, f32::MIN_POSITIVE] {
        assert_eq!(is_speech_speed(speed.to_bits()), speed >= 0.5 && speed <= 100.0, "{}", speed);
    }
    let mut speech = SpeakStream::new(Voice::Echo, 1.0f32.to_bits());
    assert_eq!(
        set_speech_speed(&mut speech, 2.5f32.to_bits(), "2.5"),
        "Speech speed set to 2.5"
    );
    assert_eq!(speech.get_speech_speed(), 2.5f32.to_bits());
    assert_eq!(
        set_speech_speed(&mut speech, 0.25f32.to_bits(), "0.25"),
        "Speed must be between 0.5 and 100.0"
    );
    assert_eq!(speech.get_speech_speed(), 2.5f32.to_bits());
    assert_eq!(speech_speed_answer("2.5"), "Current speech speed is 2.5");
}

#[test]
fn voice_can_be_muted() {
    let mut speech = SpeakStream::new(Voice::Echo, 1.0f32.to_bits());
    assert_eq!(mute_speech(&mut speech), "AI voice muted");
    assert!(speech.is_muted());
    assert_eq!(unmute_speech(&mut speech), "AI voice unmuted");
    assert!(!speech.is_muted());
}

#[test]
fn output_device_is_chosen() {
    let mut selection = OutputSelection::new();
    assert_eq!(
        set_output_device(&mut selection, "Speakers"),
        "Output device set to Speakers"
    );
    assert_eq!(get_output_device(&selection), Some("Speakers".to_string()));
    assert_eq!(
        set_output_device(&mut selection, "Default Audio Output Device"),
        "Output device set to Default Audio Output Device"
    );
    assert_eq!(get_output_device(&selection), None);
    assert!(matches!(
        call_fn("set_output_device", "{\"device_name\": \"Speakers\"}"),
        Some(ToolCall::SetOutputDevice(name)) if name == "Speakers"
    ));
}

#[test]
fn output_devices_are_listed() {
    let devices = vec!["Speakers".to_string(), "HDMI".to_string(), "Headset".to_string()];
    assert_eq!(
        list_output_devices(devices, Some("Headset".to_string())),
        "Available Output Devices:\n* Default Audio Output Device\n* HDMI\n* Headset (Default)\n* Speakers\n"
    );
    assert_eq!(
        list_output_devices(vec!["Unknown".to_string()], None),
        "Available Output Devices:\n* Default Audio Output Device\n* Unknown (Default)\n"
    );
}

#[test]
fn other_answers() {
    assert_eq!(
        location_answer(&Ok(Ok("here".to_string()))),
        "Approximate location: here"
    );
    assert_eq!(location_answer(&Ok(Err("x".to_string()))), "Failed to get location: x");
    assert_eq!(location_answer(&Err("x".to_string())), "Failed to create runtime: x");
    assert_eq!(
        live_log_answer(&Some(Ok("y".to_string()))),
        "Successfully opened log file in powershell"
    );
    assert_eq!(
        live_log_answer(&Some(Err("x".to_string()))),
        "Failed to open log file in powershell: x"
    );
    assert_eq!(live_log_answer(&None), "No log files found");
    assert!(speedtest_started().starts_with("Speed test has been successfully started."));
}

#[test]
fn only_some_calls_are_answered() {
    let text = || "x".to_string();
    let when = |name: &str, args: &str| when_answered(&call_fn(name, args).unwrap());
    for (name, args) in [
        ("media_controls", "{\"media_button\": \"MediaStop\"}"),
        ("media_controls", "{\"media_button\": \"Eject\"}"),
        ("open_application", "{\"application\": \"a\"}"),
        ("speedtest", "{}"),
        ("make_tea", "{}"),
    ] {
        assert_eq!(when(name, args), Answering::Never, "{}", name);
    }
    for name in ["open_logs_folder", "open_openai_billing", "open_assistance_repo"] {
        assert_eq!(when(name, "{}"), Answering::IfFailed, "{}", name);
    }
    for name in ["sysinfo", "get_voice", "set_clipboard", "set_volume", "check_on_timers"] {
        assert_eq!(when(name, "{}"), Answering::Always, "{}", name);
    }
    assert_eq!(call_answer(Answering::Never, Ok(text())), None);
    assert_eq!(call_answer(Answering::Never, Err(text())), None);
    assert_eq!(call_answer(Answering::IfFailed, Ok(text())), None);
    assert_eq!(call_answer(Answering::IfFailed, Err(text())), Some(text()));
    assert_eq!(call_answer(Answering::Always, Ok(text())), Some(text()));
    assert_eq!(call_answer(Answering::Always, Err(text())), Some(text()));
}
