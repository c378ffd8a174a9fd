use quick_assistant::programs::{
    adjust_audio_file_speed, convert_clipboard_file, convert_with_ffmpeg, converted,
    converted_file_name, new_converted_file_name, get_currently_active_log_file, live_log_opened, move_audio_to_mp3,
    moved_to_mp3, mp3_move, needs_mp3, run_get_content_wait_on_file, speed_adjusted, speedtest,
    speedtest_report, turn_text_to_speech, Attempt, Moved, ProgramOutput, RunOutcome, SpeechStep,
    NORMAL_SPEED,
};
use quick_assistant::system_report::{
    get_location, get_process_names, get_system_info, get_system_processes,
    kill_processes_with_name, processes_to_kill, set_screen_brightness, Location, LocationFailure,
    ProcessSnapshot, SystemSnapshot, Traffic,
};
use quick_assistant::windows_focus::{bring_terminal_to_front, should_bring_to_front};
use quick_assistant::windows_volume::{check_volume, get_volume, set_volume};

fn some(s: &str) -> Option<String> {
    Some(s.to_string())
}

fn list(v: &[&str]) -> Vec<String> {
    v.iter().map(|s| s.to_string()).collect()
}

#[test]
fn call_bring_terminal_to_front() {
    // The function should simply run without panicking on all platforms.
    bring_terminal_to_front();
}

#[test]
fn editor_terminals_stay_where_they_are() {
    assert!(should_bring_to_front(&None));
    assert!(should_bring_to_front(&some("xterm")));
    assert!(!should_bring_to_front(&some("vscode")));
    assert!(!should_bring_to_front(&some("My VSCode Terminal")));
}

#[test]
fn volume_is_only_there_on_windows() {
    assert_eq!(set_volume(10), Err("set_volume is only supported on Windows".to_string()));
    assert_eq!(get_volume(), Err("get_volume is only supported on Windows".to_string()));
    assert_eq!(check_volume(Some(0)), Ok(0));
    assert_eq!(check_volume(Some(100)), Ok(100));
    assert_eq!(check_volume(Some(101)), Err("Volume must be between 0 and 100".to_string()));
    assert_eq!(check_volume(None), Err("Volume must be between 0 and 100".to_string()));
}

#[test]
fn convert_with_ffmpeg_fails_if_ffmpeg_returns_error() {
    let output = converted_file_name("1234", "mp3");
    assert_eq!(output, "converted-1234.mp3");
    let args = convert_with_ffmpeg(some("in.wav"), Some(output)).unwrap();
    assert_eq!(args, list(&["-y", "-i", "in.wav", "converted-1234.mp3"]));
    let res = converted(RunOutcome::Unsuccessful);
    assert_eq!(res, some("ffmpeg failed to convert file"));
}

#[test]
fn move_audio_to_mp3_fails_if_ffmpeg_returns_error() {
    let to_mp3 = move_audio_to_mp3(some("in.wav"), some("out.mp3")).ok().unwrap();
    assert_eq!(to_mp3.args, list(&["-i", "in.wav", "-q:a", "0", "-map", "a", "out.mp3"]));
    let res = moved_to_mp3(to_mp3.path, RunOutcome::Unsuccessful);
    assert!(matches!(res, Moved::Failed(e) if e == "ffmpeg failed to convert audio"));
}

#[test]
fn outcomes_of_ffmpeg() {
    assert_eq!(converted(RunOutcome::Succeeded), None);
    assert_eq!(converted(RunOutcome::NotFound), some("Failed to execute ffmpeg"));
    assert_eq!(converted(RunOutcome::NotRun), some("Failed to execute ffmpeg"));
    let path = || "out.mp3".to_string();
    assert!(matches!(moved_to_mp3(path(), RunOutcome::Succeeded), Moved::Done(p) if p == "out.mp3"));
    assert!(matches!(moved_to_mp3(path(), RunOutcome::NotFound), Moved::Fatal(e) if e == "ffmpeg not found. Please install ffmpeg and add it to your PATH"));
    assert!(matches!(moved_to_mp3(path(), RunOutcome::NotRun), Moved::Failed(_)));
    assert_eq!(speed_adjusted(RunOutcome::Succeeded), None);
    assert_eq!(
        speed_adjusted(RunOutcome::NotFound),
        some("ffmpeg not found. Please install ffmpeg and add it to your PATH")
    );
    assert_eq!(
        speed_adjusted(RunOutcome::Unsuccessful),
        some("ffmpeg failed to adjust audio speed")
    );
    assert_eq!(
        convert_with_ffmpeg(None, None),
        Err("Failed to convert input path to string".to_string())
    );
    assert_eq!(
        move_audio_to_mp3(some("a"), None).err(),
        some("Failed to convert output path to string")
    );
    assert_eq!(
        move_audio_to_mp3(None, some("b")).err(),
        some("Failed to convert input path to string")
    );
    assert_eq!(
        convert_clipboard_file("mp3"),
        Err("convert_clipboard_file is only supported on Windows".to_string())
    );
    assert_eq!(
        adjust_audio_file_speed("a.mp3", "b.mp3", "1.5"),
        list(&["-y", "-i", "a.mp3", "-codec:a", "libmp3lame", "-b:a", "160k", "-filter:a", "atempo=1.5", "-vn", "b.mp3"])
    );
    assert!(needs_mp3(&some("wav")));
    assert!(needs_mp3(&None));
    assert!(!needs_mp3(&some("mp3")));
}

#[test]
fn speech_is_made_step_by_step() {
    let fast = 1.5f32.to_bits();
    let done = Attempt::Done;
    assert_eq!(f32::from_bits(NORMAL_SPEED), 1.0);
    assert_eq!(turn_text_to_speech(SpeechStep::Request, &done, fast), Ok(SpeechStep::Save));
    assert_eq!(turn_text_to_speech(SpeechStep::Save, &done, fast), Ok(SpeechStep::AdjustSpeed));
    assert_eq!(
        turn_text_to_speech(SpeechStep::Save, &done, NORMAL_SPEED),
        Ok(SpeechStep::Finished)
    );
    assert_eq!(
        turn_text_to_speech(SpeechStep::AdjustSpeed, &done, fast),
        Ok(SpeechStep::Finished)
    );
    let failed = Attempt::Failed("x".to_string());
    let late = Attempt::TimedOut("x".to_string());
    assert_eq!(
        turn_text_to_speech(SpeechStep::Request, &failed, fast),
        Err("Failed to turn text to speech: x".to_string())
    );
    assert_eq!(
        turn_text_to_speech(SpeechStep::Request, &late, fast),
        Err("Failed to turn text to speech due to timeout: x".to_string())
    );
    assert_eq!(
        turn_text_to_speech(SpeechStep::Save, &failed, fast),
        Err("Failed to save ai speech to file: x".to_string())
    );
    assert_eq!(
        turn_text_to_speech(SpeechStep::Save, &late, fast),
        Err("Failed to save ai speech to file due to timeout: x".to_string())
    );
}

#[test]
fn speed_tests_are_reported() {
    let found = speedtest(ProgramOutput::Wrote("fast".to_string()));
    assert_eq!(speedtest_report(&found), "Speedtest results: fast");
    let missing = speedtest(ProgramOutput::NotFound);
    assert!(speedtest_report(&missing).starts_with("Speedtest failed with error: speedtest-rs not found."));
    let broken = speedtest(ProgramOutput::NotRun("x".to_string()));
    assert_eq!(
        speedtest_report(&broken),
        "Speedtest failed with error: Failed to run speedtest-rs: x"
    );
}

#[test]
fn live_log_is_the_last_file() {
    assert_eq!(get_currently_active_log_file(&list(&[])), None);
    assert_eq!(
        get_currently_active_log_file(&list(&["2024-01-02.log", "2024-03-01.log", "2023-12-31.log"])),
        Some(1)
    );
    assert_eq!(
        run_get_content_wait_on_file(some("a b.log")).unwrap(),
        list(&["/C", "start", "powershell", "-NoExit", "-Command", "Get-Content", "\"a b.log\"", "-Wait"])
    );
    assert_eq!(
        run_get_content_wait_on_file(None),
        Err("Failed to convert file path to string".to_string())
    );
    assert_eq!(live_log_opened(&None), Ok("Successfully opened file in powershell".to_string()));
    assert_eq!(
        live_log_opened(&some("x")),
        Err("Failed to open file in powershell: x".to_string())
    );
}

#[test]
fn system_is_reported() {
    let s = SystemSnapshot {
        total_memory: 1024,
        used_memory: 512,
        total_swap: 0,
        used_swap: 0,
        name: some("Linux"),
        kernel_version: some("6.1 \"x\""),
        os_version: None,
        host_name: some("tab\there"),
        cpus: 8,
        disks: list(&["Disk(a)", "Disk(b)"]),
        networks: vec![Traffic { interface: "eth0".to_string(), received: 5, transmitted: 7 }],
        components: list(&["cpu 40C"]),
    };
    assert_eq!(
        get_system_info(&s),
        format!(
            "=> system:\ntotal memory: 1024 bytes\nused memory : 512 bytes\ntotal swap  : 0 bytes\nused swap   : 0 bytes\n\
System name:             {:?}\nSystem kernel version:   {:?}\nSystem OS version:       {:?}\nSystem host name:        {:?}\n\
NB CPUs: 8\n=> disks:\nDisk(a)\nDisk(b)\n=> networks:\neth0: 5 B (down) / 7 B (up)\n=> components:\ncpu 40C\n",
            s.name, s.kernel_version, s.os_version, s.host_name
        )
    );
    assert!(get_system_info(&s).contains("System name:             Some(\"Linux\")\n"));
    assert!(get_system_info(&s).contains("System OS version:       None\n"));
}

#[test]
fn processes_are_reported() {
    let p = |exe: Option<String>| ProcessSnapshot {
        pid: "12".to_string(),
        name: "\"init\"".to_string(),
        start_time: 100,
        run_time: 5,
        status: "Runnable".to_string(),
        cpu_usage: "0.5".to_string(),
        exe,
    };
    assert_eq!(
        get_system_processes(&vec![p(some("/sbin/init")), p(None)]),
        "=> processes:\n\
[12] \"init\" start_time: 100 runtime: 5 status: Runnable cpu_usage: 0.5 directory: /sbin/init\n\
[12] \"init\" start_time: 100 runtime: 5 status: Runnable cpu_usage: 0.5 directory: Unknown\n"
    );
}

#[test]
fn process_names_are_unique() {
    let names = list(&["b", "a", "b", "c", "a"]);
    assert_eq!(get_process_names(&names), list(&["b", "a", "c"]));
    assert_eq!(processes_to_kill(&names, "a"), vec![1, 4]);
    assert_eq!(processes_to_kill(&names, "d"), Vec::<usize>::new());
    assert_eq!(kill_processes_with_name("a", &names), None);
    assert_eq!(kill_processes_with_name("d", &names), Some(()));
}

#[test]
fn brightness_has_limits() {
    assert_eq!(set_screen_brightness(0), some("0"));
    assert_eq!(set_screen_brightness(100), some("100"));
    assert_eq!(set_screen_brightness(101), None);
}

#[test]
fn location_is_one_line() {
    let l = Location {
        city: some("Bern"),
        region: None,
        country: some("Switzerland"),
        lat: some("46.9"),
        lon: None,
    };
    assert_eq!(get_location(&Ok(l)), Ok("Bern, , Switzerland (46.9, 0)".to_string()));
    assert_eq!(
        get_location(&Err(LocationFailure::Request("x".to_string()))),
        Err("Request failed: x".to_string())
    );
    assert_eq!(
        get_location(&Err(LocationFailure::Response("x".to_string()))),
        Err("Failed to parse response: x".to_string())
    );
    assert_eq!(format!("{}", 0.0f64), "0");
}

#[test]
fn converted_files_have_random_names() {
    let name = new_converted_file_name("mp3");
    let unique = name.strip_prefix("converted-").unwrap().strip_suffix(".mp3").unwrap();
    let parsed = uuid::Uuid::parse_str(unique).unwrap();
    assert_eq!(parsed.get_version_num(), 4);
    assert_eq!(parsed.to_string(), unique);
    assert_ne!(new_converted_file_name("mp3"), name);
}

#[test]
fn extension_of_the_output_is_ignored() {
    for output in ["dir/out.wav", "dir/out.mp3", "dir/out.flac", "dir/out"] {
        let to_mp3 = move_audio_to_mp3(some("in.wav"), some(output)).ok().unwrap();
        assert_eq!(to_mp3.path, "dir/out.mp3");
        assert_eq!(
            to_mp3.args,
            list(&["-i", "in.wav", "-q:a", "0", "-map", "a", "dir/out.mp3"])
        );
        assert!(matches!(moved_to_mp3(to_mp3.path, RunOutcome::Succeeded), Moved::Done(p) if p == "dir/out.mp3"));
    }
    let to_mp3 = mp3_move("a".to_string(), "b".to_string());
    assert_eq!(to_mp3.path, "b");
    assert_eq!(to_mp3.args, list(&["-i", "a", "-q:a", "0", "-map", "a", "b"]));
}

#[test]
fn extensions_are_replaced_as_paths_do() {
    let moved = |path: &str| move_audio_to_mp3(some("in"), some(path)).ok().unwrap().path;
    for path in [
        "", ".", "..", "/", "/.", "./", "a.b/..", "a", "a.", ".a", ".a.b", "..a", "a.b", "a.b.c",
        "a.b/", "a.b/./", "a.b/c", "a.b/c.d", "/tmp/x.wav", "C:.wav", "\\\\s\\t.u", "ä.ö/ü.ß",
    ] {
        let mut expected = std::path::PathBuf::from(path);
        expected.set_extension("mp3");
        assert_eq!(moved(path), expected.to_str().unwrap(), "{:?}", path);
    }
    for (path, expected) in [
        ("a.b", "a.mp3"), ("a.b.c", "a.b.mp3"), (".a.b", ".a.mp3"), ("...b", "...mp3"),
        ("d.e/a.b", "d.e/a.mp3"), ("/d/a", "/d/a.mp3"), ("C:\\d\\a.b", "C:\\d\\a.mp3"),
        ("C:a.b", "C:a.mp3"), ("x\\y.z:w", "x\\y.mp3"),
    ] {
        assert_eq!(moved(path), expected);
    }
}
