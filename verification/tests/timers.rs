use chrono::{Duration, Local};
use quick_assistant::clock::Timestamp;
use quick_assistant::timers::{
    check_on_timers, check_on_timers_now, check_stopwatch, check_timers, check_timers_now,
    delete_timer, describe_time_left, get_timers,
    load_timers, reset_stopwatch, save_timers, set_timer, start_stopwatch, stop_stopwatch,
    AlarmStep, AudibleTimers, LoadError, Stopwatch, TimerStore,
};
use quick_assistant::tools;

const SECOND: u128 = 1_000_000_000;
const MILLISECOND: u128 = 1_000_000;

fn at(seconds: i64) -> Timestamp {
    Timestamp::new(seconds, 0, 0).unwrap()
}

#[test]
fn set_get_delete_timer() {
    let mut store = TimerStore::new();

    // Ensure no timers initially
    assert!(get_timers(&store).is_empty());

    let now = Local::now() + Duration::seconds(1);
    let t = Timestamp::new(
        now.timestamp(),
        now.timestamp_subsec_nanos(),
        now.offset().local_minus_utc(),
    )
    .unwrap();
    set_timer(&mut store, "test".to_string(), t);

    let timers = get_timers(&store);
    assert_eq!(timers.len(), 1);
    assert_eq!(timers[0].1, "test");

    delete_timer(&mut store, timers[0].0).unwrap();
    assert!(get_timers(&store).is_empty());
}

#[test]
fn test_stopwatch_basic_operations() {
    let mut sw = Stopwatch { started: None, recorded: 0 };
    let mut now = 5 * SECOND;

    // Reset stopwatch to ensure clean state
    reset_stopwatch(&mut sw);

    // Give it a moment to settle
    now += 10 * MILLISECOND;

    // Check initial state (after reset it's zero but not started)
    let result = check_stopwatch(&sw, now);
    assert!(
        result.contains("not been started") || result.contains("Elapsed time: 0s"),
        "Got: {}",
        result
    );

    // Start the stopwatch
    let result = start_stopwatch(&mut sw, now);
    assert!(
        result.contains("started") || result.contains("resumed"),
        "Got: {}",
        result
    );

    // Starting again should indicate it's already running
    let result = start_stopwatch(&mut sw, now);
    assert!(result.contains("already running"), "Got: {}", result);

    // Sleep for a bit
    now += 100 * MILLISECOND;

    // Check while running
    let result = check_stopwatch(&sw, now);
    assert!(result.contains("running"), "Got: {}", result);

    // Stop the stopwatch
    let result = stop_stopwatch(&mut sw, now);
    assert!(
        result.contains("stopped") || result.contains("Total elapsed time"),
        "Got: {}",
        result
    );

    // Reset the stopwatch
    let result = reset_stopwatch(&mut sw);
    assert!(result.contains("reset"), "Got: {}", result);

    // Check after reset
    let result = check_stopwatch(&sw, now);
    assert!(
        result.contains("not been started") || result.contains("Elapsed time: 0s"),
        "Got: {}",
        result
    );
}

#[test]
fn test_stopwatch_pause_resume() {
    let mut sw = Stopwatch { started: None, recorded: 0 };
    let mut now = 0;
    reset_stopwatch(&mut sw);

    // Start stopwatch
    start_stopwatch(&mut sw, now);
    now += 50 * MILLISECOND;

    // Stop (pause)
    stop_stopwatch(&mut sw, now);

    // Sleep while paused
    now += 50 * MILLISECOND;

    // Resume (after stopping, starting again should say resumed)
    let result = start_stopwatch(&mut sw, now);
    assert!(
        result.contains("resumed") || result.contains("started"),
        "Got: {}",
        result
    );

    // Check elapsed time
    let result = check_stopwatch(&sw, now);
    assert!(
        result.contains("running") || result.contains("Elapsed time"),
        "Got: {}",
        result
    );

    // Clean up
    reset_stopwatch(&mut sw);
}

#[test]
fn paused_time_is_not_counted() {
    let mut sw = Stopwatch { started: None, recorded: 0 };
    start_stopwatch(&mut sw, 0);
    stop_stopwatch(&mut sw, 2 * SECOND);
    start_stopwatch(&mut sw, 100 * SECOND);
    assert_eq!(
        check_stopwatch(&sw, 101 * SECOND),
        "Stopwatch is running. Elapsed time: 3s"
    );
    assert_eq!(
        stop_stopwatch(&mut sw, 101 * SECOND + 5 * MILLISECOND),
        "Stopwatch stopped. Total elapsed time: 3s 5ms"
    );
}

#[test]
fn short_runs_are_told() {
    let mut sw = Stopwatch { started: None, recorded: 0 };
    assert_eq!(check_stopwatch(&sw, 0), "Stopwatch has not been started yet.");
    assert_eq!(
        stop_stopwatch(&mut sw, 0),
        "Stopwatch is not running and has no recorded time."
    );
    assert_eq!(start_stopwatch(&mut sw, 0), "Stopwatch started.");
    assert_eq!(
        stop_stopwatch(&mut sw, 500 * MILLISECOND),
        "Stopwatch stopped. Total elapsed time: 500ms"
    );
    assert_eq!(
        check_stopwatch(&sw, 7 * SECOND),
        "Stopwatch is stopped. Elapsed time: 500ms"
    );
    assert_eq!(
        stop_stopwatch(&mut sw, 8 * SECOND),
        "Stopwatch is already stopped. Total elapsed time: 500ms"
    );
    assert_eq!(start_stopwatch(&mut sw, 9 * SECOND), "Stopwatch resumed.");
    assert_eq!(
        check_stopwatch(&sw, 9 * SECOND + 1),
        "Stopwatch is running. Elapsed time: 500ms 1ns"
    );
}

#[test]
fn unusual_times_read_back() {
    let seconds = [
        0, -1, 59, 253_402_300_799, 253_402_300_800, -62_167_219_200, -62_167_219_201,
        8_210_266_876_799, -8_334_601_228_800, 8_210_266_876_799 - 86_340, -8_334_601_228_800 + 86_340,
    ];
    let offsets = [0, 60, -60, 3_600, -28_800, 20_700, 86_340, -86_340];
    let nanos = [0, 1, 1_000, 120_000_000, 999_999_999, 1_000_000_000, 1_999_999_999];
    for s in seconds {
        for offset in offsets {
            let local: i64 = s + offset as i64;
            if local < -8_334_601_228_800 || local > 8_210_266_876_799 {
                continue;
            }
            for n in nanos {
                let t = match Timestamp::new(s, n, offset) {
                    Some(t) => t,
                    None => continue,
                };
                let mut store = TimerStore::new();
                let file = set_timer(&mut store, "x".to_string(), t);
                let read = load_timers(file.as_bytes()).ok().expect(&file);
                let timers = get_timers(&read);
                assert_eq!(timers.len(), 1);
                assert_eq!((timers[0].2.seconds, timers[0].2.nanos), (s, n), "{}", file);
                let text = file.trim().rsplit(',').next().unwrap();
                let (set, _) = tools::set_timer_at(&mut store, text, String::new()).unwrap();
                assert_eq!((set.seconds, set.nanos), (s, n), "{}", text);
            }
        }
    }
    let mut store = TimerStore::new();
    let leap = Timestamp::new(59, 1_500_000_000, 0).unwrap();
    assert!(set_timer(&mut store, String::new(), leap).contains("1970-01-01T00:00:60.500+00:00"));
    let far = Timestamp::new(253_402_300_800, 0, 0).unwrap();
    assert!(set_timer(&mut store, String::new(), far).contains("+10000-01-01T00:00:00+00:00"));
}

#[test]
fn file_can_give_an_id_twice() {
    let time = "2024-12-04T00:44:00-08:00";
    let file = format!("id,description,timestamp\n4,a,{}\n4,b,{}\n", time, time);
    let mut store = load_timers(file.as_bytes()).ok().unwrap();
    set_timer(&mut store, "c".to_string(), at(0));
    let ids: Vec<u64> = get_timers(&store).iter().map(|t| t.0).collect();
    assert_eq!(ids, vec![4, 4, 5]);
    delete_timer(&mut store, 4).unwrap();
    assert_eq!(get_timers(&store).len(), 1);
    let empty = load_timers(b"id,description,timestamp\n").ok().unwrap();
    let mut empty = empty;
    set_timer(&mut empty, String::new(), at(0));
    assert_eq!(get_timers(&empty)[0].0, 1);
}

#[test]
fn ids_stay_distinct() {
    let mut store = TimerStore::new();
    for i in 0..6 {
        set_timer(&mut store, String::new(), at(i));
    }
    check_timers(&mut store, &at(1));
    delete_timer(&mut store, 4).unwrap();
    set_timer(&mut store, String::new(), at(0));
    let mut again = load_timers(save_timers(&store).as_bytes()).ok().unwrap();
    set_timer(&mut again, String::new(), at(0));
    let ids: Vec<u64> = get_timers(&again).iter().map(|t| t.0).collect();
    assert_eq!(ids, vec![3, 5, 6, 7, 8]);
}

#[test]
fn ids_are_not_used_twice() {
    let mut store = TimerStore::new();
    for i in 0..5 {
        set_timer(&mut store, format!("timer {}", i), at(i));
    }
    delete_timer(&mut store, 5).unwrap();
    set_timer(&mut store, "later".to_string(), at(9));
    let ids: Vec<u64> = get_timers(&store).iter().map(|t| t.0).collect();
    assert_eq!(ids, vec![1, 2, 3, 4, 6]);
}

#[test]
fn missing_timer_is_not_deleted() {
    let mut store = TimerStore::new();
    set_timer(&mut store, "one".to_string(), at(1));
    assert_eq!(
        delete_timer(&mut store, 17).unwrap_err(),
        "Timer with ID 17 not found"
    );
    assert_eq!(get_timers(&store).len(), 1);
}

#[test]
fn timers_file_reads_back() {
    let mut store = TimerStore::new();
    let descriptions = ["plain", "", "a,b", "say \"hi\"", "two\nlines", "ünï", " spaced "];
    for (i, d) in descriptions.iter().enumerate() {
        let t = Timestamp::new(1_733_300_000 + i as i64, 123_456_789, 3600).unwrap();
        set_timer(&mut store, d.to_string(), t);
    }
    let file = save_timers(&store);
    assert!(file.starts_with("id,description,timestamp\n"));
    let read = load_timers(file.as_bytes()).ok().unwrap();
    let timers = get_timers(&read);
    assert_eq!(timers.len(), descriptions.len());
    for (i, d) in descriptions.iter().enumerate() {
        assert_eq!(timers[i].0, i as u64 + 1);
        assert_eq!(&timers[i].1, d);
        assert_eq!(timers[i].2.seconds, 1_733_300_000 + i as i64);
        assert_eq!(timers[i].2.nanos, 123_456_789);
    }
    let mut again = read;
    set_timer(&mut again, "next".to_string(), at(0));
    assert_eq!(get_timers(&again).last().unwrap().0, descriptions.len() as u64 + 1);
}

#[test]
fn timers_file_is_written_as_a_table() {
    let mut store = TimerStore::new();
    let t = Timestamp::new(1_733_300_640, 0, -28_800).unwrap();
    let file = set_timer(&mut store, "say \"hi\", now".to_string(), t);
    assert_eq!(
        file,
        "id,description,timestamp\n1,\"say \"\"hi\"\", now\",2024-12-04T00:24:00-08:00\n"
    );
}

#[test]
fn broken_timers_files_are_refused() {
    let head = "id,description,timestamp\n";
    let time = "2024-12-04T00:44:00-08:00";
    let read = |body: &str| load_timers(format!("{}{}", head, body).as_bytes());
    assert!(matches!(read(""), Ok(_)));
    assert!(matches!(read(&format!("x,a,{}\n", time)), Err(LoadError::Id)));
    assert!(matches!(read("1,a,yesterday\n"), Err(LoadError::Time(_))));
    assert!(matches!(read("1,a\n"), Err(LoadError::Row(_))));
    assert!(matches!(
        read(&format!("{},a,{}\n", u64::MAX, time)),
        Err(LoadError::NoFreeId)
    ));
    assert!(matches!(load_timers(b"id\n1\n"), Err(LoadError::MissingField)));
}

#[test]
fn check_splits() {
    let mut store = TimerStore::new();
    for s in [10, 30, 20, 40] {
        set_timer(&mut store, format!("at {}", s), at(s));
    }
    let (expired, file) = check_timers(&mut store, &at(20));
    let names: Vec<String> = expired.iter().map(|t| t.description.clone()).collect();
    assert_eq!(names, vec!["at 10", "at 20"]);
    assert_eq!(file, Some(save_timers(&store)));
    let left: Vec<String> = get_timers(&store).into_iter().map(|t| t.1).collect();
    assert_eq!(left, vec!["at 30", "at 40"]);
    let (none, unchanged) = check_timers(&mut store, &at(29));
    assert!(none.is_empty());
    assert_eq!(unchanged, None);
}

#[test]
fn report_tells_all_timers() {
    let mut store = TimerStore::new();
    set_timer(&mut store, "tea".to_string(), at(90));
    set_timer(&mut store, "late".to_string(), at(5));
    assert_eq!(
        check_on_timers(&store, &at(10)),
        "=== Timers ===\n\
Timer_ID: \"1\" Timer_description: \"tea\" goes off at time: \"1970-01-01T00:01:30+00:00\" which is \"1m 20s\" from now.\n\
Timer_ID: \"2\" Timer_description: \"late\" goes off at time: \"1970-01-01T00:00:05+00:00\" which is \"0s\" from now.\n"
    );
}

#[test]
fn time_left_is_in_whole_seconds() {
    let now = Timestamp::new(0, 500_000_000, 0).unwrap();
    assert_eq!(describe_time_left(&now, &at(3)), "2s");
    assert_eq!(describe_time_left(&now, &at(90_061)), "1day 1h 1m");
    assert_eq!(describe_time_left(&at(3), &now), "0s");
}

#[test]
fn leap_seconds_are_counted() {
    let time = |seconds: i64, nanos: u32| Timestamp::new(seconds, nanos, 0).unwrap();
    // What lies within a leap second is past once the next second has come.
    assert_eq!(describe_time_left(&at(60), &time(59, 1_500_000_000)), "0s");
    assert_eq!(describe_time_left(&at(86_400), &time(86_399, 1_999_999_999)), "0s");
    assert_eq!(describe_time_left(&time(59, 1_999_999_999), &time(59, 0)), "0s");
    assert_eq!(describe_time_left(&at(59), &time(59, 1_000_000_000)), "1s");
    assert_eq!(describe_time_left(&at(59), &time(59, 1_999_999_999)), "1s");
    assert_eq!(describe_time_left(&time(59, 1_000_000_000), &at(60)), "1s");
    assert_eq!(describe_time_left(&time(59, 1_500_000_000), &at(62)), "2s");
    assert_eq!(describe_time_left(&time(59, 1_000_000_000), &time(119, 1_000_000_000)), "1m 1s");
    assert_eq!(describe_time_left(&time(86_399, 1_000_000_000), &at(86_401)), "1s");
}

#[test]
fn two_runs_add_up() {
    let mut sw = Stopwatch { started: None, recorded: 7 };
    reset_stopwatch(&mut sw);
    start_stopwatch(&mut sw, 10 * SECOND);
    stop_stopwatch(&mut sw, 12 * SECOND);
    assert_eq!(check_stopwatch(&sw, 30 * SECOND), "Stopwatch is stopped. Elapsed time: 2s");
    start_stopwatch(&mut sw, 40 * SECOND);
    check_stopwatch(&sw, 41 * SECOND);
    assert_eq!(
        stop_stopwatch(&mut sw, 45 * SECOND),
        "Stopwatch stopped. Total elapsed time: 7s"
    );
    assert_eq!(sw.recorded, 7 * SECOND);
}

#[test]
fn timers_are_set_by_text() {
    let mut store = TimerStore::new();
    let text = "2024-12-04T00:44:00-08:00";
    let (t, file) =
        tools::set_timer_at(&mut store, text, "wake".to_string()).expect("time should parse");
    assert_eq!(t.seconds, 1_733_301_840);
    assert_eq!(file, save_timers(&store));
    assert_eq!(get_timers(&store).len(), 1);
    let now = Timestamp::new(1_733_301_840 - 61, 0, 0).unwrap();
    assert_eq!(
        tools::timer_answer(text, &t, &now, &None),
        "Successfully set timer to go off at: \"2024-12-04T00:44:00-08:00\" which is \"1m 1s\" from now."
    );
    assert_eq!(
        tools::timer_answer(text, &t, &now, &Some("disk full".to_string())),
        "Setting timer failed with error: disk full"
    );
    let refused = tools::set_timer_at(&mut store, "soon", String::new()).unwrap_err();
    assert!(refused.starts_with("Setting timer failed. Please enter valid rfc_3339: "));
    assert!(refused.len() > "Setting timer failed. Please enter valid rfc_3339: ".len());
    assert_eq!(get_timers(&store).len(), 1);
}

#[test]
fn deleted_timers_are_told() {
    assert_eq!(
        tools::timer_deleted_answer(3, &None),
        "Successfully deleted timer with ID: 3"
    );
    assert_eq!(
        tools::timer_deleted_answer(3, &Some("gone".to_string())),
        "Failed to delete timer with ID: 3. Error: gone"
    );
}

#[test]
fn calendar_has_an_end() {
    assert!(Timestamp::new(8_210_266_876_799, 0, 0).is_some());
    assert!(Timestamp::new(8_210_266_876_800, 0, 0).is_none());
    assert!(Timestamp::new(-8_334_601_228_800, 0, 0).is_some());
    assert!(Timestamp::new(-8_334_601_228_801, 0, 0).is_none());
    assert!(Timestamp::new(59, 1_500_000_000, 0).is_some());
    assert!(Timestamp::new(58, 1_500_000_000, 0).is_none());
    assert!(Timestamp::new(0, 0, 86_400).is_none());
    // Every one of these can be shown.
    for seconds in [8_210_266_876_799, -8_334_601_228_800] {
        let mut store = TimerStore::new();
        let t = Timestamp::new(seconds, 0, 0).unwrap();
        assert!(set_timer(&mut store, String::new(), t).len() > 30);
    }
}

#[test]
fn alarm_rings_until_it_is_stopped() {
    let mut store = TimerStore::new();
    set_timer(&mut store, "tea".to_string(), at(1));
    let mut alarm = AudibleTimers::new();
    alarm.start_round();
    let (expired, _) = check_timers(&mut store, &at(2));
    let (told, warning) = alarm.timers_checked(Ok(expired));
    assert_eq!(told.len(), 1);
    assert_eq!(warning, None);
    assert!(alarm.ringing);
    alarm.sound_opened(true);
    assert!(matches!(alarm.poll(false), AlarmStep::Wait));
    assert!(matches!(alarm.poll(true), AlarmStep::PlayAgain));
    alarm.stop_alarm();
    assert!(matches!(alarm.poll(true), AlarmStep::Silence));
    assert!(!alarm.ringing);
}

#[test]
fn alarm_errors_are_told_once() {
    let mut alarm = AudibleTimers::new();
    let (none, first) = alarm.timers_checked(Err("no file".to_string()));
    assert!(none.is_empty());
    assert_eq!(first, Some("Error checking timers: no file".to_string()));
    let (_, second) = alarm.timers_checked(Err("no file".to_string()));
    assert_eq!(second, None);
    alarm.timers_checked(Ok(Vec::new()));
    let (_, third) = alarm.timers_checked(Err("again".to_string()));
    assert_eq!(third, Some("Error checking timers: again".to_string()));
}

#[test]
fn present_is_read_off_the_clock() {
    let mut store = TimerStore::new();
    let now = Local::now().timestamp();
    set_timer(&mut store, "past".to_string(), at(now - 1));
    set_timer(&mut store, "future".to_string(), at(now + 1000));
    let report = check_on_timers_now(&store);
    assert!(report.contains("\"past\"") && report.contains("which is \"0s\" from now."));
    assert!(report.contains("which is \"16m "));
    let (expired, file) = check_timers_now(&mut store);
    assert_eq!(expired.len(), 1);
    assert_eq!(expired[0].description, "past");
    assert_eq!(file, Some(save_timers(&store)));
    let answer = tools::timer_answer_now("then", &at(now + 1000), &None);
    assert!(answer.starts_with(
        "Successfully set timer to go off at: \"then\" which is \"16m "
    ));
    assert_eq!(
        tools::timer_answer_now("then", &at(now), &Some("x".to_string())),
        "Setting timer failed with error: x"
    );
}
