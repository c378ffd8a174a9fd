//! The functions that the assistant can call, and what they answer.

use crate::clock;
use crate::clock::Timestamp;
use crate::default_device_sink;
use crate::default_device_sink::OutputSelection;
use crate::json;
use crate::programs;
use crate::speakstream::{SpeakStream, SpeakStreamView};
use crate::strings;
use crate::system_report;
use crate::text;
use crate::timers;
use crate::timers::{TimerStore, TimerView};
use crate::voice;
use vstd::prelude::*;

verus! {

// ---------------------------------------------------------------- buttons and keys

/// The buttons that control media.
#[derive(Clone, Copy, Debug, PartialEq, Eq, Structural)]
pub enum MediaButton {
    Stop,
    NextTrack,
    PlayPause,
    PrevTrack,
    VolumeUp,
    VolumeDown,
    VolumeMute,
}

/// The button with this name, if there is one.
pub open spec fn button_named(name: Seq<char>) -> Option<MediaButton> {
    if name == "MediaStop"@ {
        Some(MediaButton::Stop)
    } else if name == "MediaNextTrack"@ {
        Some(MediaButton::NextTrack)
    } else if name == "MediaPlayPause"@ {
        Some(MediaButton::PlayPause)
    } else if name == "MediaPrevTrack"@ {
        Some(MediaButton::PrevTrack)
    } else if name == "VolumeUp"@ {
        Some(MediaButton::VolumeUp)
    } else if name == "VolumeDown"@ {
        Some(MediaButton::VolumeDown)
    } else if name == "VolumeMute"@ {
        Some(MediaButton::VolumeMute)
    } else {
        None
    }
}

/// The button with this name, if there is one.
pub fn media_button(name: &str) -> (r: Option<MediaButton>)
    ensures
        r == button_named(name@),
{
    if strings::same_text(name, "MediaStop") {
        Some(MediaButton::Stop)
    } else if strings::same_text(name, "MediaNextTrack") {
        Some(MediaButton::NextTrack)
    } else if strings::same_text(name, "MediaPlayPause") {
        Some(MediaButton::PlayPause)
    } else if strings::same_text(name, "MediaPrevTrack") {
        Some(MediaButton::PrevTrack)
    } else if strings::same_text(name, "VolumeUp") {
        Some(MediaButton::VolumeUp)
    } else if strings::same_text(name, "VolumeDown") {
        Some(MediaButton::VolumeDown)
    } else if strings::same_text(name, "VolumeMute") {
        Some(MediaButton::VolumeMute)
    } else {
        None
    }
}

/// How often a button is pressed: twice for the previous track, as the first press
/// goes to the start of the current one, and five times for the volume.
pub fn presses(button: MediaButton) -> (r: u32)
    ensures
        r == (match button {
            MediaButton::PrevTrack => 2,
            MediaButton::VolumeUp | MediaButton::VolumeDown => 5,
            _ => 1int,
        }),
{
    match button {
        MediaButton::PrevTrack => 2,
        MediaButton::VolumeUp | MediaButton::VolumeDown => 5,
        _ => 1,
    }
}

/// Something that is done at the keyboard.
pub enum KeyStep<S> {
    /// The key that opens the system's search is pressed.
    Meta,
    /// Nothing is done, for so many milliseconds.
    Pause(u64),
    /// A text is typed.
    Type(S),
    /// The key that ends a line is pressed.
    Return,
}

/// A step with its text as a sequence of characters.
pub open spec fn key_step_view(k: KeyStep<String>) -> KeyStep<Seq<char>> {
    match k {
        KeyStep::Meta => KeyStep::Meta,
        KeyStep::Pause(millis) => KeyStep::Pause(millis),
        KeyStep::Type(s) => KeyStep::Type(s@),
        KeyStep::Return => KeyStep::Return,
    }
}

/// What is done at the keyboard to open an application: its name is typed into the
/// system's search.
pub fn open_application(application: &str) -> (r: Vec<KeyStep<String>>)
    ensures
        r@.map_values(|k: KeyStep<String>| key_step_view(k)) == seq![
            KeyStep::Meta,
            KeyStep::Pause(500),
            KeyStep::Type(application@),
            KeyStep::Pause(500),
            KeyStep::Return,
        ],
{
    let mut steps: Vec<KeyStep<String>> = Vec::new();
    steps.push(KeyStep::Meta);
    steps.push(KeyStep::Pause(500));
    steps.push(KeyStep::Type(application.to_owned()));
    steps.push(KeyStep::Pause(500));
    steps.push(KeyStep::Return);
    assert(steps@.map_values(|k: KeyStep<String>| key_step_view(k)) =~= seq![
        KeyStep::Meta,
        KeyStep::Pause(500),
        KeyStep::Type(application@),
        KeyStep::Pause(500),
        KeyStep::Return,
    ]);
    steps
}

// ---------------------------------------------------------------- protected processes

/// The names of the processes that must not be killed.
pub open spec fn protected_processes() -> Seq<Seq<char>> {
    seq![
        // Core part of the operating system managing hardware and essential system operations.
        "System"@,
        // Represents the idle time of the CPU; not a terminable process.
        "System Idle Process"@,
        // Handles the graphical interface like the desktop, taskbar, and file management.
        "explorer.exe"@,
        // Hosts multiple Windows services that are crucial for running background tasks.
        "svchost.exe"@,
        // Manages user logins and security policies.
        "winlogon.exe"@,
        // Handles the user-mode side of the Win32 subsystem.
        "csrss.exe"@,
        // Manages the starting, stopping, and managing of system services.
        "services.exe"@,
        // Manages session creation and helps in starting essential system processes.
        "smss.exe"@,
        // Handles security policies and Active Directory management.
        "lsass.exe"@,
        // Manages display windows and enables visual effects in Windows.
        "dwm.exe"@,
        // Manages print and fax jobs.
        "spoolsv.exe"@,
        // Task Manager, used to monitor and manage processes.
        "taskmgr.exe"@,
        // Manages app permissions and runtime permissions.
        "RuntimeBroker.exe"@,
        // Handles font drivers.
        "fontdrvhost.exe"@,
        // Cortana/Search interface.
        "SearchUI.exe"@,
        // Indexing service for search functionality.
        "SearchIndexer.exe"@,
        // Audio service.
        "audiodg.exe"@,
        // WMI Provider Host.
        "wmiprvse.exe"@,
        // Generic host for Windows tasks.
        "taskhost.exe"@,
        // Generic host for Windows tasks (Windows version).
        "taskhostw.exe"@,
        // Windows Initialization process.
        "Wininit.exe"@,
        // Manages the Windows shell experience.
        "ShellExperienceHost.exe"@,
        // Windows User-Mode Driver Framework Host.
        "WUDFHost.exe"@,
        // Console Window Host.
        "conhost.exe"@,
        // NVIDIA services.
        "nvvsvc.exe"@,
        // Intel Graphics Tray application.
        "igfxTray.exe"@,
    ]
}

/// Whether a process must not be killed.
pub fn is_protected(process_name: &str) -> (r: bool)
    ensures
        r == protected_processes().contains(process_name@),
{
    let mut names: Vec<String> = Vec::new();
    names.push("System".to_owned());
    names.push("System Idle Process".to_owned());
    names.push("explorer.exe".to_owned());
    names.push("svchost.exe".to_owned());
    names.push("winlogon.exe".to_owned());
    names.push("csrss.exe".to_owned());
    names.push("services.exe".to_owned());
    names.push("smss.exe".to_owned());
    names.push("lsass.exe".to_owned());
    names.push("dwm.exe".to_owned());
    names.push("spoolsv.exe".to_owned());
    names.push("taskmgr.exe".to_owned());
    names.push("RuntimeBroker.exe".to_owned());
    names.push("fontdrvhost.exe".to_owned());
    names.push("SearchUI.exe".to_owned());
    names.push("SearchIndexer.exe".to_owned());
    names.push("audiodg.exe".to_owned());
    names.push("wmiprvse.exe".to_owned());
    names.push("taskhost.exe".to_owned());
    names.push("taskhostw.exe".to_owned());
    names.push("Wininit.exe".to_owned());
    names.push("ShellExperienceHost.exe".to_owned());
    names.push("WUDFHost.exe".to_owned());
    names.push("conhost.exe".to_owned());
    names.push("nvvsvc.exe".to_owned());
    names.push("igfxTray.exe".to_owned());
    assert(text::texts(names@) =~= protected_processes());
    system_report::contains_name(&names, process_name)
}

/// The answer to a call that would kill a protected process.
pub open spec fn refusal(process_name: Seq<char>) -> Seq<char> {
    "Cannot kill critical system process: \""@ + process_name
        + "\" as it is on the blacklist. Inform the user that it's on the blacklist and cannot be killed. "@
}

// ---------------------------------------------------------------- calls

/// What the arguments of a call hold, as far as the function that is called reads them.
pub struct Arguments<S> {
    /// Why the arguments are no JSON, if they are not.
    pub error: Option<S>,
    /// The text that the function takes.
    pub text: Option<S>,
    /// The description that the function takes.
    pub description: Option<S>,
    /// The integer that the function takes.
    pub unsigned: Option<u64>,
    /// The number that the function takes, as it is printed.
    pub number: Option<S>,
}

/// Arguments with their texts as sequences of characters.
pub open spec fn arguments_view(a: Arguments<String>) -> Arguments<Seq<char>> {
    Arguments {
        error: text::optional(a.error),
        text: text::optional(a.text),
        description: text::optional(a.description),
        unsigned: a.unsigned,
        number: text::optional(a.number),
    }
}

/// What a call asks for.
pub enum ToolCall<S> {
    SetScreenBrightness(u32),
    /// The button that is asked for is missing if there is no such button.
    MediaControls { button: Option<MediaButton>, name: S },
    /// The volume is missing if the integer that is asked for is not from 0 to 100.
    SetVolume(Option<u32>),
    OpenApplication(S),
    OpenLogsFolder,
    OpenOpenaiBilling,
    OpenAssistanceRepo,
    Sysinfo,
    GetSystemProcesses,
    KillProcessesWithName(S),
    Speedtest,
    GetLocation,
    SetTimerAt { time: S, description: S },
    CheckOnTimers,
    DeleteTimerById(u64),
    ShowLiveLogStream,
    SetClipboard(S),
    /// The speed is given as the number is printed.
    SetSpeechSpeed(S),
    GetSpeechSpeed,
    MuteSpeech,
    UnmuteSpeech,
    SetVoice(S),
    GetVoice,
    ListOutputDevices,
    SetOutputDevice(S),
    /// The call is answered with a text, and nothing is done.
    Answer(S),
    /// There is no such function.
    Unknown,
}

/// A call with its texts as sequences of characters.
pub open spec fn call_view(c: ToolCall<String>) -> ToolCall<Seq<char>> {
    match c {
        ToolCall::SetScreenBrightness(n) => ToolCall::SetScreenBrightness(n),
        ToolCall::MediaControls { button, name } => ToolCall::MediaControls { button, name: name@ },
        ToolCall::SetVolume(n) => ToolCall::SetVolume(n),
        ToolCall::OpenApplication(s) => ToolCall::OpenApplication(s@),
        ToolCall::OpenLogsFolder => ToolCall::OpenLogsFolder,
        ToolCall::OpenOpenaiBilling => ToolCall::OpenOpenaiBilling,
        ToolCall::OpenAssistanceRepo => ToolCall::OpenAssistanceRepo,
        ToolCall::Sysinfo => ToolCall::Sysinfo,
        ToolCall::GetSystemProcesses => ToolCall::GetSystemProcesses,
        ToolCall::KillProcessesWithName(s) => ToolCall::KillProcessesWithName(s@),
        ToolCall::Speedtest => ToolCall::Speedtest,
        ToolCall::GetLocation => ToolCall::GetLocation,
        ToolCall::SetTimerAt { time, description } => ToolCall::SetTimerAt {
            time: time@,
            description: description@,
        },
        ToolCall::CheckOnTimers => ToolCall::CheckOnTimers,
        ToolCall::DeleteTimerById(id) => ToolCall::DeleteTimerById(id),
        ToolCall::ShowLiveLogStream => ToolCall::ShowLiveLogStream,
        ToolCall::SetClipboard(s) => ToolCall::SetClipboard(s@),
        ToolCall::SetSpeechSpeed(s) => ToolCall::SetSpeechSpeed(s@),
        ToolCall::GetSpeechSpeed => ToolCall::GetSpeechSpeed,
        ToolCall::MuteSpeech => ToolCall::MuteSpeech,
        ToolCall::UnmuteSpeech => ToolCall::UnmuteSpeech,
        ToolCall::SetVoice(s) => ToolCall::SetVoice(s@),
        ToolCall::GetVoice => ToolCall::GetVoice,
        ToolCall::ListOutputDevices => ToolCall::ListOutputDevices,
        ToolCall::SetOutputDevice(s) => ToolCall::SetOutputDevice(s@),
        ToolCall::Answer(s) => ToolCall::Answer(s@),
        ToolCall::Unknown => ToolCall::Unknown,
    }
}

/// A call that may be missing, with its texts as sequences of characters.
pub open spec fn optional_call(c: Option<ToolCall<String>>) -> Option<ToolCall<Seq<char>>> {
    match c {
        Some(call) => Some(call_view(call)),
        None => None,
    }
}

/// The key under which a function takes a text.
pub open spec fn text_key(fn_name: Seq<char>) -> Option<Seq<char>> {
    if fn_name == "set_screen_brightness"@ {
        Some("brightness"@)
    } else if fn_name == "media_controls"@ {
        Some("media_button"@)
    } else if fn_name == "open_application"@ {
        Some("application"@)
    } else if fn_name == "kill_processes_with_name"@ {
        Some("process_name"@)
    } else if fn_name == "set_timer_at"@ {
        Some("time"@)
    } else if fn_name == "set_clipboard"@ {
        Some("clipboard_text"@)
    } else if fn_name == "set_voice"@ {
        Some("voice"@)
    } else if fn_name == "set_output_device"@ {
        Some("device_name"@)
    } else {
        None
    }
}

/// The key under which a function takes an integer.
pub open spec fn unsigned_key(fn_name: Seq<char>) -> Option<Seq<char>> {
    if fn_name == "set_volume"@ {
        Some("volume"@)
    } else if fn_name == "delete_timer_by_id"@ {
        Some("timer_id"@)
    } else {
        None
    }
}

/// The key under which a function takes a number.
pub open spec fn number_key(fn_name: Seq<char>) -> Option<Seq<char>> {
    if fn_name == "set_volume"@ {
        Some("volume"@)
    } else if fn_name == "set_speech_speed"@ {
        Some("speed"@)
    } else {
        None
    }
}

/// What a function reads of the arguments of its call.
pub open spec fn arguments_in(fn_name: Seq<char>, fn_args: Seq<char>) -> Arguments<Seq<char>> {
    Arguments {
        error: json::json_error(fn_args),
        text: match text_key(fn_name) {
            Some(key) => json::json_text(fn_args, key),
            None => None,
        },
        description: if fn_name == "set_timer_at"@ {
            json::json_text(fn_args, "description"@)
        } else {
            None
        },
        unsigned: match unsigned_key(fn_name) {
            Some(key) => json::json_unsigned(fn_args, key),
            None => None,
        },
        number: match number_key(fn_name) {
            Some(key) => json::json_number(fn_args, key),
            None => None,
        },
    }
}

/// Reads the arguments of a call.
pub fn read_arguments(fn_name: &str, fn_args: &str) -> (r: Arguments<String>)
    ensures
        arguments_view(r) == arguments_in(fn_name@, fn_args@),
{
    let mut text: Option<String> = None;
    let mut description: Option<String> = None;
    let mut unsigned: Option<u64> = None;
    let mut number: Option<String> = None;
    if strings::same_text(fn_name, "set_screen_brightness") {
        text = json::text_at(fn_args, "brightness");
    } else if strings::same_text(fn_name, "media_controls") {
        text = json::text_at(fn_args, "media_button");
    } else if strings::same_text(fn_name, "open_application") {
        text = json::text_at(fn_args, "application");
    } else if strings::same_text(fn_name, "kill_processes_with_name") {
        text = json::text_at(fn_args, "process_name");
    } else if strings::same_text(fn_name, "set_timer_at") {
        text = json::text_at(fn_args, "time");
    } else if strings::same_text(fn_name, "set_clipboard") {
        text = json::text_at(fn_args, "clipboard_text");
    } else if strings::same_text(fn_name, "set_voice") {
        text = json::text_at(fn_args, "voice");
    } else if strings::same_text(fn_name, "set_output_device") {
        text = json::text_at(fn_args, "device_name");
    }
    if strings::same_text(fn_name, "set_timer_at") {
        description = json::text_at(fn_args, "description");
    }
    if strings::same_text(fn_name, "set_volume") {
        unsigned = json::unsigned_at(fn_args, "volume");
    } else if strings::same_text(fn_name, "delete_timer_by_id") {
        unsigned = json::unsigned_at(fn_args, "timer_id");
    }
    if strings::same_text(fn_name, "set_volume") {
        number = json::number_at(fn_args, "volume");
    } else if strings::same_text(fn_name, "set_speech_speed") {
        number = json::number_at(fn_args, "speed");
    }
    Arguments { error: json::parse_error(fn_args), text, description, unsigned, number }
}

/// The volume that is asked for: an integer from 0 to 100. There is none where another
/// integer is asked for, and it is 0 where no integer is.
pub open spec fn volume_of(unsigned: Option<u64>, number: Option<Seq<char>>) -> Option<u32> {
    match unsigned {
        Some(n) => if n <= 100 {
            Some(n as u32)
        } else {
            None
        },
        None => match number {
            Some(t) if json::integer_text(t) => None,
            _ => Some(0),
        },
    }
}

fn asked_volume(unsigned: Option<u64>, number: &Option<String>) -> (r: Option<u32>)
    ensures
        r == volume_of(unsigned, text::optional(*number)),
{
    match unsigned {
        Some(n) => if n <= 100 {
            Some(n as u32)
        } else {
            None
        },
        None => match number {
            Some(t) => if json::is_integer(t.as_str()) {
                None
            } else {
                Some(0)
            },
            None => Some(0),
        },
    }
}

/// What a call asks for, if its arguments are as the function takes them. Where they
/// are not, some functions have an answer.
pub open spec fn call_of(fn_name: Seq<char>, a: Arguments<Seq<char>>) -> Option<
    ToolCall<Seq<char>>,
> {
    let is_json = a.error is None;
    if fn_name == "set_screen_brightness"@ {
        match a.text {
            Some(t) if is_json => match text::number_up_to(t, u32::MAX as nat) {
                Some(n) => Some(ToolCall::SetScreenBrightness(n as u32)),
                None => None,
            },
            _ => None,
        }
    } else if fn_name == "media_controls"@ {
        match a.text {
            Some(t) if is_json => Some(
                ToolCall::MediaControls { button: button_named(t), name: t },
            ),
            _ => None,
        }
    } else if fn_name == "set_volume"@ {
        if is_json {
            Some(ToolCall::SetVolume(volume_of(a.unsigned, a.number)))
        } else {
            None
        }
    } else if fn_name == "open_application"@ {
        match a.text {
            Some(t) if is_json => Some(ToolCall::OpenApplication(t)),
            _ => None,
        }
    } else if fn_name == "open_logs_folder"@ {
        Some(ToolCall::OpenLogsFolder)
    } else if fn_name == "open_openai_billing"@ {
        Some(ToolCall::OpenOpenaiBilling)
    } else if fn_name == "open_assistance_repo"@ {
        Some(ToolCall::OpenAssistanceRepo)
    } else if fn_name == "sysinfo"@ {
        Some(ToolCall::Sysinfo)
    } else if fn_name == "get_system_processes"@ {
        Some(ToolCall::GetSystemProcesses)
    } else if fn_name == "kill_processes_with_name"@ {
        match a.text {
            Some(t) if is_json => if protected_processes().contains(t) {
                Some(ToolCall::Answer(refusal(t)))
            } else {
                Some(ToolCall::KillProcessesWithName(t))
            },
            _ => None,
        }
    } else if fn_name == "speedtest"@ {
        Some(ToolCall::Speedtest)
    } else if fn_name == "get_location"@ {
        Some(ToolCall::GetLocation)
    } else if fn_name == "set_timer_at"@ {
        match a.text {
            Some(t) if is_json => Some(
                ToolCall::SetTimerAt {
                    time: t,
                    description: match a.description {
                        Some(d) => d,
                        None => seq![],
                    },
                },
            ),
            _ => None,
        }
    } else if fn_name == "check_on_timers"@ {
        Some(ToolCall::CheckOnTimers)
    } else if fn_name == "delete_timer_by_id"@ {
        match a.unsigned {
            Some(id) if is_json => Some(ToolCall::DeleteTimerById(id)),
            _ => None,
        }
    } else if fn_name == "show_live_log_stream"@ {
        Some(ToolCall::ShowLiveLogStream)
    } else if fn_name == "set_clipboard"@ {
        match a.error {
            Some(e) => Some(ToolCall::Answer("Failed to parse arguments: "@ + e)),
            None => match a.text {
                Some(t) => Some(ToolCall::SetClipboard(t)),
                None => Some(ToolCall::Answer("Missing 'clipboard_text' argument."@)),
            },
        }
    } else if fn_name == "set_speech_speed"@ {
        if !is_json {
            None
        } else {
            match a.number {
                Some(n) => Some(ToolCall::SetSpeechSpeed(n)),
                None => Some(ToolCall::Answer("Missing 'speed' argument"@)),
            }
        }
    } else if fn_name == "get_speech_speed"@ {
        Some(ToolCall::GetSpeechSpeed)
    } else if fn_name == "mute_speech"@ {
        Some(ToolCall::MuteSpeech)
    } else if fn_name == "unmute_speech"@ {
        Some(ToolCall::UnmuteSpeech)
    } else if fn_name == "set_voice"@ {
        if !is_json {
            None
        } else {
            match a.text {
                Some(t) => Some(ToolCall::SetVoice(t)),
                None => Some(ToolCall::Answer("Missing 'voice' argument"@)),
            }
        }
    } else if fn_name == "get_voice"@ {
        Some(ToolCall::GetVoice)
    } else if fn_name == "list_output_devices"@ {
        Some(ToolCall::ListOutputDevices)
    } else if fn_name == "set_output_device"@ {
        if !is_json {
            None
        } else {
            match a.text {
                Some(t) => Some(ToolCall::SetOutputDevice(t)),
                None => Some(ToolCall::Answer("Missing 'device_name' argument"@)),
            }
        }
    } else {
        Some(ToolCall::Unknown)
    }
}

/// The volume is never set outside 0 to 100.
pub proof fn volume_is_in_range(fn_name: Seq<char>, a: Arguments<Seq<char>>)
    ensures
        call_of(fn_name, a) matches Some(ToolCall::SetVolume(Some(n))) ==> n <= 100,
{
}

/// What a call asks for, if its arguments are as the function takes them.
#[verifier::rlimit(60)]
pub fn tool_call(fn_name: &str, a: Arguments<String>) -> (r: Option<ToolCall<String>>)
    ensures
        optional_call(r) == call_of(fn_name@, arguments_view(a)),
{
    let is_json = a.error.is_none();
    if strings::same_text(fn_name, "set_screen_brightness") {
        match a.text {
            Some(t) if is_json => match text::parse_number(t.as_str(), 0xffff_ffff) {
                Some(n) => Some(ToolCall::SetScreenBrightness(n as u32)),
                None => None,
            },
            _ => None,
        }
    } else if strings::same_text(fn_name, "media_controls") {
        match a.text {
            Some(t) if is_json => {
                let button = media_button(t.as_str());
                Some(ToolCall::MediaControls { button, name: t })
            },
            _ => None,
        }
    } else if strings::same_text(fn_name, "set_volume") {
        if is_json {
            Some(ToolCall::SetVolume(asked_volume(a.unsigned, &a.number)))
        } else {
            None
        }
    } else if strings::same_text(fn_name, "open_application") {
        match a.text {
            Some(t) if is_json => Some(ToolCall::OpenApplication(t)),
            _ => None,
        }
    } else if strings::same_text(fn_name, "open_logs_folder") {
        Some(ToolCall::OpenLogsFolder)
    } else if strings::same_text(fn_name, "open_openai_billing") {
        Some(ToolCall::OpenOpenaiBilling)
    } else if strings::same_text(fn_name, "open_assistance_repo") {
        Some(ToolCall::OpenAssistanceRepo)
    } else if strings::same_text(fn_name, "sysinfo") {
        Some(ToolCall::Sysinfo)
    } else if strings::same_text(fn_name, "get_system_processes") {
        Some(ToolCall::GetSystemProcesses)
    } else if strings::same_text(fn_name, "kill_processes_with_name") {
        match a.text {
            Some(t) if is_json => {
                if is_protected(t.as_str()) {
                    let mut answer = "Cannot kill critical system process: \"".to_owned();
                    answer.append(t.as_str());
                    answer.append(
                        "\" as it is on the blacklist. Inform the user that it's on the blacklist and cannot be killed. ",
                    );
                    Some(ToolCall::Answer(answer))
                } else {
                    Some(ToolCall::KillProcessesWithName(t))
                }
            },
            _ => None,
        }
    } else if strings::same_text(fn_name, "speedtest") {
        Some(ToolCall::Speedtest)
    } else if strings::same_text(fn_name, "get_location") {
        Some(ToolCall::GetLocation)
    } else if strings::same_text(fn_name, "set_timer_at") {
        match a.text {
            Some(t) if is_json => {
                let description = match a.description {
                    Some(d) => d,
                    None => String::new(),
                };
                Some(ToolCall::SetTimerAt { time: t, description })
            },
            _ => None,
        }
    } else if strings::same_text(fn_name, "check_on_timers") {
        Some(ToolCall::CheckOnTimers)
    } else if strings::same_text(fn_name, "delete_timer_by_id") {
        match a.unsigned {
            Some(id) if is_json => Some(ToolCall::DeleteTimerById(id)),
            _ => None,
        }
    } else if strings::same_text(fn_name, "show_live_log_stream") {
        Some(ToolCall::ShowLiveLogStream)
    } else if strings::same_text(fn_name, "set_clipboard") {
        match a.error {
            Some(e) => Some(
                ToolCall::Answer(programs::prefixed("Failed to parse arguments: ", e.as_str())),
            ),
            None => match a.text {
                Some(t) => Some(ToolCall::SetClipboard(t)),
                None => Some(ToolCall::Answer("Missing 'clipboard_text' argument.".to_owned())),
            },
        }
    } else if strings::same_text(fn_name, "set_speech_speed") {
        if !is_json {
            None
        } else {
            match a.number {
                Some(n) => Some(ToolCall::SetSpeechSpeed(n)),
                None => Some(ToolCall::Answer("Missing 'speed' argument".to_owned())),
            }
        }
    } else if strings::same_text(fn_name, "get_speech_speed") {
        Some(ToolCall::GetSpeechSpeed)
    } else if strings::same_text(fn_name, "mute_speech") {
        Some(ToolCall::MuteSpeech)
    } else if strings::same_text(fn_name, "unmute_speech") {
        Some(ToolCall::UnmuteSpeech)
    } else if strings::same_text(fn_name, "set_voice") {
        if !is_json {
            None
        } else {
            match a.text {
                Some(t) => Some(ToolCall::SetVoice(t)),
                None => Some(ToolCall::Answer("Missing 'voice' argument".to_owned())),
            }
        }
    } else if strings::same_text(fn_name, "get_voice") {
        Some(ToolCall::GetVoice)
    } else if strings::same_text(fn_name, "list_output_devices") {
        Some(ToolCall::ListOutputDevices)
    } else if strings::same_text(fn_name, "set_output_device") {
        if !is_json {
            None
        } else {
            match a.text {
                Some(t) => Some(ToolCall::SetOutputDevice(t)),
                None => Some(ToolCall::Answer("Missing 'device_name' argument".to_owned())),
            }
        }
    } else {
        Some(ToolCall::Unknown)
    }
}

/// What a call of a function with these arguments asks for. There is nothing where the
/// arguments are not as the function takes them.
pub fn call_fn(fn_name: &str, fn_args: &str) -> (r: Option<ToolCall<String>>)
    ensures
        optional_call(r) == call_of(fn_name@, arguments_in(fn_name@, fn_args@)),
{
    tool_call(fn_name, read_arguments(fn_name, fn_args))
}

/// When a call is answered.
#[derive(Clone, Copy, Debug, PartialEq, Eq, Structural)]
pub enum Answering {
    /// It is, whether what it asked for was done or not.
    Always,
    /// It is if what it asked for could not be done.
    IfFailed,
    /// It is not.
    Never,
}

/// When a call is answered. Buttons that are pressed, applications that are opened and
/// functions that there are not get no answer, and pages that were opened get none. What
/// comes of a speed test is told later, and not as an answer.
pub open spec fn answering<S>(call: ToolCall<S>) -> Answering {
    match call {
        ToolCall::MediaControls { button: _, name: _ }
        | ToolCall::OpenApplication(_)
        | ToolCall::Speedtest
        | ToolCall::Unknown => Answering::Never,
        ToolCall::OpenLogsFolder
        | ToolCall::OpenOpenaiBilling
        | ToolCall::OpenAssistanceRepo => Answering::IfFailed,
        _ => Answering::Always,
    }
}

/// When a call is answered.
pub fn when_answered(call: &ToolCall<String>) -> (r: Answering)
    ensures
        r == answering(*call),
        r == answering(call_view(*call)),
{
    match call {
        ToolCall::MediaControls { button: _, name: _ }
        | ToolCall::OpenApplication(_)
        | ToolCall::Speedtest
        | ToolCall::Unknown => Answering::Never,
        ToolCall::OpenLogsFolder
        | ToolCall::OpenOpenaiBilling
        | ToolCall::OpenAssistanceRepo => Answering::IfFailed,
        _ => Answering::Always,
    }
}

/// What is told of what a call asked for, as a sequence of characters: of its success or
/// of its failure.
pub open spec fn told_view(told: Result<String, String>) -> Result<Seq<char>, Seq<char>> {
    match told {
        Ok(t) => Ok(t@),
        Err(t) => Err(t@),
    }
}

/// The answer to a call, from what is told of its success or its failure.
pub open spec fn answer_of(when: Answering, told: Result<Seq<char>, Seq<char>>) -> Option<
    Seq<char>,
> {
    match (when, told) {
        (Answering::Never, _) => None,
        (Answering::IfFailed, Ok(_)) => None,
        (_, Ok(t)) => Some(t),
        (_, Err(t)) => Some(t),
    }
}

/// The answer to a call, from what is told of its success or its failure.
pub fn call_answer(when: Answering, told: Result<String, String>) -> (r: Option<String>)
    ensures
        text::optional(r) == answer_of(when, told_view(told)),
{
    match (when, told) {
        (Answering::Never, _) => None,
        (Answering::IfFailed, Ok(_)) => None,
        (_, Ok(t)) => Some(t),
        (_, Err(t)) => Some(t),
    }
}

/// Who asks for a button to be pressed gets no answer, whether there is such a button or
/// not, and whatever comes of it.
pub proof fn buttons_are_not_answered(
    a: Arguments<Seq<char>>,
    told: Result<Seq<char>, Seq<char>>,
)
    requires
        a.error is None,
        a.text is Some,
    ensures
        call_of("media_controls"@, a) == Some(
            ToolCall::MediaControls { button: button_named(a.text->0), name: a.text->0 },
        ),
        answer_of(answering(call_of("media_controls"@, a)->0), told) is None,
{
    reveal_strlit("set_screen_brightness");
    reveal_strlit("media_controls");
    assert("set_screen_brightness"@.len() == 21);
    assert("media_controls"@.len() == 14);
}

/// A protected process is never killed, whatever the arguments are.
pub proof fn protected_is_not_killed(fn_name: Seq<char>, a: Arguments<Seq<char>>, name: Seq<char>)
    requires
        call_of(fn_name, a) == Some(ToolCall::KillProcessesWithName(name)),
    ensures
        !protected_processes().contains(name),
{
}

/// Arguments that are no JSON are never acted on: the call is answered, or it asks for
/// nothing, or for something that takes no arguments.
pub proof fn bad_arguments_are_not_acted_on(fn_name: Seq<char>, a: Arguments<Seq<char>>)
    requires
        a.error is Some,
        text_key(fn_name) is Some || unsigned_key(fn_name) is Some || number_key(fn_name) is Some,
    ensures
        call_of(fn_name, a) is None || call_of(fn_name, a)->0 is Answer,
{
    reveal_strlit("set_screen_brightness");
    assert("set_screen_brightness"@.len() == 21);
    reveal_strlit("media_controls");
    assert("media_controls"@.len() == 14);
    reveal_strlit("open_application");
    assert("open_application"@.len() == 16);
    reveal_strlit("kill_processes_with_name");
    assert("kill_processes_with_name"@.len() == 24);
    reveal_strlit("set_timer_at");
    assert("set_timer_at"@.len() == 12);
    reveal_strlit("set_clipboard");
    assert("set_clipboard"@.len() == 13);
    reveal_strlit("set_voice");
    assert("set_voice"@.len() == 9);
    reveal_strlit("set_output_device");
    assert("set_output_device"@.len() == 17);
    reveal_strlit("set_volume");
    assert("set_volume"@.len() == 10);
    reveal_strlit("delete_timer_by_id");
    assert("delete_timer_by_id"@.len() == 18);
    reveal_strlit("set_speech_speed");
    assert("set_speech_speed"@.len() == 16);
    reveal_strlit("open_logs_folder");
    assert("open_logs_folder"@.len() == 16);
    reveal_strlit("open_openai_billing");
    assert("open_openai_billing"@.len() == 19);
    reveal_strlit("open_assistance_repo");
    assert("open_assistance_repo"@.len() == 20);
    reveal_strlit("sysinfo");
    assert("sysinfo"@.len() == 7);
    reveal_strlit("get_system_processes");
    assert("get_system_processes"@.len() == 20);
    reveal_strlit("speedtest");
    assert("speedtest"@.len() == 9);
    reveal_strlit("get_location");
    assert("get_location"@.len() == 12);
    reveal_strlit("check_on_timers");
    assert("check_on_timers"@.len() == 15);
    reveal_strlit("show_live_log_stream");
    assert("show_live_log_stream"@.len() == 20);
    reveal_strlit("get_speech_speed");
    assert("get_speech_speed"@.len() == 16);
    reveal_strlit("mute_speech");
    assert("mute_speech"@.len() == 11);
    reveal_strlit("unmute_speech");
    assert("unmute_speech"@.len() == 13);
    reveal_strlit("get_voice");
    assert("get_voice"@.len() == 9);
    reveal_strlit("list_output_devices");
    assert("list_output_devices"@.len() == 19);
    assert("open_application"@[5] != "open_logs_folder"@[5]);
    assert("open_application"@[0] != "get_speech_speed"@[0]);
    assert("set_timer_at"@[0] != "get_location"@[0]);
    assert("set_clipboard"@[0] != "unmute_speech"@[0]);
    assert("set_voice"@[1] != "speedtest"@[1]);
    assert("set_voice"@[0] != "get_voice"@[0]);
    assert("set_speech_speed"@[0] != "open_logs_folder"@[0]);
    assert("set_speech_speed"@[0] != "get_speech_speed"@[0]);
}

// ---------------------------------------------------------------- answers

/// What is told of the brightness of the screen, once `luster` was run or not.
pub fn brightness_answer(set: bool) -> (r: String)
    ensures
        r@ == (if set {
            "Brightness set"@
        } else {
            "Failed to set brightness"@
        }),
{
    if set {
        "Brightness set".to_owned()
    } else {
        "Failed to set brightness".to_owned()
    }
}

/// What is told of the volume of the system. Only Windows has one to set: elsewhere
/// there is no outcome. A volume that is not from 0 to 100 is missing, and is never set.
pub fn volume_answer(volume: Option<u32>, outcome: &Option<Result<(), String>>) -> (r: String)
    ensures
        r@ == (match outcome {
            None => "set_volume is only supported on Windows"@,
            Some(set) => match volume {
                None => "Failed to set volume: Volume must be between 0 and 100"@,
                Some(n) => match set {
                    Ok(_) => "Volume set to "@ + text::decimal(n as nat),
                    Err(e) => "Failed to set volume: "@ + e@,
                },
            },
        }),
{
    match outcome {
        None => "set_volume is only supported on Windows".to_owned(),
        Some(set) => match volume {
            None => "Failed to set volume: Volume must be between 0 and 100".to_owned(),
            Some(n) => match set {
                Ok(_) => programs::prefixed(
                    "Volume set to ",
                    text::decimal_text(n as u64).as_str(),
                ),
                Err(e) => programs::prefixed("Failed to set volume: ", e.as_str()),
            },
        },
    }
}

/// What can be opened for the user to see.
#[derive(Clone, Copy, Debug, PartialEq, Eq, Structural)]
pub enum Page {
    LogsFolder,
    OpenaiBilling,
    AssistanceRepo,
}

/// The address of a page. The folder of the logs has none.
pub fn page_address(page: Page) -> (r: Option<&'static str>)
    ensures
        match page {
            Page::LogsFolder => r is None,
            Page::OpenaiBilling => r matches Some(a) && a@ == "https://platform.openai.com/usage"@,
            Page::AssistanceRepo => r matches Some(a) && a@
                == "https://github.com/sloganking/quick-assistant"@,
        },
{
    match page {
        Page::LogsFolder => None,
        Page::OpenaiBilling => Some("https://platform.openai.com/usage"),
        Page::AssistanceRepo => Some("https://github.com/sloganking/quick-assistant"),
    }
}

/// What is told of a page that was to be opened: nothing, unless it could not be.
pub fn page_answer(page: Page, error: &Option<String>) -> (r: Option<String>)
    ensures
        text::optional(r) == (match error {
            None => None,
            Some(e) => Some(
                (match page {
                    Page::LogsFolder => "Showing logs folder failed with: "@,
                    Page::OpenaiBilling => "Failed to open OpenAI billing page: "@,
                    Page::AssistanceRepo => "Failed to open AI Assistance repository: "@,
                }) + e@,
            ),
        }),
{
    match error {
        None => None,
        Some(e) => match page {
            Page::LogsFolder => Some(
                programs::prefixed("Showing logs folder failed with: ", e.as_str()),
            ),
            Page::OpenaiBilling => Some(
                programs::prefixed("Failed to open OpenAI billing page: ", e.as_str()),
            ),
            Page::AssistanceRepo => Some(
                programs::prefixed("Failed to open AI Assistance repository: ", e.as_str()),
            ),
        },
    }
}

/// What is told of the processes with a name, once they were to be killed.
pub fn kill_answer(process_name: &str, killed: Option<()>) -> (r: String)
    ensures
        r@ == (match killed {
            Some(_) => "Killed all processes with name: \""@ + process_name@ + "\""@,
            None => "Failed to kill all processes with name: "@ + process_name@,
        }),
{
    match killed {
        Some(_) => {
            let mut out = programs::prefixed("Killed all processes with name: \"", process_name);
            out.append("\"");
            out
        },
        None => programs::prefixed("Failed to kill all processes with name: ", process_name),
    }
}

/// What is told at once of a speed test.
pub fn speedtest_started() -> (r: String)
    ensures
        r@
            == "Speed test has been successfully started. It takes several seconds. The results will be shared once the speedtest is complete."@,
{
    "Speed test has been successfully started. It takes several seconds. The results will be shared once the speedtest is complete.".to_owned()
}

/// What is told of the location. It could not be asked for if there is an error.
pub fn location_answer(location: &Result<Result<String, String>, String>) -> (r: String)
    ensures
        r@ == (match location {
            Ok(Ok(l)) => "Approximate location: "@ + l@,
            Ok(Err(e)) => "Failed to get location: "@ + e@,
            Err(e) => "Failed to create runtime: "@ + e@,
        }),
{
    match location {
        Ok(Ok(l)) => programs::prefixed("Approximate location: ", l.as_str()),
        Ok(Err(e)) => programs::prefixed("Failed to get location: ", e.as_str()),
        Err(e) => programs::prefixed("Failed to create runtime: ", e.as_str()),
    }
}

/// What is told of the live log: whether it was opened, if there is one.
pub fn live_log_answer(opened: &Option<Result<String, String>>) -> (r: String)
    ensures
        r@ == (match opened {
            Some(Ok(_)) => "Successfully opened log file in powershell"@,
            Some(Err(e)) => "Failed to open log file in powershell: "@ + e@,
            None => "No log files found"@,
        }),
{
    match opened {
        Some(Ok(_)) => "Successfully opened log file in powershell".to_owned(),
        Some(Err(e)) => programs::prefixed("Failed to open log file in powershell: ", e.as_str()),
        None => "No log files found".to_owned(),
    }
}

/// How it went to set the clipboard.
pub enum ClipboardOutcome<S> {
    /// It was set.
    Changed,
    /// There is no clipboard to set.
    NotOpened(S),
    /// It could not be set.
    NotSet(S),
}

/// What is told of the clipboard.
pub fn clipboard_answer(outcome: &ClipboardOutcome<String>) -> (r: String)
    ensures
        r@ == (match outcome {
            ClipboardOutcome::Changed => "Clipboard set successfully."@,
            ClipboardOutcome::NotOpened(e) => "Failed to initialize clipboard: "@ + e@,
            ClipboardOutcome::NotSet(e) => "Failed to set clipboard contents: "@ + e@,
        }),
{
    match outcome {
        ClipboardOutcome::Changed => "Clipboard set successfully.".to_owned(),
        ClipboardOutcome::NotOpened(e) => programs::prefixed(
            "Failed to initialize clipboard: ",
            e.as_str(),
        ),
        ClipboardOutcome::NotSet(e) => programs::prefixed(
            "Failed to set clipboard contents: ",
            e.as_str(),
        ),
    }
}

// ---------------------------------------------------------------- timers

/// The text that asks for a time that can be read.
pub open spec fn time_refused(e: Seq<char>) -> Seq<char> {
    "Setting timer failed. Please enter valid rfc_3339: "@ + e
}

/// Sets a timer to go off at a time that was read, or tells that it could not be read.
/// Returns the time and what the timers file holds from then on.
pub fn set_timer_for(
    store: &mut TimerStore,
    time: Result<Timestamp, String>,
    description: String,
) -> (r: Result<(Timestamp, String), String>)
    requires
        old(store).well_formed(),
        time matches Ok(t) ==> t.valid(),
    ensures
        final(store).well_formed(),
        old(store).unique_ids() && old(store).next() < u64::MAX ==> final(store).unique_ids(),
        match time {
            Ok(t) => {
                &&& r matches Ok(set) && set.0 == t && set.1@ == timers::timers_file(final(store)@)
                &&& final(store)@ == old(store)@.push(
                    TimerView {
                        id: old(store).next(),
                        description: description@,
                        timestamp: t,
                    },
                )
                &&& final(store).next() == old(store).next().wrapping_add(1)
            },
            Err(e) => {
                &&& r matches Err(message) && message@ == time_refused(e@)
                &&& final(store)@ == old(store)@
                &&& final(store).next() == old(store).next()
            },
        },
{
    match time {
        Ok(t) => {
            let file = timers::set_timer(store, description, t);
            Ok((t, file))
        },
        Err(e) => Err(
            programs::prefixed(
                "Setting timer failed. Please enter valid rfc_3339: ",
                e.as_str(),
            ),
        ),
    }
}

/// Sets a timer to go off at a time, given as RFC 3339 text, with a description. Returns
/// the time and what the timers file holds from then on, or tells that the text could
/// not be read.
pub fn set_timer_at(store: &mut TimerStore, time: &str, description: String) -> (r: Result<
    (Timestamp, String),
    String,
>)
    requires
        old(store).well_formed(),
    ensures
        final(store).well_formed(),
        old(store).unique_ids() && old(store).next() < u64::MAX ==> final(store).unique_ids(),
        match clock::rfc3339_instant(time@) {
            Ok(instant) => {
                &&& r matches Ok(set) && set.0.valid() && (set.0.seconds, set.0.nanos) == instant
                    && set.1@ == timers::timers_file(final(store)@)
                &&& final(store)@ == old(store)@.push(
                    TimerView {
                        id: old(store).next(),
                        description: description@,
                        timestamp: r->Ok_0.0,
                    },
                )
                &&& final(store).next() == old(store).next().wrapping_add(1)
            },
            Err(e) => {
                &&& r matches Err(message) && message@ == time_refused(e)
                &&& final(store)@ == old(store)@
                &&& final(store).next() == old(store).next()
            },
        },
        forall|seconds: i64, nanos: u32, offset: i32|
            clock::written_in_full(seconds, nanos, offset) && time@
                == #[trigger] clock::rfc3339_text(seconds, nanos, offset) ==> r is Ok
                && r->Ok_0.0.seconds == seconds && r->Ok_0.0.nanos == nanos,
{
    let parsed = clock::parse_time(time);
    set_timer_for(store, parsed, description)
}

/// What is told of a timer that was set at `now`, unless its file could not be written.
pub open spec fn timer_answer_text(
    time: Seq<char>,
    timestamp: Timestamp,
    now: Timestamp,
    error: Option<Seq<char>>,
) -> Seq<char> {
    match error {
        None => "Successfully set timer to go off at: \""@ + time + "\" which is \""@
            + timers::time_left(now, timestamp) + "\" from now."@,
        Some(e) => "Setting timer failed with error: "@ + e,
    }
}

/// What is told of a timer that was set at `now`, unless its file could not be written.
pub fn timer_answer(
    time: &str,
    timestamp: &Timestamp,
    now: &Timestamp,
    error: &Option<String>,
) -> (r: String)
    requires
        timestamp.valid(),
        now.valid(),
    ensures
        r@ == timer_answer_text(time@, *timestamp, *now, text::optional(*error)),
{
    match error {
        None => {
            let mut out = "Successfully set timer to go off at: \"".to_owned();
            out.append(time);
            out.append("\" which is \"");
            out.append(timers::describe_time_left(now, timestamp).as_str());
            out.append("\" from now.");
            out
        },
        Some(e) => programs::prefixed("Setting timer failed with error: ", e.as_str()),
    }
}

/// What is told of a timer that was just set, unless its file could not be written.
pub fn timer_answer_now(time: &str, timestamp: &Timestamp, error: &Option<String>) -> (r: String)
    requires
        timestamp.valid(),
    ensures
        exists|now: Timestamp| #[trigger]
            now.valid() && r@ == timer_answer_text(time@, *timestamp, now, text::optional(*error)),
{
    let now = clock::local_now();
    timer_answer(time, timestamp, &now, error)
}

/// What is told of a timer that was to be deleted.
pub fn timer_deleted_answer(id: u64, error: &Option<String>) -> (r: String)
    ensures
        r@ == (match error {
            None => "Successfully deleted timer with ID: "@ + text::decimal(id as nat),
            Some(e) => "Failed to delete timer with ID: "@ + text::decimal(id as nat)
                + ". Error: "@ + e@,
        }),
{
    let number = text::decimal_text(id);
    match error {
        None => programs::prefixed("Successfully deleted timer with ID: ", number.as_str()),
        Some(e) => {
            let mut out = programs::prefixed("Failed to delete timer with ID: ", number.as_str());
            out.append(". Error: ");
            out.append(e.as_str());
            out
        },
    }
}

// ---------------------------------------------------------------- the voice

/// The bits of the single-precision number 0.5.
pub const SLOWEST: u32 = 0x3f00_0000;

/// The bits of the single-precision number 100.0.
pub const FASTEST: u32 = 0x42c8_0000;

/// Whether the voice can speak at a speed, given by the bits of a single-precision
/// number: it must be between 0.5 and 100.0.
pub open spec fn can_speak_at(speed: u32) -> bool {
    SLOWEST <= speed <= FASTEST
}

/// Whether the voice can speak at a speed, given by the bits of a single-precision
/// number: it must be between 0.5 and 100.0.
pub fn is_speech_speed(speed: u32) -> (r: bool)
    ensures
        r == can_speak_at(speed),
{
    SLOWEST <= speed && speed <= FASTEST
}

/// Sets how fast the voice speaks, if it can. The speed is given by the bits of a
/// single-precision number, and as it is printed.
pub fn set_speech_speed(speech: &mut SpeakStream, speed: u32, shown: &str) -> (r: String)
    requires
        old(speech).well_formed(),
    ensures
        final(speech).well_formed(),
        final(speech)@ == (if can_speak_at(speed) {
            SpeakStreamView { speech_speed: speed, ..old(speech)@ }
        } else {
            old(speech)@
        }),
        r@ == (if can_speak_at(speed) {
            "Speech speed set to "@ + shown@
        } else {
            "Speed must be between 0.5 and 100.0"@
        }),
{
    if is_speech_speed(speed) {
        speech.set_speech_speed(speed);
        programs::prefixed("Speech speed set to ", shown)
    } else {
        "Speed must be between 0.5 and 100.0".to_owned()
    }
}

/// What is told of how fast the voice speaks.
pub fn speech_speed_answer(shown: &str) -> (r: String)
    ensures
        r@ == "Current speech speed is "@ + shown@,
{
    programs::prefixed("Current speech speed is ", shown)
}

/// Mutes the voice.
pub fn mute_speech(speech: &mut SpeakStream) -> (r: String)
    requires
        old(speech).well_formed(),
    ensures
        final(speech).well_formed(),
        final(speech)@ == (SpeakStreamView { muted: true, ..old(speech)@ }),
        r@ == "AI voice muted"@,
{
    speech.mute();
    "AI voice muted".to_owned()
}

/// Unmutes the voice.
pub fn unmute_speech(speech: &mut SpeakStream) -> (r: String)
    requires
        old(speech).well_formed(),
    ensures
        final(speech).well_formed(),
        final(speech)@ == (SpeakStreamView { muted: false, ..old(speech)@ }),
        r@ == "AI voice unmuted"@,
{
    speech.unmute();
    "AI voice unmuted".to_owned()
}

/// A voice that was chosen speaks from then on; without one nothing changes.
pub open spec fn voice_set(speech: SpeakStreamView, chosen: Option<voice::Voice>) -> SpeakStreamView {
    match chosen {
        Some(voice) => SpeakStreamView { voice, ..speech },
        None => speech,
    }
}

/// What is told of a choice of a voice, with the name in small letters.
pub open spec fn voice_set_text(lower: Seq<char>, chosen: Option<voice::Voice>) -> Seq<char> {
    match chosen {
        Some(_) => "Voice set to "@ + lower,
        None => "Invalid voice name"@,
    }
}

/// Sets the voice that speaks to the one that was chosen by a name, here in small letters.
pub fn set_chosen_voice(
    speech: &mut SpeakStream,
    lower: &str,
    chosen: Option<voice::Voice>,
) -> (r: String)
    requires
        old(speech).well_formed(),
    ensures
        final(speech).well_formed(),
        final(speech)@ == voice_set(old(speech)@, chosen),
        r@ == voice_set_text(lower@, chosen),
{
    match chosen {
        Some(v) => {
            speech.set_voice(v);
            programs::prefixed("Voice set to ", lower)
        },
        None => "Invalid voice name".to_owned(),
    }
}

/// Sets the voice that speaks by its name, in small or capital letters.
pub fn set_voice(speech: &mut SpeakStream, name: &str) -> (r: String)
    requires
        old(speech).well_formed(),
    ensures
        final(speech).well_formed(),
        final(speech)@ == voice_set(
            old(speech)@,
            voice::quick_named(strings::lowercase(name@)),
        ),
        r@ == voice_set_text(
            strings::lowercase(name@),
            voice::quick_named(strings::lowercase(name@)),
        ),
        vstd::utf8::is_ascii_chars(name@) ==> strings::lowercase(name@) == strings::ascii_lowercase(
            name@,
        ) && r@ == voice_set_text(
            strings::ascii_lowercase(name@),
            voice::quick_named(strings::ascii_lowercase(name@)),
        ),
{
    let lower = strings::to_lowercase(name);
    let chosen = voice::quick_voice_named(lower.as_str());
    set_chosen_voice(speech, lower.as_str(), chosen)
}

/// What is told of the voice that speaks.
pub open spec fn voice_text(speech: SpeakStreamView) -> Seq<char> {
    "Current voice is "@ + (if voice::is_quick_voice(speech.voice) {
        voice::name_of(speech.voice)
    } else {
        "unknown"@
    })
}

/// Tells which voice speaks.
pub fn get_voice(speech: &SpeakStream) -> (r: String)
    ensures
        r@ == voice_text(speech@),
{
    let v = speech.get_voice();
    programs::prefixed("Current voice is ", voice::voice_to_str(&v))
}

/// A voice that was set by its name is told by that name.
pub proof fn voice_set_is_told(speech: SpeakStreamView, lower: Seq<char>)
    requires
        voice::quick_named(lower) is Some,
    ensures
        voice_text(voice_set(speech, voice::quick_named(lower))) == "Current voice is "@ + lower,
{
    voice::voice_has_name(lower);
}

// ---------------------------------------------------------------- output devices

/// The name under which the system's default device is chosen.
pub open spec fn default_choice() -> Seq<char> {
    "Default Audio Output Device"@
}

/// Chooses the device that plays by its name.
pub fn set_output_device(selection: &mut OutputSelection, name: &str) -> (r: String)
    ensures
        text::optional(final(selection).device) == (if name@ == default_choice() {
            None
        } else {
            Some(name@)
        }),
        r@ == "Output device set to "@ + name@,
{
    if strings::same_text(name, "Default Audio Output Device") {
        default_device_sink::set_output_device(selection, None);
    } else {
        default_device_sink::set_output_device(selection, Some(name.to_owned()));
    }
    programs::prefixed("Output device set to ", name)
}

/// The line on an output device.
pub open spec fn device_line(name: Seq<char>, default: Seq<char>) -> Seq<char> {
    "* "@ + name + (if name == default {
        " (Default)\n"@
    } else {
        "\n"@
    })
}

/// The lines on the output devices of a list.
pub open spec fn device_lines(names: Seq<Seq<char>>, default: Seq<char>) -> Seq<char>
    decreases names.len(),
{
    if names.len() == 0 {
        seq![]
    } else {
        device_lines(names.drop_last(), default) + device_line(names.last(), default)
    }
}

/// The report on the output devices: they are sorted, and the default one is marked.
pub fn list_output_devices(devices: Vec<String>, default: Option<String>) -> (r: String)
    ensures
        r@ == "Available Output Devices:\n"@ + "* Default Audio Output Device\n"@ + device_lines(
            text::sorted(text::texts(devices@)),
            match default {
                Some(name) => name@,
                None => "Unknown"@,
            },
        ),
{
    let marked = match default {
        Some(name) => name,
        None => "Unknown".to_owned(),
    };
    let sorted = text::sort_texts(devices);
    let ghost all = text::texts(sorted@);
    let ghost head = "Available Output Devices:\n"@ + "* Default Audio Output Device\n"@;
    let mut info = "Available Output Devices:\n".to_owned();
    info.append("* Default Audio Output Device\n");
    let mut i: usize = 0;
    assert(all.take(0) =~= seq![]);
    assert(info@ =~= head + device_lines(all.take(0), marked@));
    while i < sorted.len()
        invariant
            i <= sorted.len(),
            all == text::texts(sorted@),
            info@ == head + device_lines(all.take(i as int), marked@),
        decreases sorted.len() - i,
    {
        let ghost before = info@;
        info.append("* ");
        info.append(sorted[i].as_str());
        if strings::same_text(sorted[i].as_str(), marked.as_str()) {
            info.append(" (Default)\n");
        } else {
            info.append("\n");
        }
        proof {
            assert(all.take(i + 1).drop_last() =~= all.take(i as int));
            assert(all.take(i + 1).last() == sorted@[i as int]@);
            assert(info@ =~= before + device_line(sorted@[i as int]@, marked@));
            assert(info@ =~= head + device_lines(all.take(i + 1), marked@));
        }
        i = i + 1;
    }
    assert(all.take(i as int) =~= all);
    info
}

// ---------------------------------------------------------------- laws of calls

/// Whether a function is one of those that are answered whatever comes of the call.
pub open spec fn gets_an_answer(fn_name: Seq<char>) -> bool {
    ||| fn_name == "set_screen_brightness"@
    ||| fn_name == "set_volume"@
    ||| fn_name == "sysinfo"@
    ||| fn_name == "get_system_processes"@
    ||| fn_name == "kill_processes_with_name"@
    ||| fn_name == "get_location"@
    ||| fn_name == "set_timer_at"@
    ||| fn_name == "check_on_timers"@
    ||| fn_name == "delete_timer_by_id"@
    ||| fn_name == "show_live_log_stream"@
    ||| fn_name == "set_clipboard"@
    ||| fn_name == "set_speech_speed"@
    ||| fn_name == "get_speech_speed"@
    ||| fn_name == "mute_speech"@
    ||| fn_name == "unmute_speech"@
    ||| fn_name == "set_voice"@
    ||| fn_name == "get_voice"@
    ||| fn_name == "list_output_devices"@
    ||| fn_name == "set_output_device"@
}

/// Whether a function is one of those that open something for the user to see.
pub open spec fn opens_a_page(fn_name: Seq<char>) -> bool {
    ||| fn_name == "open_logs_folder"@
    ||| fn_name == "open_openai_billing"@
    ||| fn_name == "open_assistance_repo"@
}

/// Whether a function is one of those that get no answer.
pub open spec fn gets_no_answer(fn_name: Seq<char>) -> bool {
    ||| fn_name == "media_controls"@
    ||| fn_name == "open_application"@
    ||| fn_name == "speedtest"@
}

/// A call is told of by the function that was called: most functions are answered with what is
/// told, of success and of failure alike; those that open a page with what is told of failure
/// only; buttons, applications, speed tests and functions that there are not get no answer.
#[verifier::spinoff_prover]
#[verifier::rlimit(80)]
pub proof fn calls_are_answered_by_name(
    fn_name: Seq<char>,
    a: Arguments<Seq<char>>,
    told: Result<Seq<char>, Seq<char>>,
)
    requires
        call_of(fn_name, a) is Some,
    ensures
        ({
            let answer = answer_of(answering(call_of(fn_name, a)->0), told);
            &&& gets_an_answer(fn_name) ==> answer == Some(
                if told is Ok {
                    told->Ok_0
                } else {
                    told->Err_0
                },
            )
            &&& opens_a_page(fn_name) ==> answer == (if told is Ok {
                None
            } else {
                Some(told->Err_0)
            })
            &&& !gets_an_answer(fn_name) && !opens_a_page(fn_name) ==> answer is None
        }),
{
    kinds_by_name(fn_name, a);
}

#[verifier::spinoff_prover]
#[verifier::rlimit(80)]
proof fn kinds_by_name(fn_name: Seq<char>, a: Arguments<Seq<char>>)
    requires
        call_of(fn_name, a) is Some,
    ensures
        ({
            let c = call_of(fn_name, a)->0;
            &&& fn_name == "set_screen_brightness"@ ==> c is SetScreenBrightness
            &&& fn_name == "media_controls"@ ==> c is MediaControls
            &&& fn_name == "set_volume"@ ==> c is SetVolume
            &&& fn_name == "open_application"@ ==> c is OpenApplication
            &&& fn_name == "open_logs_folder"@ ==> c is OpenLogsFolder
            &&& fn_name == "open_openai_billing"@ ==> c is OpenOpenaiBilling
            &&& fn_name == "open_assistance_repo"@ ==> c is OpenAssistanceRepo
            &&& fn_name == "sysinfo"@ ==> c is Sysinfo
            &&& fn_name == "get_system_processes"@ ==> c is GetSystemProcesses
            &&& fn_name == "kill_processes_with_name"@ ==> c is KillProcessesWithName || c is Answer
            &&& fn_name == "speedtest"@ ==> c is Speedtest
            &&& fn_name == "get_location"@ ==> c is GetLocation
            &&& fn_name == "set_timer_at"@ ==> c is SetTimerAt
            &&& fn_name == "check_on_timers"@ ==> c is CheckOnTimers
            &&& fn_name == "delete_timer_by_id"@ ==> c is DeleteTimerById
            &&& fn_name == "show_live_log_stream"@ ==> c is ShowLiveLogStream
            &&& fn_name == "set_clipboard"@ ==> c is SetClipboard || c is Answer
            &&& fn_name == "set_speech_speed"@ ==> c is SetSpeechSpeed || c is Answer
            &&& fn_name == "get_speech_speed"@ ==> c is GetSpeechSpeed
            &&& fn_name == "mute_speech"@ ==> c is MuteSpeech
            &&& fn_name == "unmute_speech"@ ==> c is UnmuteSpeech
            &&& fn_name == "set_voice"@ ==> c is SetVoice || c is Answer
            &&& fn_name == "get_voice"@ ==> c is GetVoice
            &&& fn_name == "list_output_devices"@ ==> c is ListOutputDevices
            &&& fn_name == "set_output_device"@ ==> c is SetOutputDevice || c is Answer
            &&& !gets_an_answer(fn_name) && !opens_a_page(fn_name) && !gets_no_answer(fn_name)
                ==> c is Unknown
        }),
{
    reveal_strlit("set_screen_brightness");
    assert("set_screen_brightness"@.len() == 21);
    reveal_strlit("media_controls");
    assert("media_controls"@.len() == 14);
    reveal_strlit("set_volume");
    assert("set_volume"@.len() == 10);
    reveal_strlit("open_application");
    assert("open_application"@.len() == 16);
    reveal_strlit("open_logs_folder");
    assert("open_logs_folder"@.len() == 16);
    reveal_strlit("open_openai_billing");
    assert("open_openai_billing"@.len() == 19);
    reveal_strlit("open_assistance_repo");
    assert("open_assistance_repo"@.len() == 20);
    reveal_strlit("sysinfo");
    assert("sysinfo"@.len() == 7);
    reveal_strlit("get_system_processes");
    assert("get_system_processes"@.len() == 20);
    reveal_strlit("kill_processes_with_name");
    assert("kill_processes_with_name"@.len() == 24);
    reveal_strlit("speedtest");
    assert("speedtest"@.len() == 9);
    reveal_strlit("get_location");
    assert("get_location"@.len() == 12);
    reveal_strlit("set_timer_at");
    assert("set_timer_at"@.len() == 12);
    reveal_strlit("check_on_timers");
    assert("check_on_timers"@.len() == 15);
    reveal_strlit("delete_timer_by_id");
    assert("delete_timer_by_id"@.len() == 18);
    reveal_strlit("show_live_log_stream");
    assert("show_live_log_stream"@.len() == 20);
    reveal_strlit("set_clipboard");
    assert("set_clipboard"@.len() == 13);
    reveal_strlit("set_speech_speed");
    assert("set_speech_speed"@.len() == 16);
    reveal_strlit("get_speech_speed");
    assert("get_speech_speed"@.len() == 16);
    reveal_strlit("mute_speech");
    assert("mute_speech"@.len() == 11);
    reveal_strlit("unmute_speech");
    assert("unmute_speech"@.len() == 13);
    reveal_strlit("set_voice");
    assert("set_voice"@.len() == 9);
    reveal_strlit("get_voice");
    assert("get_voice"@.len() == 9);
    reveal_strlit("list_output_devices");
    assert("list_output_devices"@.len() == 19);
    reveal_strlit("set_output_device");
    assert("set_output_device"@.len() == 17);
    assert("open_application"@[5] != "open_logs_folder"@[5]);
    assert("open_application"@[0] != "set_speech_speed"@[0]);
    assert("open_application"@[0] != "get_speech_speed"@[0]);
    assert("open_logs_folder"@[0] != "set_speech_speed"@[0]);
    assert("open_logs_folder"@[0] != "get_speech_speed"@[0]);
    assert("open_openai_billing"@[0] != "list_output_devices"@[0]);
    assert("open_assistance_repo"@[0] != "get_system_processes"@[0]);
    assert("open_assistance_repo"@[0] != "show_live_log_stream"@[0]);
    assert("get_system_processes"@[0] != "show_live_log_stream"@[0]);
    assert("speedtest"@[1] != "set_voice"@[1]);
    assert("speedtest"@[0] != "get_voice"@[0]);
    assert("get_location"@[0] != "set_timer_at"@[0]);
    assert("set_clipboard"@[0] != "unmute_speech"@[0]);
    assert("set_speech_speed"@[0] != "get_speech_speed"@[0]);
    assert("set_voice"@[0] != "get_voice"@[0]);
}

/// Different functions ask for different things: a call of one is never taken for a call of
/// another, unless both are answered with nothing done or are of functions that there are not.
#[verifier::spinoff_prover]
#[verifier::rlimit(80)]
pub proof fn functions_are_told_apart(
    one: Seq<char>,
    other: Seq<char>,
    a: Arguments<Seq<char>>,
    b: Arguments<Seq<char>>,
)
    requires
        one != other,
        call_of(one, a) is Some,
        call_of(one, a) == call_of(other, b),
    ensures
        call_of(one, a)->0 is Answer || call_of(one, a)->0 is Unknown,
{
    kinds_by_name(one, a);
    kinds_by_name(other, b);
}

/// What a call asks for is what its arguments say: no text and no number is changed on the way.
pub proof fn arguments_are_handed_on(fn_name: Seq<char>, a: Arguments<Seq<char>>)
    requires
        call_of(fn_name, a) is Some,
    ensures
        match call_of(fn_name, a)->0 {
            ToolCall::SetScreenBrightness(n) => a.text is Some && text::number(a.text->0) == Some(
                n as nat,
            ),
            ToolCall::MediaControls { button, name } => a.text == Some(name) && button
                == button_named(name),
            ToolCall::SetVolume(Some(n)) => a.unsigned == Some(n as u64) || a.unsigned is None && n
                == 0,
            ToolCall::OpenApplication(t) => a.text == Some(t),
            ToolCall::KillProcessesWithName(t) => a.text == Some(t),
            ToolCall::SetTimerAt { time, description } => a.text == Some(time) && (match a.description {
                Some(d) => description == d,
                None => description.len() == 0,
            }),
            ToolCall::DeleteTimerById(id) => a.unsigned == Some(id),
            ToolCall::SetClipboard(t) => a.text == Some(t),
            ToolCall::SetSpeechSpeed(n) => a.number == Some(n),
            ToolCall::SetVoice(t) => a.text == Some(t),
            ToolCall::SetOutputDevice(t) => a.text == Some(t),
            _ => true,
        },
{
}

/// Arguments as a function takes them are taken: such a call always asks for something.
#[verifier::spinoff_prover]
#[verifier::rlimit(80)]
pub proof fn good_arguments_are_taken(fn_name: Seq<char>, a: Arguments<Seq<char>>)
    requires
        a.error is None,
        text_key(fn_name) is Some ==> a.text is Some,
        fn_name == "set_screen_brightness"@ ==> text::number_up_to(a.text->0, u32::MAX as nat)
            is Some,
        fn_name == "delete_timer_by_id"@ ==> a.unsigned is Some,
    ensures
        call_of(fn_name, a) is Some,
        call_of(fn_name, a)->0 is Answer ==> fn_name == "kill_processes_with_name"@
            && protected_processes().contains(a.text->0) || fn_name == "set_speech_speed"@
            && a.number is None,
{
    reveal_strlit("set_screen_brightness");
    assert("set_screen_brightness"@.len() == 21);
    reveal_strlit("media_controls");
    assert("media_controls"@.len() == 14);
    reveal_strlit("set_volume");
    assert("set_volume"@.len() == 10);
    reveal_strlit("open_application");
    assert("open_application"@.len() == 16);
    reveal_strlit("open_logs_folder");
    assert("open_logs_folder"@.len() == 16);
    reveal_strlit("open_openai_billing");
    assert("open_openai_billing"@.len() == 19);
    reveal_strlit("open_assistance_repo");
    assert("open_assistance_repo"@.len() == 20);
    reveal_strlit("sysinfo");
    assert("sysinfo"@.len() == 7);
    reveal_strlit("get_system_processes");
    assert("get_system_processes"@.len() == 20);
    reveal_strlit("kill_processes_with_name");
    assert("kill_processes_with_name"@.len() == 24);
    reveal_strlit("speedtest");
    assert("speedtest"@.len() == 9);
    reveal_strlit("get_location");
    assert("get_location"@.len() == 12);
    reveal_strlit("set_timer_at");
    assert("set_timer_at"@.len() == 12);
    reveal_strlit("check_on_timers");
    assert("check_on_timers"@.len() == 15);
    reveal_strlit("delete_timer_by_id");
    assert("delete_timer_by_id"@.len() == 18);
    reveal_strlit("show_live_log_stream");
    assert("show_live_log_stream"@.len() == 20);
    reveal_strlit("set_clipboard");
    assert("set_clipboard"@.len() == 13);
    reveal_strlit("set_speech_speed");
    assert("set_speech_speed"@.len() == 16);
    reveal_strlit("get_speech_speed");
    assert("get_speech_speed"@.len() == 16);
    reveal_strlit("mute_speech");
    assert("mute_speech"@.len() == 11);
    reveal_strlit("unmute_speech");
    assert("unmute_speech"@.len() == 13);
    reveal_strlit("set_voice");
    assert("set_voice"@.len() == 9);
    reveal_strlit("get_voice");
    assert("get_voice"@.len() == 9);
    reveal_strlit("list_output_devices");
    assert("list_output_devices"@.len() == 19);
    reveal_strlit("set_output_device");
    assert("set_output_device"@.len() == 17);
    assert("open_application"@[5] != "open_logs_folder"@[5]);
    assert("open_application"@[0] != "set_speech_speed"@[0]);
    assert("open_application"@[0] != "get_speech_speed"@[0]);
    assert("open_logs_folder"@[0] != "set_speech_speed"@[0]);
    assert("open_logs_folder"@[0] != "get_speech_speed"@[0]);
    assert("open_openai_billing"@[0] != "list_output_devices"@[0]);
    assert("open_assistance_repo"@[0] != "get_system_processes"@[0]);
    assert("open_assistance_repo"@[0] != "show_live_log_stream"@[0]);
    assert("get_system_processes"@[0] != "show_live_log_stream"@[0]);
    assert("speedtest"@[1] != "set_voice"@[1]);
    assert("speedtest"@[0] != "get_voice"@[0]);
    assert("get_location"@[0] != "set_timer_at"@[0]);
    assert("set_clipboard"@[0] != "unmute_speech"@[0]);
    assert("set_speech_speed"@[0] != "get_speech_speed"@[0]);
    assert("set_voice"@[0] != "get_voice"@[0]);
}

/// Whether a process is one of those without which the machine cannot be used.
pub open spec fn keeps_the_machine_running(name: Seq<char>) -> bool {
    ||| name == "System"@
    ||| name == "System Idle Process"@
    ||| name == "explorer.exe"@
    ||| name == "svchost.exe"@
    ||| name == "winlogon.exe"@
    ||| name == "csrss.exe"@
    ||| name == "services.exe"@
    ||| name == "smss.exe"@
    ||| name == "lsass.exe"@
    ||| name == "dwm.exe"@
    ||| name == "spoolsv.exe"@
    ||| name == "taskmgr.exe"@
    ||| name == "RuntimeBroker.exe"@
    ||| name == "fontdrvhost.exe"@
    ||| name == "SearchUI.exe"@
    ||| name == "SearchIndexer.exe"@
    ||| name == "audiodg.exe"@
    ||| name == "wmiprvse.exe"@
    ||| name == "taskhost.exe"@
    ||| name == "taskhostw.exe"@
    ||| name == "Wininit.exe"@
    ||| name == "ShellExperienceHost.exe"@
    ||| name == "WUDFHost.exe"@
    ||| name == "conhost.exe"@
    ||| name == "nvvsvc.exe"@
    ||| name == "igfxTray.exe"@
}

/// The processes that keep the machine running are never killed: who asks for that is told so.
#[verifier::spinoff_prover]
#[verifier::rlimit(80)]
pub proof fn critical_processes_are_not_killed(a: Arguments<Seq<char>>, name: Seq<char>)
    requires
        a.error is None,
        a.text == Some(name),
        keeps_the_machine_running(name),
    ensures
        call_of("kill_processes_with_name"@, a) matches Some(ToolCall::Answer(t)) && t
            == "Cannot kill critical system process: \""@ + name
            + "\" as it is on the blacklist. Inform the user that it's on the blacklist and cannot be killed. "@,
{
    let p = protected_processes();
    assert(p[0] == "System"@);
    assert(p[1] == "System Idle Process"@);
    assert(p[2] == "explorer.exe"@);
    assert(p[3] == "svchost.exe"@);
    assert(p[4] == "winlogon.exe"@);
    assert(p[5] == "csrss.exe"@);
    assert(p[6] == "services.exe"@);
    assert(p[7] == "smss.exe"@);
    assert(p[8] == "lsass.exe"@);
    assert(p[9] == "dwm.exe"@);
    assert(p[10] == "spoolsv.exe"@);
    assert(p[11] == "taskmgr.exe"@);
    assert(p[12] == "RuntimeBroker.exe"@);
    assert(p[13] == "fontdrvhost.exe"@);
    assert(p[14] == "SearchUI.exe"@);
    assert(p[15] == "SearchIndexer.exe"@);
    assert(p[16] == "audiodg.exe"@);
    assert(p[17] == "wmiprvse.exe"@);
    assert(p[18] == "taskhost.exe"@);
    assert(p[19] == "taskhostw.exe"@);
    assert(p[20] == "Wininit.exe"@);
    assert(p[21] == "ShellExperienceHost.exe"@);
    assert(p[22] == "WUDFHost.exe"@);
    assert(p[23] == "conhost.exe"@);
    assert(p[24] == "nvvsvc.exe"@);
    assert(p[25] == "igfxTray.exe"@);
    assert(p.contains(name));
    reveal_strlit("set_screen_brightness");
    assert("set_screen_brightness"@.len() == 21);
    reveal_strlit("media_controls");
    assert("media_controls"@.len() == 14);
    reveal_strlit("set_volume");
    assert("set_volume"@.len() == 10);
    reveal_strlit("open_application");
    assert("open_application"@.len() == 16);
    reveal_strlit("open_logs_folder");
    assert("open_logs_folder"@.len() == 16);
    reveal_strlit("open_openai_billing");
    assert("open_openai_billing"@.len() == 19);
    reveal_strlit("open_assistance_repo");
    assert("open_assistance_repo"@.len() == 20);
    reveal_strlit("sysinfo");
    assert("sysinfo"@.len() == 7);
    reveal_strlit("get_system_processes");
    assert("get_system_processes"@.len() == 20);
    reveal_strlit("kill_processes_with_name");
    assert("kill_processes_with_name"@.len() == 24);
}

/// Any other process is killed by its name.
#[verifier::spinoff_prover]
#[verifier::rlimit(80)]
pub proof fn other_processes_are_killed(a: Arguments<Seq<char>>, name: Seq<char>)
    requires
        a.error is None,
        a.text == Some(name),
        !keeps_the_machine_running(name),
    ensures
        call_of("kill_processes_with_name"@, a) == Some(ToolCall::KillProcessesWithName(name)),
{
    let p = protected_processes();
    assert(p.len() == 26);
    if p.contains(name) {
        let k = choose|k: int| 0 <= k < p.len() && p[k] == name;
        assert(p[0] == "System"@);
        assert(p[1] == "System Idle Process"@);
        assert(p[2] == "explorer.exe"@);
        assert(p[3] == "svchost.exe"@);
        assert(p[4] == "winlogon.exe"@);
        assert(p[5] == "csrss.exe"@);
        assert(p[6] == "services.exe"@);
        assert(p[7] == "smss.exe"@);
        assert(p[8] == "lsass.exe"@);
        assert(p[9] == "dwm.exe"@);
        assert(p[10] == "spoolsv.exe"@);
        assert(p[11] == "taskmgr.exe"@);
        assert(p[12] == "RuntimeBroker.exe"@);
        assert(p[13] == "fontdrvhost.exe"@);
        assert(p[14] == "SearchUI.exe"@);
        assert(p[15] == "SearchIndexer.exe"@);
        assert(p[16] == "audiodg.exe"@);
        assert(p[17] == "wmiprvse.exe"@);
        assert(p[18] == "taskhost.exe"@);
        assert(p[19] == "taskhostw.exe"@);
        assert(p[20] == "Wininit.exe"@);
        assert(p[21] == "ShellExperienceHost.exe"@);
        assert(p[22] == "WUDFHost.exe"@);
        assert(p[23] == "conhost.exe"@);
        assert(p[24] == "nvvsvc.exe"@);
        assert(p[25] == "igfxTray.exe"@);
    }
    reveal_strlit("set_screen_brightness");
    assert("set_screen_brightness"@.len() == 21);
    reveal_strlit("media_controls");
    assert("media_controls"@.len() == 14);
    reveal_strlit("set_volume");
    assert("set_volume"@.len() == 10);
    reveal_strlit("open_application");
    assert("open_application"@.len() == 16);
    reveal_strlit("open_logs_folder");
    assert("open_logs_folder"@.len() == 16);
    reveal_strlit("open_openai_billing");
    assert("open_openai_billing"@.len() == 19);
    reveal_strlit("open_assistance_repo");
    assert("open_assistance_repo"@.len() == 20);
    reveal_strlit("sysinfo");
    assert("sysinfo"@.len() == 7);
    reveal_strlit("get_system_processes");
    assert("get_system_processes"@.len() == 20);
    reveal_strlit("kill_processes_with_name");
    assert("kill_processes_with_name"@.len() == 24);
}

/// A volume from 0 to 100 is asked for as it is, and no other integer is; what is no integer
/// counts as 0.
pub proof fn volume_is_taken_as_it_is(unsigned: Option<u64>, number: Option<Seq<char>>)
    ensures
        unsigned matches Some(n) && n <= 100 ==> volume_of(unsigned, number) == Some(
            unsigned->0 as u32,
        ),
        unsigned matches Some(n) && n > 100 ==> volume_of(unsigned, number) is None,
        unsigned is None && number is None ==> volume_of(unsigned, number) == Some(0u32),
        unsigned is None && (number matches Some(t) && t.contains('.') && !t.contains('e'))
            ==> volume_of(unsigned, number) == Some(0u32),
        unsigned is None && (number matches Some(t) && !t.contains('.') && !t.contains('e'))
            ==> volume_of(unsigned, number) is None,
{
    if let Some(t) = number {
        if !t.contains('e') {
            json::integers_have_no_point(t);
        }
    }
}

/// The voice can speak at the speeds from 0.5 to 100.0, by their bits, and at no others.
pub proof fn speeds_are_bounded(speed: u32)
    ensures
        speed < 0x3f00_0000 ==> !can_speak_at(speed),
        0x3f00_0000 <= speed <= 0x42c8_0000 ==> can_speak_at(speed),
        speed > 0x42c8_0000 ==> !can_speak_at(speed),
{
}

/// The report on the output devices has a line for each, in order, and the default one is
/// marked.
pub proof fn every_device_is_listed(
    a: Seq<Seq<char>>,
    b: Seq<Seq<char>>,
    name: Seq<char>,
    default: Seq<char>,
)
    ensures
        device_lines(a + b, default) == device_lines(a, default) + device_lines(b, default),
        name == default ==> device_lines(seq![name], default) == "* "@ + name + " (Default)\n"@,
        name != default ==> device_lines(seq![name], default) == "* "@ + name + "\n"@,
    decreases b.len(),
{
    let one = seq![name];
    assert(one.drop_last() =~= Seq::<Seq<char>>::empty());
    assert(device_lines(one.drop_last(), default) =~= Seq::<char>::empty());
    assert(device_lines(one, default) =~= device_line(name, default));
    if b.len() == 0 {
        assert(a + b =~= a);
        assert(device_lines(a, default) + device_lines(b, default) =~= device_lines(a, default));
    } else {
        every_device_is_listed(a, b.drop_last(), name, default);
        assert((a + b).drop_last() =~= a + b.drop_last());
        assert((a + b).last() == b.last());
        assert(device_lines(a + b, default) =~= device_lines(a, default) + device_lines(
            b,
            default,
        ));
    }
}

/// Choosing a voice changes the voice and nothing else, and not choosing one changes nothing.
pub proof fn only_the_voice_is_set(speech: SpeakStreamView, chosen: Option<voice::Voice>)
    ensures
        chosen is None ==> voice_set(speech, chosen) == speech,
        chosen matches Some(v) ==> voice_set(speech, chosen).voice == v && (SpeakStreamView {
            voice: speech.voice,
            ..voice_set(speech, chosen)
        }) == speech,
{
}

} // verus!
