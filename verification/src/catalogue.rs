//! The functions that are offered to the assistant.

use crate::assistant;
use crate::json;
use crate::text;
use crate::tools;
use vstd::prelude::*;

verus! {

/// What an argument of a function is.
#[derive(Clone, Copy, Debug, PartialEq, Eq, Structural)]
pub enum Kind {
    Text,
    Integer,
    Number,
}

/// An argument of a function.
pub struct Parameter {
    pub name: String,
    pub kind: Kind,
    pub description: Option<String>,
    /// What it can be, if not everything of its kind.
    pub choices: Vec<String>,
    pub required: bool,
}

/// What a `Parameter` says.
#[verifier::ext_equal]
pub struct ParameterView {
    pub name: Seq<char>,
    pub kind: Kind,
    pub description: Option<Seq<char>>,
    pub choices: Seq<Seq<char>>,
    pub required: bool,
}

impl View for Parameter {
    type V = ParameterView;

    open spec fn view(&self) -> ParameterView {
        ParameterView {
            name: self.name@,
            kind: self.kind,
            description: text::optional(self.description),
            choices: text::texts(self.choices@),
            required: self.required,
        }
    }
}

/// An argument that is required.
pub open spec fn argument(name: Seq<char>, kind: Kind) -> ParameterView {
    ParameterView { name, kind, description: None, choices: seq![], required: true }
}

/// An argument with a description.
pub open spec fn described(p: ParameterView, description: Seq<char>) -> ParameterView {
    ParameterView { description: Some(description), ..p }
}

/// An argument that is one of some texts.
pub open spec fn one_of(p: ParameterView, choices: Seq<Seq<char>>) -> ParameterView {
    ParameterView { choices, ..p }
}

/// An argument that is not required.
pub open spec fn not_required(p: ParameterView) -> ParameterView {
    ParameterView { required: false, ..p }
}

impl Parameter {
    /// An argument that is required.
    pub fn new(name: &str, kind: Kind) -> (r: Self)
        ensures
            r@ == argument(name@, kind),
    {
        let r = Parameter {
            name: name.to_owned(),
            kind,
            description: None,
            choices: Vec::new(),
            required: true,
        };
        assert(r@ =~= argument(name@, kind));
        r
    }

    /// The argument with a description.
    pub fn described(self, description: &str) -> (r: Self)
        ensures
            r@ == described(self@, description@),
    {
        Parameter {
            name: self.name,
            kind: self.kind,
            description: Some(description.to_owned()),
            choices: self.choices,
            required: self.required,
        }
    }

    /// The argument as one of some texts.
    pub fn one_of(self, choices: Vec<String>) -> (r: Self)
        ensures
            r@ == one_of(self@, text::texts(choices@)),
    {
        Parameter {
            name: self.name,
            kind: self.kind,
            description: self.description,
            choices,
            required: self.required,
        }
    }

    /// The argument as one that is not required.
    pub fn not_required(self) -> (r: Self)
        ensures
            r@ == not_required(self@),
    {
        Parameter {
            name: self.name,
            kind: self.kind,
            description: self.description,
            choices: self.choices,
            required: false,
        }
    }
}

/// A function that is offered to the assistant.
pub struct Tool {
    pub name: String,
    pub description: String,
    pub parameters: Vec<Parameter>,
}

/// What a `Tool` says.
#[verifier::ext_equal]
pub struct ToolView {
    pub name: Seq<char>,
    pub description: Seq<char>,
    pub parameters: Seq<ParameterView>,
}

impl View for Tool {
    type V = ToolView;

    open spec fn view(&self) -> ToolView {
        ToolView {
            name: self.name@,
            description: self.description@,
            parameters: self.parameters@.map_values(|p: Parameter| p@),
        }
    }
}

/// A function with its description and its arguments.
pub open spec fn function(
    name: Seq<char>,
    description: Seq<char>,
    parameters: Seq<ParameterView>,
) -> ToolView {
    ToolView { name, description, parameters }
}

impl Tool {
    /// A function that takes no arguments.
    pub fn new(name: &str, description: &str) -> (r: Self)
        ensures
            r@ == function(name@, description@, seq![]),
    {
        let r = Tool {
            name: name.to_owned(),
            description: description.to_owned(),
            parameters: Vec::new(),
        };
        assert(r@ =~= function(name@, description@, seq![]));
        r
    }

    /// The function with one more argument.
    pub fn taking(self, parameter: Parameter) -> (r: Self)
        ensures
            r@ == function(self@.name, self@.description, self@.parameters.push(parameter@)),
    {
        let mut parameters = self.parameters;
        parameters.push(parameter);
        let r = Tool { name: self.name, description: self.description, parameters };
        assert(r@.parameters =~= self@.parameters.push(parameter@));
        r
    }
}

/// The functions of a list.
pub open spec fn tool_views(v: Seq<Tool>) -> Seq<ToolView> {
    v.map_values(|t: Tool| t@)
}

/// The names of the buttons that control media.
pub open spec fn media_buttons() -> Seq<Seq<char>> {
    seq![
        "MediaStop"@,
        "MediaNextTrack"@,
        "MediaPlayPause"@,
        "MediaPrevTrack"@,
        "VolumeUp"@,
        "VolumeDown"@,
        "VolumeMute"@,
    ]
}

fn media_button_list() -> (r: Vec<String>)
    ensures
        text::texts(r@) == media_buttons(),
{
    let mut v: Vec<String> = Vec::new();
    v.push("MediaStop".to_owned());
    v.push("MediaNextTrack".to_owned());
    v.push("MediaPlayPause".to_owned());
    v.push("MediaPrevTrack".to_owned());
    v.push("VolumeUp".to_owned());
    v.push("VolumeDown".to_owned());
    v.push("VolumeMute".to_owned());
    assert(text::texts(v@) =~= media_buttons());
    v
}

/// The units in which a temperature is given.
pub open spec fn temperature_units() -> Seq<Seq<char>> {
    seq!["Celsius"@, "Fahrenheit"@]
}

fn temperature_unit_list() -> (r: Vec<String>)
    ensures
        text::texts(r@) == temperature_units(),
{
    let mut v: Vec<String> = Vec::new();
    v.push("Celsius".to_owned());
    v.push("Fahrenheit".to_owned());
    assert(text::texts(v@) =~= temperature_units());
    v
}

/// The functions that are offered to the quick assistant.
pub open spec fn quick_functions() -> Seq<ToolView> {
    seq![
        function(
            "set_screen_brightness"@,
            "Sets the brightness of the device's screen."@,
            seq![described(argument("brightness"@, Kind::Text), "The brightness of the screen. A number between 0 and 100."@)],
        ),
        function(
            "media_controls"@,
            "Plays/Pauses/Seeks media."@,
            seq![one_of(argument("media_button"@, Kind::Text), media_buttons())],
        ),
        function(
            "set_volume"@,
            "Sets the system volume on Windows to a value between 0 and 100."@,
            seq![argument("volume"@, Kind::Integer)],
        ),
        function(
            "open_application"@,
            "naively opens an application by pressing the super key to open system search and then types the name of the application and presses enter."@,
            seq![argument("application"@, Kind::Text)],
        ),
        function("open_logs_folder"@, "Opens this program's logging folder in the default file browser for the user to see."@, seq![]),
        function("open_openai_billing"@, "Opens the OpenAI usage dashboard in the default web browser."@, seq![]),
        function("open_assistance_repo"@, "Opens the AI Assistance repository in the default web browser."@, seq![]),
        function("sysinfo"@, "Returns this system's information."@, seq![]),
        function("get_system_processes"@, "Returns this system's processes with their pid, name, start_time, runtime, status, cpu_usage, exe_path and other information."@, seq![]),
        function(
            "kill_processes_with_name"@,
            "Kills all processes with a given name. ALWAYS call \"get_system_processes\" first to get the name of the process you want to kill."@,
            seq![argument("process_name"@, Kind::Text)],
        ),
        function("speedtest"@, "Runs an internet speedtest and returns the results."@, seq![]),
        function(
            "set_timer_at"@,
            "Sets a timer to go off at a specific time. Pass the time as rfc3339 datetime string. Example: \"2024-12-04T00:44:00-08:00\". The description field is optional, add descriptions that will tell you what to remind the user to do, if anything, after the timer goes off."@,
            seq![argument("time"@, Kind::Text), not_required(argument("description"@, Kind::Text))],
        ),
        function("check_on_timers"@, "Displays all timers that are currently set. The time they are set to go off and the duration remaining until they go off."@, seq![]),
        function(
            "delete_timer_by_id"@,
            "Deletes a timer by it's ID. Pass the ID of the timer you want to delete. To get the ID of a timer, call the \"check_on_timers\" function."@,
            seq![argument("timer_id"@, Kind::Integer)],
        ),
        function("show_live_log_stream"@, "Shows live updates of the log file via opening powershell and running 'Get-Content -Path \"path/to/log/file\" -Wait'."@, seq![]),
        function(
            "set_clipboard"@,
            "Sets the clipboard to the given text."@,
            seq![argument("clipboard_text"@, Kind::Text)],
        ),
        function(
            "set_speech_speed"@,
            "Sets how fast the AI voice speaks. Speed must be between 0.5 and 100.0."@,
            seq![argument("speed"@, Kind::Number)],
        ),
        function("get_speech_speed"@, "Returns the current AI voice speech speed."@, seq![]),
        function("mute_speech"@, "Mutes the AI voice so no speech is played."@, seq![]),
        function("unmute_speech"@, "Unmutes the AI voice so responses are spoken again."@, seq![]),
        function(
            "set_voice"@,
            "Changes the AI speaking voice. Pass one of: alloy, echo, fable, onyx, nova, shimmer."@,
            seq![argument("voice"@, Kind::Text)],
        ),
        function("get_voice"@, "Returns the name of the current AI voice."@, seq![]),
        function("get_location"@, "Returns an approximate location based on the machine's IP address."@, seq![]),
        function("list_output_devices"@, "Lists available audio output devices. The default device is marked with '(Default)'."@, seq![]),
        function(
            "set_output_device"@,
            "Sets the audio output device by name. Pass 'Default Audio Output Device' to use the system default."@,
            seq![argument("device_name"@, Kind::Text)],
        ),
    ]
}

/// The functions that are offered to the quick assistant.
#[verifier::rlimit(60)]
pub fn chat_functions() -> (r: Vec<Tool>)
    ensures
        tool_views(r@) == quick_functions(),
{
    let mut v: Vec<Tool> = Vec::new();
    v.push(
        Tool::new(
            "set_screen_brightness",
            "Sets the brightness of the device's screen.",
        ).taking(Parameter::new("brightness", Kind::Text).described("The brightness of the screen. A number between 0 and 100.")),
    );
    v.push(
        Tool::new(
            "media_controls",
            "Plays/Pauses/Seeks media.",
        ).taking(Parameter::new("media_button", Kind::Text).one_of(media_button_list())),
    );
    v.push(
        Tool::new(
            "set_volume",
            "Sets the system volume on Windows to a value between 0 and 100.",
        ).taking(Parameter::new("volume", Kind::Integer)),
    );
    v.push(
        Tool::new(
            "open_application",
            "naively opens an application by pressing the super key to open system search and then types the name of the application and presses enter.",
        ).taking(Parameter::new("application", Kind::Text)),
    );
    v.push(Tool::new("open_logs_folder", "Opens this program's logging folder in the default file browser for the user to see."));
    v.push(Tool::new("open_openai_billing", "Opens the OpenAI usage dashboard in the default web browser."));
    v.push(Tool::new("open_assistance_repo", "Opens the AI Assistance repository in the default web browser."));
    v.push(Tool::new("sysinfo", "Returns this system's information."));
    v.push(Tool::new("get_system_processes", "Returns this system's processes with their pid, name, start_time, runtime, status, cpu_usage, exe_path and other information."));
    v.push(
        Tool::new(
            "kill_processes_with_name",
            "Kills all processes with a given name. ALWAYS call \"get_system_processes\" first to get the name of the process you want to kill.",
        ).taking(Parameter::new("process_name", Kind::Text)),
    );
    v.push(Tool::new("speedtest", "Runs an internet speedtest and returns the results."));
    v.push(
        Tool::new(
            "set_timer_at",
            "Sets a timer to go off at a specific time. Pass the time as rfc3339 datetime string. Example: \"2024-12-04T00:44:00-08:00\". The description field is optional, add descriptions that will tell you what to remind the user to do, if anything, after the timer goes off.",
        ).taking(Parameter::new("time", Kind::Text)).taking(Parameter::new("description", Kind::Text).not_required()),
    );
    v.push(Tool::new("check_on_timers", "Displays all timers that are currently set. The time they are set to go off and the duration remaining until they go off."));
    v.push(
        Tool::new(
            "delete_timer_by_id",
            "Deletes a timer by it's ID. Pass the ID of the timer you want to delete. To get the ID of a timer, call the \"check_on_timers\" function.",
        ).taking(Parameter::new("timer_id", Kind::Integer)),
    );
    v.push(Tool::new("show_live_log_stream", "Shows live updates of the log file via opening powershell and running 'Get-Content -Path \"path/to/log/file\" -Wait'."));
    v.push(
        Tool::new(
            "set_clipboard",
            "Sets the clipboard to the given text.",
        ).taking(Parameter::new("clipboard_text", Kind::Text)),
    );
    v.push(
        Tool::new(
            "set_speech_speed",
            "Sets how fast the AI voice speaks. Speed must be between 0.5 and 100.0.",
        ).taking(Parameter::new("speed", Kind::Number)),
    );
    v.push(Tool::new("get_speech_speed", "Returns the current AI voice speech speed."));
    v.push(Tool::new("mute_speech", "Mutes the AI voice so no speech is played."));
    v.push(Tool::new("unmute_speech", "Unmutes the AI voice so responses are spoken again."));
    v.push(
        Tool::new(
            "set_voice",
            "Changes the AI speaking voice. Pass one of: alloy, echo, fable, onyx, nova, shimmer.",
        ).taking(Parameter::new("voice", Kind::Text)),
    );
    v.push(Tool::new("get_voice", "Returns the name of the current AI voice."));
    v.push(Tool::new("get_location", "Returns an approximate location based on the machine's IP address."));
    v.push(Tool::new("list_output_devices", "Lists available audio output devices. The default device is marked with '(Default)'."));
    v.push(
        Tool::new(
            "set_output_device",
            "Sets the audio output device by name. Pass 'Default Audio Output Device' to use the system default.",
        ).taking(Parameter::new("device_name", Kind::Text)),
    );
    assert(tool_views(v@) =~~= quick_functions());
    v
}

/// The functions that are offered to the assistant of the assistants service.
pub open spec fn offered_tools() -> Seq<ToolView> {
    seq![
        function(
            "get_current_temperature"@,
            "Get the current temperature for a specific location"@,
            seq![described(argument("location"@, Kind::Text), "The city and state, e.g., San Francisco, CA"@), described(one_of(argument("unit"@, Kind::Text), temperature_units()), "The temperature unit to use. Infer this from the user's location."@)],
        ),
        function(
            "get_rain_probability"@,
            "Get the probability of rain for a specific location"@,
            seq![described(argument("location"@, Kind::Text), "The city and state, e.g., San Francisco, CA"@)],
        ),
        function("speedtest"@, "Runs an internet speedtest and returns the results."@, seq![]),
        function(
            "set_screen_brightness"@,
            "Sets the screen brightness from 0 to 100 using the `luster` utility."@,
            seq![argument("brightness"@, Kind::Integer)],
        ),
        function(
            "media_controls"@,
            "Plays, pauses or seeks media."@,
            seq![one_of(argument("media_button"@, Kind::Text), media_buttons())],
        ),
        function(
            "set_clipboard"@,
            "Sets the clipboard to the given text."@,
            seq![argument("clipboard_text"@, Kind::Text)],
        ),
        function("get_clipboard"@, "Returns the current clipboard text."@, seq![]),
        function("open_openai_billing"@, "Opens the OpenAI usage dashboard in the default web browser."@, seq![]),
        function("get_system_info"@, "Returns system information like CPU and memory usage."@, seq![]),
        function(
            "set_speech_speed"@,
            "Sets how fast the AI voice speaks. Speed must be between 0.5 and 100."@,
            seq![argument("speed"@, Kind::Number)],
        ),
        function("get_speech_speed"@, "Returns the current AI voice speech speed."@, seq![]),
        function("mute_speech"@, "Mutes the AI voice output."@, seq![]),
        function("unmute_speech"@, "Unmutes the AI voice output."@, seq![]),
        function(
            "set_voice"@,
            "Changes the AI speaking voice. Pass one of: alloy, ash, coral, echo, fable, onyx, nova, sage, shimmer."@,
            seq![argument("voice"@, Kind::Text)],
        ),
        function("get_voice"@, "Returns the name of the current AI voice."@, seq![]),
    ]
}

/// The functions that are offered to the assistant of the assistants service.
#[verifier::rlimit(60)]
pub fn assistant_tools() -> (r: Vec<Tool>)
    ensures
        tool_views(r@) == offered_tools(),
{
    let mut v: Vec<Tool> = Vec::new();
    v.push(
        Tool::new(
            "get_current_temperature",
            "Get the current temperature for a specific location",
        ).taking(Parameter::new("location", Kind::Text).described("The city and state, e.g., San Francisco, CA")).taking(Parameter::new("unit", Kind::Text).one_of(temperature_unit_list()).described("The temperature unit to use. Infer this from the user's location.")),
    );
    v.push(
        Tool::new(
            "get_rain_probability",
            "Get the probability of rain for a specific location",
        ).taking(Parameter::new("location", Kind::Text).described("The city and state, e.g., San Francisco, CA")),
    );
    v.push(Tool::new("speedtest", "Runs an internet speedtest and returns the results."));
    v.push(
        Tool::new(
            "set_screen_brightness",
            "Sets the screen brightness from 0 to 100 using the `luster` utility.",
        ).taking(Parameter::new("brightness", Kind::Integer)),
    );
    v.push(
        Tool::new(
            "media_controls",
            "Plays, pauses or seeks media.",
        ).taking(Parameter::new("media_button", Kind::Text).one_of(media_button_list())),
    );
    v.push(
        Tool::new(
            "set_clipboard",
            "Sets the clipboard to the given text.",
        ).taking(Parameter::new("clipboard_text", Kind::Text)),
    );
    v.push(Tool::new("get_clipboard", "Returns the current clipboard text."));
    v.push(Tool::new("open_openai_billing", "Opens the OpenAI usage dashboard in the default web browser."));
    v.push(Tool::new("get_system_info", "Returns system information like CPU and memory usage."));
    v.push(
        Tool::new(
            "set_speech_speed",
            "Sets how fast the AI voice speaks. Speed must be between 0.5 and 100.",
        ).taking(Parameter::new("speed", Kind::Number)),
    );
    v.push(Tool::new("get_speech_speed", "Returns the current AI voice speech speed."));
    v.push(Tool::new("mute_speech", "Mutes the AI voice output."));
    v.push(Tool::new("unmute_speech", "Unmutes the AI voice output."));
    v.push(
        Tool::new(
            "set_voice",
            "Changes the AI speaking voice. Pass one of: alloy, ash, coral, echo, fable, onyx, nova, sage, shimmer.",
        ).taking(Parameter::new("voice", Kind::Text)),
    );
    v.push(Tool::new("get_voice", "Returns the name of the current AI voice."));
    assert(tool_views(v@) =~~= offered_tools());
    v
}

/// Every function that is offered to the quick assistant is one that can be called.
pub proof fn quick_functions_are_known(i: int, a: tools::Arguments<Seq<char>>)
    requires
        0 <= i < quick_functions().len(),
    ensures
        !(tools::call_of(quick_functions()[i].name, a) matches Some(c) && c is Unknown),
{
    let name = quick_functions()[i].name;
    if i == 0 {
        assert(name == "set_screen_brightness"@);
    }
    if i == 1 {
        assert(name == "media_controls"@);
    }
    if i == 2 {
        assert(name == "set_volume"@);
    }
    if i == 3 {
        assert(name == "open_application"@);
    }
    if i == 4 {
        assert(name == "open_logs_folder"@);
    }
    if i == 5 {
        assert(name == "open_openai_billing"@);
    }
    if i == 6 {
        assert(name == "open_assistance_repo"@);
    }
    if i == 7 {
        assert(name == "sysinfo"@);
    }
    if i == 8 {
        assert(name == "get_system_processes"@);
    }
    if i == 9 {
        assert(name == "kill_processes_with_name"@);
    }
    if i == 10 {
        assert(name == "speedtest"@);
    }
    if i == 11 {
        assert(name == "set_timer_at"@);
    }
    if i == 12 {
        assert(name == "check_on_timers"@);
    }
    if i == 13 {
        assert(name == "delete_timer_by_id"@);
    }
    if i == 14 {
        assert(name == "show_live_log_stream"@);
    }
    if i == 15 {
        assert(name == "set_clipboard"@);
    }
    if i == 16 {
        assert(name == "set_speech_speed"@);
    }
    if i == 17 {
        assert(name == "get_speech_speed"@);
    }
    if i == 18 {
        assert(name == "mute_speech"@);
    }
    if i == 19 {
        assert(name == "unmute_speech"@);
    }
    if i == 20 {
        assert(name == "set_voice"@);
    }
    if i == 21 {
        assert(name == "get_voice"@);
    }
    if i == 22 {
        assert(name == "get_location"@);
    }
    if i == 23 {
        assert(name == "list_output_devices"@);
    }
    if i == 24 {
        assert(name == "set_output_device"@);
    }
}

/// Every function that is offered to the assistant of the assistants service is one that
/// is answered.
pub proof fn offered_tools_are_known(i: int, a: assistant::RequiredArguments<Seq<char>>)
    requires
        0 <= i < offered_tools().len(),
    ensures
        !(assistant::required_of(offered_tools()[i].name, a) is Unknown),
{
    let name = offered_tools()[i].name;
    if i == 0 {
        assert(name == "get_current_temperature"@);
    }
    if i == 1 {
        assert(name == "get_rain_probability"@);
    }
    if i == 2 {
        assert(name == "speedtest"@);
    }
    if i == 3 {
        assert(name == "set_screen_brightness"@);
    }
    if i == 4 {
        assert(name == "media_controls"@);
    }
    if i == 5 {
        assert(name == "set_clipboard"@);
    }
    if i == 6 {
        assert(name == "get_clipboard"@);
    }
    if i == 7 {
        assert(name == "open_openai_billing"@);
    }
    if i == 8 {
        assert(name == "get_system_info"@);
    }
    if i == 9 {
        assert(name == "set_speech_speed"@);
    }
    if i == 10 {
        assert(name == "get_speech_speed"@);
    }
    if i == 11 {
        assert(name == "mute_speech"@);
    }
    if i == 12 {
        assert(name == "unmute_speech"@);
    }
    if i == 13 {
        assert(name == "set_voice"@);
    }
    if i == 14 {
        assert(name == "get_voice"@);
    }
}

/// No function is answered but those that are offered to the assistant of the assistants
/// service.
pub proof fn only_offered_tools_are_known(
    name: Seq<char>,
    a: assistant::RequiredArguments<Seq<char>>,
)
    requires
        !(assistant::required_of(name, a) is Unknown),
    ensures
        exists|i: int| 0 <= i < offered_tools().len() && #[trigger] offered_tools()[i].name == name,
{
    assert(offered_tools()[0].name == "get_current_temperature"@);
    assert(offered_tools()[1].name == "get_rain_probability"@);
    assert(offered_tools()[2].name == "speedtest"@);
    assert(offered_tools()[3].name == "set_screen_brightness"@);
    assert(offered_tools()[4].name == "media_controls"@);
    assert(offered_tools()[5].name == "set_clipboard"@);
    assert(offered_tools()[6].name == "get_clipboard"@);
    assert(offered_tools()[7].name == "open_openai_billing"@);
    assert(offered_tools()[8].name == "get_system_info"@);
    assert(offered_tools()[9].name == "set_speech_speed"@);
    assert(offered_tools()[10].name == "get_speech_speed"@);
    assert(offered_tools()[11].name == "mute_speech"@);
    assert(offered_tools()[12].name == "unmute_speech"@);
    assert(offered_tools()[13].name == "set_voice"@);
    assert(offered_tools()[14].name == "get_voice"@);
}

/// Every button that is offered is one that can be pressed.
pub proof fn offered_buttons_are_known(i: int)
    requires
        0 <= i < media_buttons().len(),
    ensures
        tools::button_named(media_buttons()[i]) is Some,
{
}

/// Whether an argument that the quick assistant is told of is the one that is read of a call
/// of the function, as a value of its kind.
pub open spec fn is_read(fn_name: Seq<char>, p: ParameterView, fn_args: Seq<char>) -> bool {
    let read = tools::arguments_in(fn_name, fn_args);
    if !p.required {
        p.kind is Text && read.description == json::json_text(fn_args, p.name)
    } else {
        match p.kind {
            Kind::Text => read.text == json::json_text(fn_args, p.name),
            Kind::Integer => read.unsigned == json::json_unsigned(fn_args, p.name),
            Kind::Number => read.number == json::json_number(fn_args, p.name),
        }
    }
}

/// What a function of the quick assistant is said to take is what is read of its calls, and
/// nothing is read of the calls of the others.
#[verifier::spinoff_prover]
#[verifier::rlimit(60)]
pub proof fn arguments_are_read_as_offered(i: int, k: int, fn_args: Seq<char>)
    requires
        0 <= i < quick_functions().len(),
    ensures
        ({
            let f = quick_functions()[i];
            let read = tools::arguments_in(f.name, fn_args);
            &&& 0 <= k < f.parameters.len() ==> is_read(f.name, f.parameters[k], fn_args)
            &&& f.parameters.len() == 0 ==> read.text is None && read.description is None
                && read.unsigned is None && read.number is None
            &&& f.parameters.len() > 0 ==> f.parameters[0].required
            &&& (f.parameters.len() > 1 <==> i == 11)
        }),
{
    reveal_strlit("set_screen_brightness");
    assert("set_screen_brightness"@.len() == 21);
    reveal_strlit("media_controls");
    assert("media_controls"@.len() == 14);
    reveal_strlit("set_volume");
    assert("set_volume"@.len() == 10);
    reveal_strlit("open_application");
    assert("open_application"@.len() == 16);
    reveal_strlit("open_logs_folder");
    assert("open_logs_folder"@.len() == 16);
    reveal_strlit("open_openai_billing");
    assert("open_openai_billing"@.len() == 19);
    reveal_strlit("open_assistance_repo");
    assert("open_assistance_repo"@.len() == 20);
    reveal_strlit("sysinfo");
    assert("sysinfo"@.len() == 7);
    reveal_strlit("get_system_processes");
    assert("get_system_processes"@.len() == 20);
    reveal_strlit("kill_processes_with_name");
    assert("kill_processes_with_name"@.len() == 24);
    reveal_strlit("speedtest");
    assert("speedtest"@.len() == 9);
    reveal_strlit("set_timer_at");
    assert("set_timer_at"@.len() == 12);
    reveal_strlit("check_on_timers");
    assert("check_on_timers"@.len() == 15);
    reveal_strlit("delete_timer_by_id");
    assert("delete_timer_by_id"@.len() == 18);
    reveal_strlit("show_live_log_stream");
    assert("show_live_log_stream"@.len() == 20);
    reveal_strlit("set_clipboard");
    assert("set_clipboard"@.len() == 13);
    reveal_strlit("set_speech_speed");
    assert("set_speech_speed"@.len() == 16);
    reveal_strlit("get_speech_speed");
    assert("get_speech_speed"@.len() == 16);
    reveal_strlit("mute_speech");
    assert("mute_speech"@.len() == 11);
    reveal_strlit("unmute_speech");
    assert("unmute_speech"@.len() == 13);
    reveal_strlit("set_voice");
    assert("set_voice"@.len() == 9);
    reveal_strlit("get_voice");
    assert("get_voice"@.len() == 9);
    reveal_strlit("get_location");
    assert("get_location"@.len() == 12);
    reveal_strlit("list_output_devices");
    assert("list_output_devices"@.len() == 19);
    reveal_strlit("set_output_device");
    assert("set_output_device"@.len() == 17);
    assert("open_application"@[5] != "open_logs_folder"@[5]);
    assert("open_application"@[0] != "set_speech_speed"@[0]);
    assert("open_application"@[0] != "get_speech_speed"@[0]);
    assert("open_logs_folder"@[0] != "set_speech_speed"@[0]);
    assert("open_logs_folder"@[0] != "get_speech_speed"@[0]);
    assert("open_openai_billing"@[0] != "list_output_devices"@[0]);
    assert("open_assistance_repo"@[0] != "get_system_processes"@[0]);
    assert("open_assistance_repo"@[0] != "show_live_log_stream"@[0]);
    assert("get_system_processes"@[0] != "show_live_log_stream"@[0]);
    assert("speedtest"@[1] != "set_voice"@[1]);
    assert("speedtest"@[0] != "get_voice"@[0]);
    assert("set_timer_at"@[0] != "get_location"@[0]);
    assert("set_clipboard"@[0] != "unmute_speech"@[0]);
    assert("set_speech_speed"@[0] != "get_speech_speed"@[0]);
    assert("set_voice"@[0] != "get_voice"@[0]);
    let f = quick_functions()[i];
    if i == 0 {
        assert(f.name == "set_screen_brightness"@);
    }
    if i == 1 {
        assert(f.name == "media_controls"@);
    }
    if i == 2 {
        assert(f.name == "set_volume"@);
    }
    if i == 3 {
        assert(f.name == "open_application"@);
    }
    if i == 4 {
        assert(f.name == "open_logs_folder"@);
    }
    if i == 5 {
        assert(f.name == "open_openai_billing"@);
    }
    if i == 6 {
        assert(f.name == "open_assistance_repo"@);
    }
    if i == 7 {
        assert(f.name == "sysinfo"@);
    }
    if i == 8 {
        assert(f.name == "get_system_processes"@);
    }
    if i == 9 {
        assert(f.name == "kill_processes_with_name"@);
    }
    if i == 10 {
        assert(f.name == "speedtest"@);
    }
    if i == 11 {
        assert(f.name == "set_timer_at"@);
    }
    if i == 12 {
        assert(f.name == "check_on_timers"@);
    }
    if i == 13 {
        assert(f.name == "delete_timer_by_id"@);
    }
    if i == 14 {
        assert(f.name == "show_live_log_stream"@);
    }
    if i == 15 {
        assert(f.name == "set_clipboard"@);
    }
    if i == 16 {
        assert(f.name == "set_speech_speed"@);
    }
    if i == 17 {
        assert(f.name == "get_speech_speed"@);
    }
    if i == 18 {
        assert(f.name == "mute_speech"@);
    }
    if i == 19 {
        assert(f.name == "unmute_speech"@);
    }
    if i == 20 {
        assert(f.name == "set_voice"@);
    }
    if i == 21 {
        assert(f.name == "get_voice"@);
    }
    if i == 22 {
        assert(f.name == "get_location"@);
    }
    if i == 23 {
        assert(f.name == "list_output_devices"@);
    }
    if i == 24 {
        assert(f.name == "set_output_device"@);
    }
}

/// No function can be called but those that are offered to the quick assistant.
pub proof fn only_quick_functions_are_known(name: Seq<char>, a: tools::Arguments<Seq<char>>)
    requires
        !(tools::call_of(name, a) matches Some(c) && c is Unknown),
    ensures
        exists|i: int|
            0 <= i < quick_functions().len() && #[trigger] quick_functions()[i].name == name,
{
    assert(quick_functions()[0].name == "set_screen_brightness"@);
    assert(quick_functions()[1].name == "media_controls"@);
    assert(quick_functions()[2].name == "set_volume"@);
    assert(quick_functions()[3].name == "open_application"@);
    assert(quick_functions()[4].name == "open_logs_folder"@);
    assert(quick_functions()[5].name == "open_openai_billing"@);
    assert(quick_functions()[6].name == "open_assistance_repo"@);
    assert(quick_functions()[7].name == "sysinfo"@);
    assert(quick_functions()[8].name == "get_system_processes"@);
    assert(quick_functions()[9].name == "kill_processes_with_name"@);
    assert(quick_functions()[10].name == "speedtest"@);
    assert(quick_functions()[11].name == "set_timer_at"@);
    assert(quick_functions()[12].name == "check_on_timers"@);
    assert(quick_functions()[13].name == "delete_timer_by_id"@);
    assert(quick_functions()[14].name == "show_live_log_stream"@);
    assert(quick_functions()[15].name == "set_clipboard"@);
    assert(quick_functions()[16].name == "set_speech_speed"@);
    assert(quick_functions()[17].name == "get_speech_speed"@);
    assert(quick_functions()[18].name == "mute_speech"@);
    assert(quick_functions()[19].name == "unmute_speech"@);
    assert(quick_functions()[20].name == "set_voice"@);
    assert(quick_functions()[21].name == "get_voice"@);
    assert(quick_functions()[22].name == "get_location"@);
    assert(quick_functions()[23].name == "list_output_devices"@);
    assert(quick_functions()[24].name == "set_output_device"@);
}

/// No button can be pressed but those that are offered.
pub proof fn only_offered_buttons_are_known(name: Seq<char>)
    requires
        tools::button_named(name) is Some,
    ensures
        media_buttons().contains(name),
{
    assert(media_buttons()[0] == "MediaStop"@);
    assert(media_buttons()[1] == "MediaNextTrack"@);
    assert(media_buttons()[2] == "MediaPlayPause"@);
    assert(media_buttons()[3] == "MediaPrevTrack"@);
    assert(media_buttons()[4] == "VolumeUp"@);
    assert(media_buttons()[5] == "VolumeDown"@);
    assert(media_buttons()[6] == "VolumeMute"@);
}

/// What a function of the assistants service is said to take is what is read of its calls, as
/// a value of its kind. The weather is told without looking at the arguments.
#[verifier::spinoff_prover]
#[verifier::rlimit(60)]
pub proof fn required_arguments_are_read_as_offered(i: int, arguments: Seq<char>)
    requires
        0 <= i < offered_tools().len(),
    ensures
        ({
            let f = offered_tools()[i];
            let read = assistant::required_arguments_in(f.name, arguments);
            &&& i >= 2 && f.parameters.len() > 0 ==> f.parameters.len() == 1
                && f.parameters[0].required && match f.parameters[0].kind {
                Kind::Text => read.text == json::json_text(arguments, f.parameters[0].name),
                Kind::Integer => read.signed == json::json_signed(arguments, f.parameters[0].name)
                    && read.number == json::json_number(arguments, f.parameters[0].name),
                Kind::Number => read.number == json::json_number(arguments, f.parameters[0].name),
            }
            &&& i < 2 || f.parameters.len() == 0 ==> read.text is None && read.signed is None
                && read.number is None
        }),
{
    reveal_strlit("get_current_temperature");
    assert("get_current_temperature"@.len() == 23);
    reveal_strlit("get_rain_probability");
    assert("get_rain_probability"@.len() == 20);
    reveal_strlit("speedtest");
    assert("speedtest"@.len() == 9);
    reveal_strlit("set_screen_brightness");
    assert("set_screen_brightness"@.len() == 21);
    reveal_strlit("media_controls");
    assert("media_controls"@.len() == 14);
    reveal_strlit("set_clipboard");
    assert("set_clipboard"@.len() == 13);
    reveal_strlit("get_clipboard");
    assert("get_clipboard"@.len() == 13);
    reveal_strlit("open_openai_billing");
    assert("open_openai_billing"@.len() == 19);
    reveal_strlit("get_system_info");
    assert("get_system_info"@.len() == 15);
    reveal_strlit("set_speech_speed");
    assert("set_speech_speed"@.len() == 16);
    reveal_strlit("get_speech_speed");
    assert("get_speech_speed"@.len() == 16);
    reveal_strlit("mute_speech");
    assert("mute_speech"@.len() == 11);
    reveal_strlit("unmute_speech");
    assert("unmute_speech"@.len() == 13);
    reveal_strlit("set_voice");
    assert("set_voice"@.len() == 9);
    reveal_strlit("get_voice");
    assert("get_voice"@.len() == 9);
    assert("speedtest"@[1] != "set_voice"@[1]);
    assert("speedtest"@[0] != "get_voice"@[0]);
    assert("set_clipboard"@[0] != "get_clipboard"@[0]);
    assert("set_clipboard"@[0] != "unmute_speech"@[0]);
    assert("get_clipboard"@[0] != "unmute_speech"@[0]);
    assert("set_speech_speed"@[0] != "get_speech_speed"@[0]);
    assert("set_voice"@[0] != "get_voice"@[0]);
    let f = offered_tools()[i];
    if i == 0 {
        assert(f.name == "get_current_temperature"@);
    }
    if i == 1 {
        assert(f.name == "get_rain_probability"@);
    }
    if i == 2 {
        assert(f.name == "speedtest"@);
    }
    if i == 3 {
        assert(f.name == "set_screen_brightness"@);
    }
    if i == 4 {
        assert(f.name == "media_controls"@);
    }
    if i == 5 {
        assert(f.name == "set_clipboard"@);
    }
    if i == 6 {
        assert(f.name == "get_clipboard"@);
    }
    if i == 7 {
        assert(f.name == "open_openai_billing"@);
    }
    if i == 8 {
        assert(f.name == "get_system_info"@);
    }
    if i == 9 {
        assert(f.name == "set_speech_speed"@);
    }
    if i == 10 {
        assert(f.name == "get_speech_speed"@);
    }
    if i == 11 {
        assert(f.name == "mute_speech"@);
    }
    if i == 12 {
        assert(f.name == "unmute_speech"@);
    }
    if i == 13 {
        assert(f.name == "set_voice"@);
    }
    if i == 14 {
        assert(f.name == "get_voice"@);
    }
}

} // verus!
