//! The assistant that runs on the assistants service: the calls that a run asks for,
//! and the events of its stream.

use crate::json;
use crate::programs;
use crate::speakstream;
use crate::speakstream::{SpeakStream, SpeakStreamView};
use crate::strings;
use crate::text;
use crate::tools;
use crate::tools::MediaButton;
use crate::voice;
use vstd::prelude::*;

verus! {

// ---------------------------------------------------------------- calls

/// What the arguments of a call hold, as far as the function that is called reads them.
pub struct RequiredArguments<S> {
    /// The text that the function takes.
    pub text: Option<S>,
    /// The integer that the function takes.
    pub signed: Option<i64>,
    /// The number that the function takes, as it is printed.
    pub number: Option<S>,
}

/// Arguments with their texts as sequences of characters.
pub open spec fn required_arguments_view(a: RequiredArguments<String>) -> RequiredArguments<
    Seq<char>,
> {
    RequiredArguments {
        text: text::optional(a.text),
        signed: a.signed,
        number: text::optional(a.number),
    }
}

/// What a call asks for.
pub enum RequiredCall<S> {
    /// The call is answered with a text, and nothing is done.
    Answer(S),
    SetClipboard(S),
    GetClipboard,
    SetScreenBrightness(u32),
    /// The button that is asked for is missing if there is no such button.
    MediaControls(Option<MediaButton>),
    OpenOpenaiBilling,
    Speedtest,
    /// The speed is given as the number is printed. If it is missing, it is normal.
    SetSpeechSpeed(Option<S>),
    GetSpeechSpeed,
    MuteSpeech,
    UnmuteSpeech,
    SetVoice(S),
    GetSystemInfo,
    GetVoice,
    /// There is no such function. The call is not answered.
    Unknown,
}

/// A call with its texts as sequences of characters.
pub open spec fn required_view(c: RequiredCall<String>) -> RequiredCall<Seq<char>> {
    match c {
        RequiredCall::Answer(s) => RequiredCall::Answer(s@),
        RequiredCall::SetClipboard(s) => RequiredCall::SetClipboard(s@),
        RequiredCall::GetClipboard => RequiredCall::GetClipboard,
        RequiredCall::SetScreenBrightness(n) => RequiredCall::SetScreenBrightness(n),
        RequiredCall::MediaControls(button) => RequiredCall::MediaControls(button),
        RequiredCall::OpenOpenaiBilling => RequiredCall::OpenOpenaiBilling,
        RequiredCall::Speedtest => RequiredCall::Speedtest,
        RequiredCall::SetSpeechSpeed(s) => RequiredCall::SetSpeechSpeed(text::optional(s)),
        RequiredCall::GetSpeechSpeed => RequiredCall::GetSpeechSpeed,
        RequiredCall::MuteSpeech => RequiredCall::MuteSpeech,
        RequiredCall::UnmuteSpeech => RequiredCall::UnmuteSpeech,
        RequiredCall::SetVoice(s) => RequiredCall::SetVoice(s@),
        RequiredCall::GetSystemInfo => RequiredCall::GetSystemInfo,
        RequiredCall::GetVoice => RequiredCall::GetVoice,
        RequiredCall::Unknown => RequiredCall::Unknown,
    }
}

/// The key under which a function takes a text.
pub open spec fn text_key(name: Seq<char>) -> Option<Seq<char>> {
    if name == "set_clipboard"@ {
        Some("clipboard_text"@)
    } else if name == "media_controls"@ {
        Some("media_button"@)
    } else if name == "set_voice"@ {
        Some("voice"@)
    } else {
        None
    }
}

/// What a function reads of the arguments of its call.
pub open spec fn required_arguments_in(name: Seq<char>, arguments: Seq<char>) -> RequiredArguments<
    Seq<char>,
> {
    RequiredArguments {
        text: match text_key(name) {
            Some(key) => json::json_text(arguments, key),
            None => None,
        },
        signed: if name == "set_screen_brightness"@ {
            json::json_signed(arguments, "brightness"@)
        } else {
            None
        },
        number: if name == "set_screen_brightness"@ {
            json::json_number(arguments, "brightness"@)
        } else if name == "set_speech_speed"@ {
            json::json_number(arguments, "speed"@)
        } else {
            None
        },
    }
}

/// Reads the arguments of a call.
pub fn read_required_arguments(name: &str, arguments: &str) -> (r: RequiredArguments<String>)
    ensures
        required_arguments_view(r) == required_arguments_in(name@, arguments@),
        json::json_error(arguments@) is Some ==> r.text is None && r.signed is None
            && r.number is None,
{
    let mut text: Option<String> = None;
    let mut signed: Option<i64> = None;
    let mut number: Option<String> = None;
    if strings::same_text(name, "set_clipboard") {
        text = json::text_at(arguments, "clipboard_text");
    } else if strings::same_text(name, "media_controls") {
        text = json::text_at(arguments, "media_button");
    } else if strings::same_text(name, "set_voice") {
        text = json::text_at(arguments, "voice");
    }
    if strings::same_text(name, "set_screen_brightness") {
        signed = json::signed_at(arguments, "brightness");
        number = json::number_at(arguments, "brightness");
    } else if strings::same_text(name, "set_speech_speed") {
        number = json::number_at(arguments, "speed");
    }
    RequiredArguments { text, signed, number }
}

/// A text, or the empty text if it is missing.
pub open spec fn or_empty(s: Option<Seq<char>>) -> Seq<char> {
    match s {
        Some(t) => t,
        None => seq![],
    }
}

/// The brightness that is asked for: an integer from 0 to 100. There is none where another
/// integer is asked for, and it is 0 where no integer is.
pub open spec fn brightness_of(a: RequiredArguments<Seq<char>>) -> Option<u32> {
    match a.signed {
        Some(b) => if 0 <= b <= 100 {
            Some(b as u32)
        } else {
            None
        },
        None => match a.number {
            Some(n) if json::integer_text(n) => None,
            _ => Some(0),
        },
    }
}

/// What a call asks for.
pub open spec fn required_of(name: Seq<char>, a: RequiredArguments<Seq<char>>) -> RequiredCall<
    Seq<char>,
> {
    if name == "get_current_temperature"@ {
        RequiredCall::Answer("57"@)
    } else if name == "get_rain_probability"@ {
        RequiredCall::Answer("0.06"@)
    } else if name == "set_clipboard"@ {
        RequiredCall::SetClipboard(or_empty(a.text))
    } else if name == "get_clipboard"@ {
        RequiredCall::GetClipboard
    } else if name == "set_screen_brightness"@ {
        match brightness_of(a) {
            Some(b) => RequiredCall::SetScreenBrightness(b),
            None => RequiredCall::Answer(
                "Failed to set brightness: Brightness must be between 0 and 100"@,
            ),
        }
    } else if name == "media_controls"@ {
        RequiredCall::MediaControls(tools::button_named(or_empty(a.text)))
    } else if name == "open_openai_billing"@ {
        RequiredCall::OpenOpenaiBilling
    } else if name == "speedtest"@ {
        RequiredCall::Speedtest
    } else if name == "set_speech_speed"@ {
        RequiredCall::SetSpeechSpeed(a.number)
    } else if name == "get_speech_speed"@ {
        RequiredCall::GetSpeechSpeed
    } else if name == "mute_speech"@ {
        RequiredCall::MuteSpeech
    } else if name == "unmute_speech"@ {
        RequiredCall::UnmuteSpeech
    } else if name == "set_voice"@ {
        RequiredCall::SetVoice(or_empty(a.text))
    } else if name == "get_system_info"@ {
        RequiredCall::GetSystemInfo
    } else if name == "get_voice"@ {
        RequiredCall::GetVoice
    } else {
        RequiredCall::Unknown
    }
}

fn text_or_empty(s: Option<String>) -> (r: String)
    ensures
        r@ == or_empty(text::optional(s)),
{
    match s {
        Some(t) => t,
        None => String::new(),
    }
}

fn asked_brightness(signed: Option<i64>, number: &Option<String>) -> (r: Option<u32>)
    ensures
        r == brightness_of(
            RequiredArguments { text: None, signed, number: text::optional(*number) },
        ),
{
    match signed {
        Some(b) => if 0 <= b && b <= 100 {
            Some(b as u32)
        } else {
            None
        },
        None => match number {
            Some(n) => if json::is_integer(n.as_str()) {
                None
            } else {
                Some(0)
            },
            None => Some(0),
        },
    }
}

/// What a call asks for, from what its arguments hold.
pub fn required_call(name: &str, a: RequiredArguments<String>) -> (r: RequiredCall<String>)
    ensures
        required_view(r) == required_of(name@, required_arguments_view(a)),
{
    if strings::same_text(name, "get_current_temperature") {
        RequiredCall::Answer("57".to_owned())
    } else if strings::same_text(name, "get_rain_probability") {
        RequiredCall::Answer("0.06".to_owned())
    } else if strings::same_text(name, "set_clipboard") {
        RequiredCall::SetClipboard(text_or_empty(a.text))
    } else if strings::same_text(name, "get_clipboard") {
        RequiredCall::GetClipboard
    } else if strings::same_text(name, "set_screen_brightness") {
        match asked_brightness(a.signed, &a.number) {
            Some(b) => RequiredCall::SetScreenBrightness(b),
            None => RequiredCall::Answer(
                "Failed to set brightness: Brightness must be between 0 and 100".to_owned(),
            ),
        }
    } else if strings::same_text(name, "media_controls") {
        let button = text_or_empty(a.text);
        RequiredCall::MediaControls(tools::media_button(button.as_str()))
    } else if strings::same_text(name, "open_openai_billing") {
        RequiredCall::OpenOpenaiBilling
    } else if strings::same_text(name, "speedtest") {
        RequiredCall::Speedtest
    } else if strings::same_text(name, "set_speech_speed") {
        RequiredCall::SetSpeechSpeed(a.number)
    } else if strings::same_text(name, "get_speech_speed") {
        RequiredCall::GetSpeechSpeed
    } else if strings::same_text(name, "mute_speech") {
        RequiredCall::MuteSpeech
    } else if strings::same_text(name, "unmute_speech") {
        RequiredCall::UnmuteSpeech
    } else if strings::same_text(name, "set_voice") {
        RequiredCall::SetVoice(text_or_empty(a.text))
    } else if strings::same_text(name, "get_system_info") {
        RequiredCall::GetSystemInfo
    } else if strings::same_text(name, "get_voice") {
        RequiredCall::GetVoice
    } else {
        RequiredCall::Unknown
    }
}

/// What a call that a run requires asks for. Arguments that cannot be read are as if they
/// were missing.
pub fn handle_requires_action(name: &str, arguments: &str) -> (r: RequiredCall<String>)
    ensures
        required_view(r) == required_of(name@, required_arguments_in(name@, arguments@)),
        json::json_error(arguments@) is Some ==> required_view(r) == required_of(
            name@,
            RequiredArguments { text: None, signed: None, number: None },
        ),
{
    required_call(name, read_required_arguments(name, arguments))
}

/// The screen is never set to a brightness outside 0 to 100, and who asks for one is not
/// told that it was set.
pub proof fn brightness_is_in_range(name: Seq<char>, a: RequiredArguments<Seq<char>>)
    ensures
        required_of(name, a) matches RequiredCall::SetScreenBrightness(b) ==> b <= 100,
        name == "set_screen_brightness"@ && a.signed is Some && !(0 <= a.signed->0 <= 100) ==> (
        required_of(name, a) matches RequiredCall::Answer(t) && t != "Brightness set"@),
{
    reveal_strlit("get_current_temperature");
    reveal_strlit("get_rain_probability");
    reveal_strlit("set_clipboard");
    reveal_strlit("get_clipboard");
    reveal_strlit("set_screen_brightness");
    reveal_strlit("Brightness set");
    reveal_strlit("Failed to set brightness: Brightness must be between 0 and 100");
    assert("set_screen_brightness"@.len() == 21);
    assert("get_current_temperature"@.len() == 23);
    assert("get_rain_probability"@.len() == 20);
    assert("set_clipboard"@.len() == 13);
    assert("get_clipboard"@.len() == 13);
    assert("Brightness set"@.len() == 14);
    assert("Failed to set brightness: Brightness must be between 0 and 100"@.len() == 62);
}

// ---------------------------------------------------------------- answers

/// What is told of the clipboard that was to be set.
pub fn clipboard_set_answer(error: &Option<String>) -> (r: String)
    ensures
        r@ == (match error {
            None => "Clipboard set"@,
            Some(e) => "Failed to set clipboard: "@ + e@,
        }),
{
    match error {
        None => "Clipboard set".to_owned(),
        Some(e) => programs::prefixed("Failed to set clipboard: ", e.as_str()),
    }
}

/// How it went to read the clipboard.
pub enum ClipboardRead<S> {
    /// It holds this text.
    Held(S),
    /// There is no clipboard to read.
    NotOpened(S),
    /// It could not be read.
    NotRead(S),
}

/// The text on the clipboard, or why there is none.
pub fn get_clipboard_string(read: ClipboardRead<String>) -> (r: Result<String, String>)
    ensures
        match read {
            ClipboardRead::Held(held) => r matches Ok(t) && t@ == held@,
            ClipboardRead::NotOpened(e) => r matches Err(m) && m@
                == "Failed to initialize clipboard: "@ + e@,
            ClipboardRead::NotRead(e) => r matches Err(m) && m@
                == "Failed to read clipboard contents: "@ + e@,
        },
{
    match read {
        ClipboardRead::Held(held) => Ok(held),
        ClipboardRead::NotOpened(e) => Err(
            programs::prefixed("Failed to initialize clipboard: ", e.as_str()),
        ),
        ClipboardRead::NotRead(e) => Err(
            programs::prefixed("Failed to read clipboard contents: ", e.as_str()),
        ),
    }
}

/// What is told of the clipboard that was read.
pub fn clipboard_read_answer(contents: Result<String, String>) -> (r: String)
    ensures
        r@ == (match contents {
            Ok(t) => t@,
            Err(e) => e@,
        }),
{
    match contents {
        Ok(t) => t,
        Err(e) => e,
    }
}

/// The speed at which the voice is asked to speak, by the bits of a single-precision
/// number: the normal one, unless a number is given.
pub fn asked_speed(speed: Option<u32>) -> (r: u32)
    ensures
        r == (match speed {
            Some(bits) => bits,
            None => programs::NORMAL_SPEED,
        }),
{
    match speed {
        Some(bits) => bits,
        None => programs::NORMAL_SPEED,
    }
}

/// What is told of the brightness of the screen.
pub fn brightness_answer(error: &Option<String>) -> (r: String)
    ensures
        r@ == (match error {
            None => "Brightness set"@,
            Some(e) => "Failed to set brightness: "@ + e@,
        }),
{
    match error {
        None => "Brightness set".to_owned(),
        Some(e) => programs::prefixed("Failed to set brightness: ", e.as_str()),
    }
}

/// The name of a button.
pub open spec fn button_name(button: MediaButton) -> Seq<char> {
    match button {
        MediaButton::Stop => "MediaStop"@,
        MediaButton::NextTrack => "MediaNextTrack"@,
        MediaButton::PlayPause => "MediaPlayPause"@,
        MediaButton::PrevTrack => "MediaPrevTrack"@,
        MediaButton::VolumeUp => "VolumeUp"@,
        MediaButton::VolumeDown => "VolumeDown"@,
        MediaButton::VolumeMute => "VolumeMute"@,
    }
}

/// What is told of a button: its name, if there is such a button.
pub fn media_answer(button: Option<MediaButton>) -> (r: String)
    ensures
        r@ == (match button {
            Some(b) => button_name(b),
            None => "Unknown button"@,
        }),
{
    match button {
        Some(MediaButton::Stop) => "MediaStop".to_owned(),
        Some(MediaButton::NextTrack) => "MediaNextTrack".to_owned(),
        Some(MediaButton::PlayPause) => "MediaPlayPause".to_owned(),
        Some(MediaButton::PrevTrack) => "MediaPrevTrack".to_owned(),
        Some(MediaButton::VolumeUp) => "VolumeUp".to_owned(),
        Some(MediaButton::VolumeDown) => "VolumeDown".to_owned(),
        Some(MediaButton::VolumeMute) => "VolumeMute".to_owned(),
        None => "Unknown button".to_owned(),
    }
}

/// A button is told by the name by which it was asked for.
pub proof fn button_is_told_by_its_name(name: Seq<char>)
    requires
        tools::button_named(name) is Some,
    ensures
        button_name(tools::button_named(name)->0) == name,
{
}

/// What is told of the page of the service's costs.
pub fn billing_answer(error: &Option<String>) -> (r: String)
    ensures
        r@ == (match error {
            None => "Opened OpenAI billing page"@,
            Some(e) => "Failed to open OpenAI billing page: "@ + e@,
        }),
{
    match error {
        None => "Opened OpenAI billing page".to_owned(),
        Some(e) => programs::prefixed("Failed to open OpenAI billing page: ", e.as_str()),
    }
}

/// Sets the voice that speaks by its name, in small or capital letters.
pub fn set_voice(speech: &mut SpeakStream, name: &str) -> (r: String)
    requires
        old(speech).well_formed(),
    ensures
        final(speech).well_formed(),
        final(speech)@ == tools::voice_set(
            old(speech)@,
            voice::named(strings::lowercase(name@)),
        ),
        r@ == tools::voice_set_text(
            strings::lowercase(name@),
            voice::named(strings::lowercase(name@)),
        ),
        vstd::utf8::is_ascii_chars(name@) ==> strings::lowercase(name@) == strings::ascii_lowercase(
            name@,
        ),
{
    let lower = strings::to_lowercase(name);
    let chosen = voice::voice_named(lower.as_str());
    tools::set_chosen_voice(speech, lower.as_str(), chosen)
}

/// Tells which voice speaks.
pub fn get_voice(speech: &SpeakStream) -> (r: String)
    ensures
        r@ == voice::name_of(speech@.voice),
{
    let v = speech.get_voice();
    voice::assistant_voice_to_str(&v).to_owned()
}

/// A voice that was set by its name is told by that name.
pub proof fn voice_set_is_told(speech: SpeakStreamView, lower: Seq<char>)
    requires
        voice::named(lower) is Some,
    ensures
        voice::name_of(tools::voice_set(speech, voice::named(lower)).voice) == lower,
{
    voice::voice_has_name(lower);
}

// ---------------------------------------------------------------- outputs

/// The answer to a call, with the id of the call.
pub struct ToolOutput<S> {
    pub tool_call_id: S,
    pub output: S,
}

/// Answers with their texts as sequences of characters.
pub open spec fn output_views(v: Seq<ToolOutput<String>>) -> Seq<ToolOutput<Seq<char>>> {
    v.map_values(
        |o: ToolOutput<String>| ToolOutput { tool_call_id: o.tool_call_id@, output: o.output@ },
    )
}

/// The calls of a list.
pub open spec fn required_views(v: Seq<RequiredCall<String>>) -> Seq<RequiredCall<Seq<char>>> {
    v.map_values(|c: RequiredCall<String>| required_view(c))
}

/// What is submitted for the first `n` calls: what is told of each, in order, with the id of
/// the call. Nothing is for a call of a function that there is not.
pub open spec fn outputs_of(
    ids: Seq<Seq<char>>,
    calls: Seq<RequiredCall<Seq<char>>>,
    told: Seq<Seq<char>>,
    n: nat,
) -> Seq<ToolOutput<Seq<char>>>
    decreases n,
{
    if n == 0 {
        seq![]
    } else {
        let rest = outputs_of(ids, calls, told, (n - 1) as nat);
        if calls[n - 1] is Unknown {
            rest
        } else {
            rest.push(ToolOutput { tool_call_id: ids[n - 1], output: told[n - 1] })
        }
    }
}

/// Whether a call is answered: there is such a function.
pub fn is_answered(call: &RequiredCall<String>) -> (r: bool)
    ensures
        r == !(*call is Unknown),
        r == !(required_view(*call) is Unknown),
{
    match call {
        RequiredCall::Unknown => false,
        _ => true,
    }
}

/// The answers to the calls that a run requires, as they are submitted, from what is told
/// of each call.
pub fn tool_outputs(
    ids: &Vec<String>,
    calls: &Vec<RequiredCall<String>>,
    told: &Vec<String>,
) -> (r: Vec<ToolOutput<String>>)
    requires
        ids.len() == calls.len(),
        ids.len() == told.len(),
    ensures
        output_views(r@) == outputs_of(
            text::texts(ids@),
            required_views(calls@),
            text::texts(told@),
            ids@.len(),
        ),
{
    let ghost (all, asked, said) = (
        text::texts(ids@),
        required_views(calls@),
        text::texts(told@),
    );
    let mut outputs: Vec<ToolOutput<String>> = Vec::new();
    let mut i: usize = 0;
    assert(output_views(outputs@) =~= outputs_of(all, asked, said, 0));
    while i < ids.len()
        invariant
            i <= ids.len(),
            ids.len() == calls.len(),
            ids.len() == told.len(),
            all == text::texts(ids@),
            asked == required_views(calls@),
            said == text::texts(told@),
            output_views(outputs@) == outputs_of(all, asked, said, i as nat),
        decreases ids.len() - i,
    {
        let ghost before = output_views(outputs@);
        assert(asked[i as int] == required_view(calls@[i as int]));
        if is_answered(&calls[i]) {
            outputs.push(
                ToolOutput { tool_call_id: ids[i].clone(), output: told[i].clone() },
            );
            assert(output_views(outputs@) =~= before.push(
                ToolOutput { tool_call_id: all[i as int], output: said[i as int] },
            ));
        }
        i = i + 1;
    }
    outputs
}

/// How many of the first `n` calls are of functions that there are.
pub open spec fn known_calls(calls: Seq<RequiredCall<Seq<char>>>, n: nat) -> nat
    decreases n,
{
    if n == 0 {
        0
    } else if calls[n - 1] is Unknown {
        known_calls(calls, (n - 1) as nat)
    } else {
        known_calls(calls, (n - 1) as nat) + 1
    }
}

/// Every call of a function that there is gets exactly one output, with its id, and the
/// outputs are in the order of the calls. No other call gets one.
pub proof fn known_calls_are_answered_once(
    ids: Seq<Seq<char>>,
    calls: Seq<RequiredCall<Seq<char>>>,
    told: Seq<Seq<char>>,
    n: nat,
)
    ensures
        outputs_of(ids, calls, told, n).len() == known_calls(calls, n),
        forall|i: int|
            0 <= i < n && !(#[trigger] calls[i] is Unknown) ==> known_calls(calls, i as nat)
                < known_calls(calls, n) && outputs_of(ids, calls, told, n)[known_calls(
                calls,
                i as nat,
            ) as int] == (ToolOutput { tool_call_id: ids[i], output: told[i] }),
    decreases n,
{
    if n > 0 {
        known_calls_are_answered_once(ids, calls, told, (n - 1) as nat);
    }
}

// ---------------------------------------------------------------- the stream of a run

/// What comes on the stream of a run.
pub enum StreamEvent<S> {
    /// The state of a run, by its id, and whether it requires that calls are answered.
    Run { id: S, requires_action: bool },
    /// The texts that were added to a message.
    Texts(Vec<S>),
    /// An error.
    Error(S),
    /// Something else.
    Other,
}

/// What is done about an event.
pub enum StreamStep<S> {
    /// The stream is left, and the run with this id is cancelled, if there is one.
    Leave { cancel: Option<S> },
    /// The calls that the run requires are answered.
    Act,
    /// The texts are printed, after the label of the assistant if `label`.
    Print { label: bool },
    /// The error is printed.
    PrintError,
    /// Nothing is done.
    Nothing,
}

/// A step with its text as a sequence of characters.
pub open spec fn step_view(s: StreamStep<String>) -> StreamStep<Seq<char>> {
    match s {
        StreamStep::Leave { cancel } => StreamStep::Leave { cancel: text::optional(cancel) },
        StreamStep::Act => StreamStep::Act,
        StreamStep::Print { label } => StreamStep::Print { label },
        StreamStep::PrintError => StreamStep::PrintError,
        StreamStep::Nothing => StreamStep::Nothing,
    }
}

/// What is known of the stream of a run.
pub struct RunStream {
    pub run_id: Option<String>,
    pub displayed_ai_label: bool,
}

/// What is known of the stream of a run, with its text as a sequence of characters.
#[verifier::ext_equal]
pub struct RunStreamView {
    pub run_id: Option<Seq<char>>,
    pub displayed_ai_label: bool,
}

impl View for RunStream {
    type V = RunStreamView;

    open spec fn view(&self) -> RunStreamView {
        RunStreamView {
            run_id: text::optional(self.run_id),
            displayed_ai_label: self.displayed_ai_label,
        }
    }
}

/// Speech after some tokens were added to it, one after the other.
pub open spec fn all_added(speech: SpeakStreamView, tokens: Seq<Seq<char>>) -> SpeakStreamView
    decreases tokens.len(),
{
    if tokens.len() == 0 {
        speech
    } else {
        speakstream::token_added(all_added(speech, tokens.drop_last()), tokens.last())
    }
}

/// The first run that a stream tells of is the one that it is about.
pub open spec fn run_seen(s: RunStreamView, id: Seq<char>) -> RunStreamView {
    RunStreamView {
        run_id: match s.run_id {
            Some(first) => Some(first),
            None => Some(id),
        },
        ..s
    }
}

fn add_all(speech: &mut SpeakStream, tokens: &Vec<String>)
    requires
        old(speech).well_formed(),
    ensures
        final(speech).well_formed(),
        final(speech)@ == all_added(old(speech)@, text::texts(tokens@)),
{
    let mut i: usize = 0;
    let ghost all = text::texts(tokens@);
    assert(all.take(0) =~= seq![]);
    while i < tokens.len()
        invariant
            i <= tokens.len(),
            all == text::texts(tokens@),
            speech.well_formed(),
            speech@ == all_added(old(speech)@, all.take(i as int)),
        decreases tokens.len() - i,
    {
        speech.add_token(tokens[i].as_str());
        proof {
            assert(all.take(i + 1).drop_last() =~= all.take(i as int));
            assert(all.take(i + 1).last() == tokens@[i as int]@);
        }
        i = i + 1;
    }
    assert(all.take(i as int) =~= all);
}

impl RunStream {
    /// A stream of which nothing has come.
    pub fn new() -> (r: Self)
        ensures
            r@ == (RunStreamView { run_id: None, displayed_ai_label: false }),
    {
        RunStream { run_id: None, displayed_ai_label: false }
    }

    /// Takes an event. If the user has interrupted, the stream is left, and the event
    /// is lost. What the assistant says is spoken.
    pub fn step(
        &mut self,
        speech: &mut SpeakStream,
        interrupted: bool,
        event: &StreamEvent<String>,
    ) -> (r: StreamStep<String>)
        requires
            old(speech).well_formed(),
        ensures
            final(speech).well_formed(),
            final(speech)@ == (match event {
                StreamEvent::Texts(texts) if !interrupted => all_added(
                    old(speech)@,
                    text::texts(texts@),
                ),
                _ => old(speech)@,
            }),
            final(self)@ == (match event {
                StreamEvent::Run { id, requires_action } if !interrupted => run_seen(
                    old(self)@,
                    id@,
                ),
                StreamEvent::Texts(texts) if !interrupted && texts@.len() > 0 => RunStreamView {
                    displayed_ai_label: true,
                    ..old(self)@
                },
                _ => old(self)@,
            }),
            step_view(r) == (if interrupted {
                StreamStep::Leave { cancel: old(self)@.run_id }
            } else {
                match event {
                    StreamEvent::Run { id, requires_action } => if *requires_action {
                        StreamStep::Act
                    } else {
                        StreamStep::Nothing
                    },
                    StreamEvent::Texts(texts) => StreamStep::Print {
                        label: texts@.len() > 0 && !old(self)@.displayed_ai_label,
                    },
                    StreamEvent::Error(_) => StreamStep::PrintError,
                    StreamEvent::Other => StreamStep::Nothing,
                }
            }),
            r is Leave <==> interrupted,
            interrupted ==> final(self)@ == old(self)@ && final(speech)@ == old(speech)@,
            r is Act ==> (event matches StreamEvent::Run { id, requires_action }
                && *requires_action),
            r is Print <==> !interrupted && event is Texts,
            r matches StreamStep::Print { label } && label ==> !old(self)@.displayed_ai_label
                && final(self)@.displayed_ai_label,
            old(self)@.displayed_ai_label ==> final(self)@.displayed_ai_label,
            old(self)@.run_id is Some ==> final(self)@.run_id == old(self)@.run_id,
            !(event is Texts) ==> final(speech)@ == old(speech)@,
    {
        if interrupted {
            let cancel = match &self.run_id {
                Some(id) => Some(id.clone()),
                None => None,
            };
            return StreamStep::Leave { cancel };
        }
        match event {
            StreamEvent::Run { id, requires_action } => {
                if self.run_id.is_none() {
                    self.run_id = Some(id.clone());
                }
                if *requires_action {
                    StreamStep::Act
                } else {
                    StreamStep::Nothing
                }
            },
            StreamEvent::Texts(texts) => {
                let label = texts.len() > 0 && !self.displayed_ai_label;
                if texts.len() > 0 {
                    self.displayed_ai_label = true;
                }
                add_all(speech, texts);
                StreamStep::Print { label }
            },
            StreamEvent::Error(_) => StreamStep::PrintError,
            StreamEvent::Other => StreamStep::Nothing,
        }
    }
}

/// A run that was interrupted is the first one that the stream told of.
pub proof fn first_run_is_kept(s: RunStreamView, first: Seq<char>, later: Seq<char>)
    requires
        s.run_id is None,
    ensures
        run_seen(run_seen(s, first), later).run_id == Some(first),
{
}

// ---------------------------------------------------------------- laws of calls

/// Every function of the assistants service asks for its own thing, by its name, and no other
/// name asks for anything.
#[verifier::spinoff_prover]
#[verifier::rlimit(60)]
pub proof fn functions_ask_for_their_own(name: Seq<char>, a: RequiredArguments<Seq<char>>)
    ensures
        name == "get_current_temperature"@ ==> required_of(name, a) is Answer,
        name == "get_rain_probability"@ ==> required_of(name, a) is Answer,
        name == "set_clipboard"@ ==> required_of(name, a) is SetClipboard,
        name == "get_clipboard"@ ==> required_of(name, a) is GetClipboard,
        name == "set_screen_brightness"@ ==> required_of(name, a) is SetScreenBrightness || required_of(name, a) is Answer,
        name == "media_controls"@ ==> required_of(name, a) is MediaControls,
        name == "open_openai_billing"@ ==> required_of(name, a) is OpenOpenaiBilling,
        name == "speedtest"@ ==> required_of(name, a) is Speedtest,
        name == "set_speech_speed"@ ==> required_of(name, a) is SetSpeechSpeed,
        name == "get_speech_speed"@ ==> required_of(name, a) is GetSpeechSpeed,
        name == "mute_speech"@ ==> required_of(name, a) is MuteSpeech,
        name == "unmute_speech"@ ==> required_of(name, a) is UnmuteSpeech,
        name == "set_voice"@ ==> required_of(name, a) is SetVoice,
        name == "get_system_info"@ ==> required_of(name, a) is GetSystemInfo,
        name == "get_voice"@ ==> required_of(name, a) is GetVoice,
        name == "get_current_temperature"@ ==> required_of(name, a) == RequiredCall::Answer("57"@),
        name == "get_rain_probability"@ ==> required_of(name, a) == RequiredCall::Answer("0.06"@),
        name == "set_screen_brightness"@ ==> (required_of(name, a) is Answer <==> brightness_of(
            a,
        ) is None),
        required_of(name, a) is Unknown <==> {
            &&& name != "get_current_temperature"@
            &&& name != "get_rain_probability"@
            &&& name != "set_clipboard"@
            &&& name != "get_clipboard"@
            &&& name != "set_screen_brightness"@
            &&& name != "media_controls"@
            &&& name != "open_openai_billing"@
            &&& name != "speedtest"@
            &&& name != "set_speech_speed"@
            &&& name != "get_speech_speed"@
            &&& name != "mute_speech"@
            &&& name != "unmute_speech"@
            &&& name != "set_voice"@
            &&& name != "get_system_info"@
            &&& name != "get_voice"@
        },
{
    reveal_strlit("get_current_temperature");
    assert("get_current_temperature"@.len() == 23);
    reveal_strlit("get_rain_probability");
    assert("get_rain_probability"@.len() == 20);
    reveal_strlit("set_clipboard");
    assert("set_clipboard"@.len() == 13);
    reveal_strlit("get_clipboard");
    assert("get_clipboard"@.len() == 13);
    reveal_strlit("set_screen_brightness");
    assert("set_screen_brightness"@.len() == 21);
    reveal_strlit("media_controls");
    assert("media_controls"@.len() == 14);
    reveal_strlit("open_openai_billing");
    assert("open_openai_billing"@.len() == 19);
    reveal_strlit("speedtest");
    assert("speedtest"@.len() == 9);
    reveal_strlit("set_speech_speed");
    assert("set_speech_speed"@.len() == 16);
    reveal_strlit("get_speech_speed");
    assert("get_speech_speed"@.len() == 16);
    reveal_strlit("mute_speech");
    assert("mute_speech"@.len() == 11);
    reveal_strlit("unmute_speech");
    assert("unmute_speech"@.len() == 13);
    reveal_strlit("set_voice");
    assert("set_voice"@.len() == 9);
    reveal_strlit("get_system_info");
    assert("get_system_info"@.len() == 15);
    reveal_strlit("get_voice");
    assert("get_voice"@.len() == 9);
    assert("set_clipboard"@[0] != "get_clipboard"@[0]);
    assert("set_clipboard"@[0] != "unmute_speech"@[0]);
    assert("get_clipboard"@[0] != "unmute_speech"@[0]);
    assert("speedtest"@[1] != "set_voice"@[1]);
    assert("speedtest"@[0] != "get_voice"@[0]);
    assert("set_speech_speed"@[0] != "get_speech_speed"@[0]);
    assert("set_voice"@[0] != "get_voice"@[0]);
}

/// What a call of the assistants service asks for is what its arguments say.
pub proof fn required_arguments_are_handed_on(name: Seq<char>, a: RequiredArguments<Seq<char>>)
    ensures
        match required_of(name, a) {
            RequiredCall::SetClipboard(t) => t == (if a.text is Some {
                a.text->0
            } else {
                seq![]
            }),
            RequiredCall::SetVoice(t) => t == (if a.text is Some {
                a.text->0
            } else {
                seq![]
            }),
            RequiredCall::SetScreenBrightness(b) => a.signed == Some(b as i64) || a.signed is None
                && b == 0,
            RequiredCall::SetSpeechSpeed(n) => n == a.number,
            RequiredCall::MediaControls(button) => a.text is Some ==> button
                == tools::button_named(a.text->0),
            _ => true,
        },
{
}

/// A brightness from 0 to 100 is asked for as it is, and no other integer is.
pub proof fn brightness_is_taken_as_it_is(a: RequiredArguments<Seq<char>>)
    ensures
        a.signed matches Some(b) && 0 <= b <= 100 ==> brightness_of(a) == Some(
            a.signed->0 as u32,
        ),
        a.signed matches Some(b) && !(0 <= b <= 100) ==> brightness_of(a) is None,
        a.signed is None && a.number is None ==> brightness_of(a) == Some(0u32),
        a.signed is None && a.number is Some ==> (brightness_of(a) is None <==> json::integer_text(
            a.number->0,
        )) && (brightness_of(a) matches Some(b) ==> b == 0),
{
}

/// What comes in several texts is spoken as if it had come in one.
pub proof fn texts_are_spoken_in_order(
    speech: SpeakStreamView,
    a: Seq<Seq<char>>,
    b: Seq<Seq<char>>,
    t: Seq<char>,
)
    ensures
        all_added(speech, a + b) == all_added(all_added(speech, a), b),
        all_added(speech, seq![t]) == speakstream::token_added(speech, t),
    decreases b.len(),
{
    let one = seq![t];
    assert(one.drop_last() =~= Seq::<Seq<char>>::empty());
    assert(all_added(speech, one.drop_last()) == speech);
    if b.len() == 0 {
        assert(a + b =~= a);
    } else {
        texts_are_spoken_in_order(speech, a, b.drop_last(), t);
        assert((a + b).drop_last() =~= a + b.drop_last());
        assert((a + b).last() == b.last());
    }
}

/// A call of a function that there is not gets no output, and changes none of the others; any
/// other gets what is told of it, last.
pub proof fn unknown_calls_get_no_output(
    ids: Seq<Seq<char>>,
    calls: Seq<RequiredCall<Seq<char>>>,
    told: Seq<Seq<char>>,
    n: nat,
)
    requires
        n < calls.len(),
        calls.len() == ids.len(),
        calls.len() == told.len(),
    ensures
        calls[n as int] is Unknown ==> outputs_of(ids, calls, told, n + 1) == outputs_of(
            ids,
            calls,
            told,
            n,
        ),
        !(calls[n as int] is Unknown) ==> {
            let after = outputs_of(ids, calls, told, n + 1);
            &&& after.drop_last() == outputs_of(ids, calls, told, n)
            &&& after.last().tool_call_id == ids[n as int]
            &&& after.last().output == told[n as int]
        },
        outputs_of(ids, calls, told, 0).len() == 0,
{
    let before = outputs_of(ids, calls, told, n);
    assert(before.push(
        ToolOutput { tool_call_id: ids[n as int], output: told[n as int] },
    ).drop_last() =~= before);
}

} // verus!
