//! The programs that the assistant runs: their arguments, and what their outcomes mean.

use crate::paths;
use crate::text;
use crate::unique;
use vstd::prelude::*;

verus! {

/// How running a program went.
#[derive(Clone, Copy, Debug, PartialEq, Eq, Structural)]
pub enum RunOutcome {
    /// It ran and reported success.
    Succeeded,
    /// It ran and reported a failure.
    Unsuccessful,
    /// There is no such program.
    NotFound,
    /// It could not be run for another reason.
    NotRun,
}

// ---------------------------------------------------------------- ffmpeg

/// The arguments with which `ffmpeg` speeds up a clip of speech by a factor.
pub open spec fn speed_args(input: Seq<char>, output: Seq<char>, speed: Seq<char>) -> Seq<
    Seq<char>,
> {
    seq![
        "-y"@,
        "-i"@,
        input,
        "-codec:a"@,
        "libmp3lame"@,
        "-b:a"@,
        "160k"@,
        "-filter:a"@,
        "atempo="@ + speed,
        "-vn"@,
        output,
    ]
}

/// The arguments with which `ffmpeg` speeds up a clip of speech by a factor. Without
/// a codec and a bit rate the quality of the clip would decrease.
pub fn adjust_audio_file_speed(input: &str, output: &str, speed: &str) -> (r: Vec<String>)
    ensures
        text::texts(r@) == speed_args(input@, output@, speed@),
{
    let mut filter = "atempo=".to_owned();
    filter.append(speed);
    let mut args: Vec<String> = Vec::new();
    args.push("-y".to_owned());
    args.push("-i".to_owned());
    args.push(input.to_owned());
    args.push("-codec:a".to_owned());
    args.push("libmp3lame".to_owned());
    args.push("-b:a".to_owned());
    args.push("160k".to_owned());
    args.push("-filter:a".to_owned());
    args.push(filter);
    args.push("-vn".to_owned());
    args.push(output.to_owned());
    assert(text::texts(args@) =~= speed_args(input@, output@, speed@));
    args
}

/// Why a clip could not be sped up, if it could not.
pub fn speed_adjusted(outcome: RunOutcome) -> (r: Option<String>)
    ensures
        text::optional(r) == (match outcome {
            RunOutcome::Succeeded => None,
            RunOutcome::NotFound => Some(
                "ffmpeg not found. Please install ffmpeg and add it to your PATH"@,
            ),
            _ => Some("ffmpeg failed to adjust audio speed"@),
        }),
{
    match outcome {
        RunOutcome::Succeeded => None,
        RunOutcome::NotFound => Some(
            "ffmpeg not found. Please install ffmpeg and add it to your PATH".to_owned(),
        ),
        _ => Some("ffmpeg failed to adjust audio speed".to_owned()),
    }
}

/// Why two paths cannot be handed to a program, if one of them is no text.
pub open spec fn paths_refused(input: Option<Seq<char>>, output: Option<Seq<char>>) -> Option<
    Seq<char>,
> {
    if input is None {
        Some("Failed to convert input path to string"@)
    } else if output is None {
        Some("Failed to convert output path to string"@)
    } else {
        None
    }
}

/// A list of arguments, or why there is none.
pub open spec fn args_view(r: Result<Vec<String>, String>) -> Result<Seq<Seq<char>>, Seq<char>> {
    match r {
        Ok(args) => Ok(text::texts(args@)),
        Err(message) => Err(message@),
    }
}

/// The name of the file that a conversion writes, made unlike any other by `unique`.
pub fn converted_file_name(unique: &str, output_ext: &str) -> (r: String)
    ensures
        r@ == "converted-"@ + unique@ + "."@ + output_ext@,
{
    let mut name = "converted-".to_owned();
    name.append(unique);
    name.append(".");
    name.append(output_ext);
    name
}

/// Whether a text is the name of a file that a conversion writes, with a random UUID.
pub open spec fn is_converted_name(name: Seq<char>, output_ext: Seq<char>) -> bool {
    exists|u: Seq<char>|
        #[trigger] unique::is_uuid(u) && name == "converted-"@ + u + "."@ + output_ext
}

/// The name of the file that a conversion writes. It is random, so that no other file is
/// overwritten.
pub fn new_converted_file_name(output_ext: &str) -> (r: String)
    ensures
        is_converted_name(r@, output_ext@),
{
    let u = unique::random_uuid();
    converted_file_name(u.as_str(), output_ext)
}

/// The name of the file that a conversion writes starts with `converted-`, ends in the
/// extension that was asked for, and is a single name if that extension is: the file
/// stands directly in the directory that it is written to.
pub proof fn converted_name_has_its_shape(name: Seq<char>, output_ext: Seq<char>)
    requires
        is_converted_name(name, output_ext),
        paths::is_one_name(output_ext),
    ensures
        "converted-"@.is_prefix_of(name),
        ("."@ + output_ext).is_suffix_of(name),
        paths::is_one_name(name),
{
    reveal_strlit("converted-");
    reveal_strlit(".");
    let u = choose|u: Seq<char>|
        #[trigger] unique::is_uuid(u) && name == "converted-"@ + u + "."@ + output_ext;
    assert(name.take(10) =~= "converted-"@);
    assert(name.skip(46) =~= "."@ + output_ext);
    assert forall|i: int| 0 <= i < name.len() implies !paths::is_separator(
        #[trigger] name[i],
    ) by {
        if i < 10 {
            assert(name[i] == "converted-"@[i]);
        } else if i < 46 {
            assert(name[i] == u[i - 10]);
        } else if i > 46 {
            assert(name[i] == output_ext[i - 47]);
        }
    }
}

/// Conversions with different UUIDs write to different files, and none of them writes to
/// a file that has no such name.
pub proof fn conversions_overwrite_nothing(
    one: Seq<char>,
    other: Seq<char>,
    output_ext: Seq<char>,
    input: Seq<char>,
)
    requires
        unique::is_uuid(one),
        unique::is_uuid(other),
        one != other,
        !is_converted_name(input, output_ext),
    ensures
        "converted-"@ + one + "."@ + output_ext != "converted-"@ + other + "."@ + output_ext,
        "converted-"@ + one + "."@ + output_ext != input,
{
    reveal_strlit("converted-");
    let a = "converted-"@ + one + "."@ + output_ext;
    let b = "converted-"@ + other + "."@ + output_ext;
    assert(a.subrange(10, 46) =~= one);
    assert(b.subrange(10, 46) =~= other);
}

/// The arguments with which `ffmpeg` converts one file to another. A path that is no
/// text is missing here.
pub fn convert_with_ffmpeg(input: Option<String>, output: Option<String>) -> (r: Result<
    Vec<String>,
    String,
>)
    ensures
        args_view(r) == (match paths_refused(text::optional(input), text::optional(output)) {
            Some(message) => Err(message),
            None => Ok(seq!["-y"@, "-i"@, input->0@, output->0@]),
        }),
{
    match input {
        None => Err("Failed to convert input path to string".to_owned()),
        Some(from) => match output {
            None => Err("Failed to convert output path to string".to_owned()),
            Some(to) => {
                let ghost wanted = seq!["-y"@, "-i"@, from@, to@];
                let mut args: Vec<String> = Vec::new();
                args.push("-y".to_owned());
                args.push("-i".to_owned());
                args.push(from);
                args.push(to);
                assert(text::texts(args@) =~= wanted);
                Ok(args)
            },
        },
    }
}

/// Why a file could not be converted, if it could not.
pub fn converted(outcome: RunOutcome) -> (r: Option<String>)
    ensures
        text::optional(r) == (match outcome {
            RunOutcome::Succeeded => None,
            RunOutcome::Unsuccessful => Some("ffmpeg failed to convert file"@),
            _ => Some("Failed to execute ffmpeg"@),
        }),
{
    match outcome {
        RunOutcome::Succeeded => None,
        RunOutcome::Unsuccessful => Some("ffmpeg failed to convert file".to_owned()),
        _ => Some("Failed to execute ffmpeg".to_owned()),
    }
}

/// Convert the file currently stored in the clipboard to `output_ext` and put the
/// resulting file back on the clipboard. Only Windows can do this.
pub fn convert_clipboard_file(output_ext: &str) -> (r: Result<String, String>)
    ensures
        r matches Err(message) && message@
            == "convert_clipboard_file is only supported on Windows"@,
{
    Err("convert_clipboard_file is only supported on Windows".to_owned())
}

/// Whether a recording has to be made an mp3 before it is transcribed: its extension,
/// if it has one, says that it is something else. An mp3 keeps below the size that the
/// service accepts.
pub fn needs_mp3(extension: &Option<String>) -> (r: bool)
    ensures
        r == (text::optional(*extension) != Some("mp3"@)),
{
    match extension {
        Some(e) => !crate::strings::same_text(e.as_str(), "mp3"),
        None => true,
    }
}

/// How audio is moved to mp3: the path that it is moved to, and the arguments with which
/// `ffmpeg` moves it there.
pub struct Mp3Move {
    pub path: String,
    pub args: Vec<String>,
}

/// The arguments with which `ffmpeg` moves audio to an mp3 at a path.
pub open spec fn mp3_args(input: Seq<char>, path: Seq<char>) -> Seq<Seq<char>> {
    seq!["-i"@, input, "-q:a"@, "0"@, "-map"@, "a"@, path]
}

/// How audio is moved to an mp3 at a path.
pub fn mp3_move(input: String, path: String) -> (r: Mp3Move)
    ensures
        r.path@ == path@,
        text::texts(r.args@) == mp3_args(input@, path@),
{
    let ghost wanted = mp3_args(input@, path@);
    let mut args: Vec<String> = Vec::new();
    args.push("-i".to_owned());
    args.push(input);
    args.push("-q:a".to_owned());
    args.push("0".to_owned());
    args.push("-map".to_owned());
    args.push("a".to_owned());
    args.push(path.clone());
    assert(text::texts(args@) =~= wanted);
    Mp3Move { path, args }
}

/// How audio is moved to mp3. Ignores output's extension if it is passed one: `ffmpeg`
/// gets the path with the extension `mp3`. A path that is no text is missing here.
pub fn move_audio_to_mp3(input: Option<String>, output: Option<String>) -> (r: Result<
    Mp3Move,
    String,
>)
    ensures
        match paths_refused(text::optional(input), text::optional(output)) {
            Some(message) => r matches Err(e) && e@ == message,
            None => r matches Ok(m) && paths::has_new_extension(output->0@, "mp3"@, m.path@)
                && text::texts(m.args@) == mp3_args(input->0@, m.path@),
        },
{
    match input {
        None => Err("Failed to convert input path to string".to_owned()),
        Some(from) => match output {
            None => Err("Failed to convert output path to string".to_owned()),
            Some(to) => {
                proof {
                    reveal_strlit("mp3");
                }
                let path = paths::with_extension(to.as_str(), "mp3");
                Ok(mp3_move(from, path))
            },
        },
    }
}

/// What became of moving audio to mp3.
pub enum Moved<S> {
    /// It was moved to this path.
    Done(S),
    /// It could not be moved.
    Failed(S),
    /// The assistant cannot work at all.
    Fatal(S),
}

/// An outcome with its text as a sequence of characters.
pub open spec fn moved_view(m: Moved<String>) -> Moved<Seq<char>> {
    match m {
        Moved::Done(path) => Moved::Done(path@),
        Moved::Failed(s) => Moved::Failed(s@),
        Moved::Fatal(s) => Moved::Fatal(s@),
    }
}

/// What the outcome of `ffmpeg` means for moving audio to mp3 at `path`. Returns the new
/// path.
pub fn moved_to_mp3(path: String, outcome: RunOutcome) -> (r: Moved<String>)
    ensures
        moved_view(r) == (match outcome {
            RunOutcome::Succeeded => Moved::Done(path@),
            RunOutcome::NotFound => Moved::Fatal(
                "ffmpeg not found. Please install ffmpeg and add it to your PATH"@,
            ),
            _ => Moved::Failed("ffmpeg failed to convert audio"@),
        }),
{
    match outcome {
        RunOutcome::Succeeded => Moved::Done(path),
        RunOutcome::NotFound => Moved::Fatal(
            "ffmpeg not found. Please install ffmpeg and add it to your PATH".to_owned(),
        ),
        _ => Moved::Failed("ffmpeg failed to convert audio".to_owned()),
    }
}

// ---------------------------------------------------------------- text to speech

/// How a step that waits for a service went.
pub enum Attempt<S> {
    /// It was done.
    Done,
    /// It failed, with this error.
    Failed(S),
    /// It took too long, with this error.
    TimedOut(S),
}

/// An attempt with its text as a sequence of characters.
pub open spec fn attempt_view(a: Attempt<String>) -> Attempt<Seq<char>> {
    match a {
        Attempt::Done => Attempt::Done,
        Attempt::Failed(s) => Attempt::Failed(s@),
        Attempt::TimedOut(s) => Attempt::TimedOut(s@),
    }
}

/// The steps that turn a text into a clip of speech.
#[derive(Clone, Copy, Debug, PartialEq, Eq, Structural)]
pub enum SpeechStep {
    /// Ask the service for the speech.
    Request,
    /// Save the speech to a file.
    Save,
    /// Change the speed of the clip.
    AdjustSpeed,
    /// The clip is there.
    Finished,
}

/// The bits of the single-precision number 1.0.
pub const NORMAL_SPEED: u32 = 0x3f80_0000;

/// The step after `step`, or why there is no clip. The speed is given by the bits of a
/// single-precision number.
pub open spec fn speech_step_after(
    step: SpeechStep,
    outcome: Attempt<Seq<char>>,
    speed: u32,
) -> Result<SpeechStep, Seq<char>> {
    match step {
        SpeechStep::Request => match outcome {
            Attempt::Done => Ok(SpeechStep::Save),
            Attempt::Failed(e) => Err("Failed to turn text to speech: "@ + e),
            Attempt::TimedOut(e) => Err("Failed to turn text to speech due to timeout: "@ + e),
        },
        SpeechStep::Save => match outcome {
            Attempt::Done => if speed != NORMAL_SPEED {
                Ok(SpeechStep::AdjustSpeed)
            } else {
                Ok(SpeechStep::Finished)
            },
            Attempt::Failed(e) => Err("Failed to save ai speech to file: "@ + e),
            Attempt::TimedOut(e) => Err("Failed to save ai speech to file due to timeout: "@ + e),
        },
        SpeechStep::AdjustSpeed => Ok(SpeechStep::Finished),
        SpeechStep::Finished => Ok(SpeechStep::Finished),
    }
}

/// The step of turning a text into speech that follows on `step`, or why there is no clip.
pub fn turn_text_to_speech(step: SpeechStep, outcome: &Attempt<String>, speed: u32) -> (r: Result<
    SpeechStep,
    String,
>)
    ensures
        (match r {
            Ok(next) => Ok(next),
            Err(message) => Err(message@),
        }) == speech_step_after(step, attempt_view(*outcome), speed),
{
    match step {
        SpeechStep::Request => match outcome {
            Attempt::Done => Ok(SpeechStep::Save),
            Attempt::Failed(e) => Err(prefixed("Failed to turn text to speech: ", e.as_str())),
            Attempt::TimedOut(e) => Err(
                prefixed("Failed to turn text to speech due to timeout: ", e.as_str()),
            ),
        },
        SpeechStep::Save => match outcome {
            Attempt::Done => {
                if speed != NORMAL_SPEED {
                    Ok(SpeechStep::AdjustSpeed)
                } else {
                    Ok(SpeechStep::Finished)
                }
            },
            Attempt::Failed(e) => Err(prefixed("Failed to save ai speech to file: ", e.as_str())),
            Attempt::TimedOut(e) => Err(
                prefixed("Failed to save ai speech to file due to timeout: ", e.as_str()),
            ),
        },
        SpeechStep::AdjustSpeed => Ok(SpeechStep::Finished),
        SpeechStep::Finished => Ok(SpeechStep::Finished),
    }
}

/// A text with another in front of it.
pub fn prefixed(prefix: &str, s: &str) -> (r: String)
    ensures
        r@ == prefix@ + s@,
{
    let mut out = prefix.to_owned();
    out.append(s);
    out
}

// ---------------------------------------------------------------- the speed test

/// What a program wrote, or why it could not be run.
pub enum ProgramOutput<S> {
    /// It ran and wrote this.
    Wrote(S),
    /// There is no such program.
    NotFound,
    /// It could not be run for another reason, with this error.
    NotRun(S),
}

/// The result of the speed test.
pub fn speedtest(output: ProgramOutput<String>) -> (r: Result<String, String>)
    ensures
        match output {
            ProgramOutput::Wrote(text) => r matches Ok(t) && t@ == text@,
            ProgramOutput::NotFound => r matches Err(e) && e@
                == "speedtest-rs not found. Please install speedtest-rs and add it to your PATH. You can do this by running `cargo install speedtest-rs`"@,
            ProgramOutput::NotRun(error) => r matches Err(e) && e@
                == "Failed to run speedtest-rs: "@ + error@,
        },
{
    match output {
        ProgramOutput::Wrote(text) => Ok(text),
        ProgramOutput::NotFound => Err(
            "speedtest-rs not found. Please install speedtest-rs and add it to your PATH. You can do this by running `cargo install speedtest-rs`".to_owned(),
        ),
        ProgramOutput::NotRun(error) => Err(
            prefixed("Failed to run speedtest-rs: ", error.as_str()),
        ),
    }
}

/// What the assistant is told of the result of a speed test.
pub fn speedtest_report(result: &Result<String, String>) -> (r: String)
    ensures
        r@ == (match result {
            Ok(text) => "Speedtest results: "@ + text@,
            Err(error) => "Speedtest failed with error: "@ + error@,
        }),
{
    match result {
        Ok(text) => prefixed("Speedtest results: ", text.as_str()),
        Err(error) => prefixed("Speedtest failed with error: ", error.as_str()),
    }
}

// ---------------------------------------------------------------- the live log

/// The arguments with which `cmd` shows what is appended to a file. A path that is no
/// text is missing here.
pub fn run_get_content_wait_on_file(file_path: Option<String>) -> (r: Result<Vec<String>, String>)
    ensures
        args_view(r) == (match text::optional(file_path) {
            None => Err("Failed to convert file path to string"@),
            Some(path) => Ok(
                seq![
                    "/C"@,
                    "start"@,
                    "powershell"@,
                    "-NoExit"@,
                    "-Command"@,
                    "Get-Content"@,
                    "\""@ + path + "\""@,
                    "-Wait"@,
                ],
            ),
        }),
{
    match file_path {
        None => Err("Failed to convert file path to string".to_owned()),
        Some(path) => {
            let mut quoted = "\"".to_owned();
            quoted.append(path.as_str());
            quoted.append("\"");
            let ghost wanted = seq![
                "/C"@,
                "start"@,
                "powershell"@,
                "-NoExit"@,
                "-Command"@,
                "Get-Content"@,
                "\""@ + path@ + "\""@,
                "-Wait"@,
            ];
            let mut args: Vec<String> = Vec::new();
            args.push("/C".to_owned());
            args.push("start".to_owned());
            args.push("powershell".to_owned());
            args.push("-NoExit".to_owned());
            args.push("-Command".to_owned());
            args.push("Get-Content".to_owned());
            args.push(quoted);
            args.push("-Wait".to_owned());
            assert(text::texts(args@) =~= wanted);
            Ok(args)
        },
    }
}

/// Whether the live log was opened: the error, if there is one.
pub fn live_log_opened(error: &Option<String>) -> (r: Result<String, String>)
    ensures
        match error {
            None => r matches Ok(t) && t@ == "Successfully opened file in powershell"@,
            Some(e) => r matches Err(t) && t@ == "Failed to open file in powershell: "@ + e@,
        },
{
    match error {
        None => Ok("Successfully opened file in powershell".to_owned()),
        Some(e) => Err(prefixed("Failed to open file in powershell: ", e.as_str())),
    }
}

/// Whether `i` is the index of the text that comes after all others of a list. Of equal
/// texts it is the last one.
pub open spec fn is_last_text(names: Seq<Seq<char>>, i: int) -> bool {
    &&& 0 <= i < names.len()
    &&& forall|k: int| 0 <= k < names.len() ==> text::text_le(#[trigger] names[k], names[i])
    &&& forall|k: int| i < k < names.len() ==> #[trigger] names[k] != names[i]
}

/// The index of the log file that is written to now: the one whose name comes last.
pub fn get_currently_active_log_file(names: &Vec<String>) -> (r: Option<usize>)
    ensures
        match r {
            Some(i) => is_last_text(text::texts(names@), i as int),
            None => names.len() == 0,
        },
{
    if names.len() == 0 {
        return None;
    }
    let mut best: usize = 0;
    let mut i: usize = 1;
    proof {
        text::text_le_total(names@[0]@, names@[0]@);
    }
    while i < names.len()
        invariant
            best < i <= names.len(),
            forall|k: int| 0 <= k < i ==> text::text_le(#[trigger] names@[k]@, names@[best as int]@),
            forall|k: int| best < k < i ==> #[trigger] names@[k]@ != names@[best as int]@,
        decreases names.len() - i,
    {
        if text::text_at_most(names[best].as_str(), names[i].as_str()) {
            proof {
                assert forall|k: int| 0 <= k < i + 1 implies text::text_le(
                    #[trigger] names@[k]@,
                    names@[i as int]@,
                ) by {
                    if k < i {
                        text::text_le_transitive(
                            names@[k]@,
                            names@[best as int]@,
                            names@[i as int]@,
                        );
                    } else {
                        text::text_le_total(names@[i as int]@, names@[i as int]@);
                    }
                }
            }
            best = i;
        } else {
            proof {
                text::text_le_total(names@[best as int]@, names@[i as int]@);
                text::text_le_total(names@[best as int]@, names@[best as int]@);
            }
        }
        i = i + 1;
    }
    assert forall|k: int| 0 <= k < text::texts(names@).len() implies text::text_le(
        #[trigger] text::texts(names@)[k],
        text::texts(names@)[best as int],
    ) by {
        assert(text::text_le(names@[k]@, names@[best as int]@));
    }
    assert forall|k: int| best < k < text::texts(names@).len() implies #[trigger] text::texts(
        names@,
    )[k] != text::texts(names@)[best as int] by {
        assert(names@[k]@ != names@[best as int]@);
    }
    Some(best)
}

/// A text is turned into speech step by step: it is asked for, saved, and made faster or slower
/// unless the speed is the normal one.
pub proof fn speech_is_made_in_steps(speed: u32)
    ensures
        speech_step_after(SpeechStep::Request, Attempt::Done, speed) == Ok::<
            SpeechStep,
            Seq<char>,
        >(SpeechStep::Save),
        speed != 0x3f80_0000 ==> speech_step_after(SpeechStep::Save, Attempt::Done, speed) == Ok::<
            SpeechStep,
            Seq<char>,
        >(SpeechStep::AdjustSpeed),
        speed == 0x3f80_0000 ==> speech_step_after(SpeechStep::Save, Attempt::Done, speed) == Ok::<
            SpeechStep,
            Seq<char>,
        >(SpeechStep::Finished),
        speech_step_after(SpeechStep::AdjustSpeed, Attempt::Done, speed) == Ok::<
            SpeechStep,
            Seq<char>,
        >(SpeechStep::Finished),
{
}

/// There is no clip exactly if the speech could not be had or saved, and then the error is
/// told.
pub proof fn failed_steps_give_no_clip(step: SpeechStep, outcome: Attempt<Seq<char>>, speed: u32)
    ensures
        speech_step_after(step, outcome, speed) is Err <==> (step is Request || step is Save)
            && !(outcome is Done),
        (outcome matches Attempt::Failed(e) && speech_step_after(step, outcome, speed) is Err) ==> (
        outcome matches Attempt::Failed(e) && e.is_suffix_of(
            speech_step_after(step, outcome, speed)->Err_0,
        )),
        (outcome matches Attempt::TimedOut(e) && speech_step_after(step, outcome, speed) is Err)
            ==> (outcome matches Attempt::TimedOut(e) && e.is_suffix_of(
            speech_step_after(step, outcome, speed)->Err_0,
        )),
{
    let r = speech_step_after(step, outcome, speed);
    if r is Err {
        let m = r->Err_0;
        match outcome {
            Attempt::Failed(e) => {
                assert(m.skip(m.len() - e.len()) =~= e);
            },
            Attempt::TimedOut(e) => {
                assert(m.skip(m.len() - e.len()) =~= e);
            },
            Attempt::Done => {},
        }
    }
}

/// `ffmpeg` is told to read the input, by the option in front of it, and to write the output,
/// which comes last; a clip of speech is sped up by the factor that was asked for.
pub proof fn programs_read_input_and_write_output(
    input: Seq<char>,
    output: Seq<char>,
    speed: Seq<char>,
)
    ensures
        exists|i: int|
            0 <= i < speed_args(input, output, speed).len() - 2 && #[trigger] speed_args(
                input,
                output,
                speed,
            )[i] == "-i"@ && speed_args(input, output, speed)[i + 1] == input,
        speed_args(input, output, speed).last() == output,
        speed_args(input, output, speed).contains("atempo="@ + speed),
        exists|i: int|
            0 <= i < mp3_args(input, output).len() - 2 && #[trigger] mp3_args(input, output)[i]
                == "-i"@ && mp3_args(input, output)[i + 1] == input,
        mp3_args(input, output).last() == output,
{
    assert(speed_args(input, output, speed)[1] == "-i"@);
    assert(speed_args(input, output, speed)[8] == "atempo="@ + speed);
    assert(mp3_args(input, output)[0] == "-i"@);
}

/// Two paths are handed to a program exactly if both of them are texts.
pub proof fn paths_are_refused_if_one_is_no_text(
    input: Option<Seq<char>>,
    output: Option<Seq<char>>,
)
    ensures
        paths_refused(input, output) is None <==> input is Some && output is Some,
{
}

} // verus!
