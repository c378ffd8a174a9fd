//! The key that is held to talk.

use crate::programs;
use crate::text;
use crate::unique;
use vstd::prelude::*;

verus! {

/// Something that is done when the key goes down or up.
#[derive(Clone, Copy, Debug, PartialEq, Eq, Structural)]
pub enum KeyAction {
    /// The alarm of the timers is stopped.
    StopAlarm,
    /// The assistant is told to stop its response.
    StopAssistant,
    /// The voice is stopped.
    StopSpeech,
    /// Other sounds are made quieter.
    StartDucking,
    /// What is said is recorded from here on.
    StartRecording,
    /// The recording is stopped.
    StopRecording,
    /// The recording is taken, if there is one.
    TakeRecording,
    /// Other sounds are as loud as they were.
    StopDucking,
}

/// The shortest recording that is used, in nanoseconds. The service that transcribes
/// cannot handle less than a tenth of a second, and a recording of less than two tenths
/// is left out; a length is measured in seconds, by a single-precision number, and this
/// is the shortest that is not less than 0.2.
pub const SHORTEST_RECORDING: u128 = 199_999_992;

/// The name of the file of a recording, made unlike any other by `unique`.
pub fn recording_file_name(unique: &str) -> (r: String)
    ensures
        r@ == unique@ + ".wav"@,
{
    programs::prefixed(unique, ".wav")
}

/// Whether a text is the name of the file of a recording, with a random UUID.
pub open spec fn is_recording_name(name: Seq<char>) -> bool {
    exists|u: Seq<char>| #[trigger] unique::is_uuid(u) && name == u + ".wav"@
}

/// The name of the file of a recording. It is random.
pub fn new_recording_file_name() -> (r: String)
    ensures
        is_recording_name(r@),
{
    let u = unique::random_uuid();
    recording_file_name(u.as_str())
}

/// Whether the key is held, and the file that is recorded to.
pub struct TalkKey {
    pub pressed: bool,
    pub path: Option<String>,
}

/// What is known of the key, with its text as a sequence of characters.
#[verifier::ext_equal]
pub struct TalkKeyView {
    pub pressed: bool,
    pub path: Option<Seq<char>>,
}

impl View for TalkKey {
    type V = TalkKeyView;

    open spec fn view(&self) -> TalkKeyView {
        TalkKeyView { pressed: self.pressed, path: text::optional(self.path) }
    }
}

/// What comes of a recording that was stopped.
pub struct Released {
    /// The errors that are shown, in order.
    pub errors: Vec<String>,
    /// The file that was recorded, if it is used.
    pub recording: Option<String>,
}

/// The errors that are shown when a recording was stopped. How long it took is missing
/// if the clock was set back meanwhile.
pub open spec fn stop_errors(
    elapsed: Result<u128, Seq<char>>,
    stopped: Result<(), Seq<char>>,
) -> Seq<Seq<char>> {
    let timing = match elapsed {
        Ok(_) => seq![],
        Err(e) => seq!["Failed to get elapsed recording time: "@ + e],
    };
    match stopped {
        Err(e) => timing.push("Failed to stop recording: "@ + e),
        Ok(_) => match elapsed {
            Ok(nanos) if nanos < SHORTEST_RECORDING => timing.push(
                "User recording too short. Aborting transctiption and LLM response."@,
            ),
            _ => timing,
        },
    }
}

/// Whether a recording is used: it was stopped, and it is long enough.
pub open spec fn is_used(elapsed: Result<u128, Seq<char>>, stopped: Result<(), Seq<char>>) -> bool {
    stopped is Ok && (elapsed matches Ok(nanos) && nanos >= SHORTEST_RECORDING)
}

/// How long something took, or why that is not known.
pub open spec fn elapsed_view(r: Result<u128, String>) -> Result<u128, Seq<char>> {
    match r {
        Ok(nanos) => Ok(nanos),
        Err(e) => Err(e@),
    }
}

/// Whether something was done, or why not.
pub open spec fn done_view(r: Result<(), String>) -> Result<(), Seq<char>> {
    match r {
        Ok(_) => Ok(()),
        Err(e) => Err(e@),
    }
}

/// What is done when the key of the quick assistant goes down: a held key goes down
/// once only.
pub open spec fn quick_press(key: TalkKeyView) -> Seq<KeyAction> {
    if key.pressed {
        seq![]
    } else {
        seq![
            KeyAction::StopAlarm,
            KeyAction::StopAssistant,
            KeyAction::StopSpeech,
            KeyAction::StartRecording,
        ]
    }
}

/// What is done when the key of the other assistant goes down.
pub open spec fn assistant_press(key: TalkKeyView, duck: bool) -> Seq<KeyAction> {
    if key.pressed {
        seq![]
    } else if duck {
        seq![
            KeyAction::StopAssistant,
            KeyAction::StopSpeech,
            KeyAction::StartDucking,
            KeyAction::StartRecording,
        ]
    } else {
        seq![KeyAction::StopAssistant, KeyAction::StopSpeech, KeyAction::StartRecording]
    }
}

/// What is done when the key of the quick assistant goes up.
pub open spec fn quick_release(key: TalkKeyView) -> Seq<KeyAction> {
    if key.pressed {
        seq![KeyAction::StopAlarm, KeyAction::StopRecording, KeyAction::TakeRecording]
    } else {
        seq![]
    }
}

/// What is done when the key of the other assistant goes up.
pub open spec fn assistant_release(key: TalkKeyView, duck: bool) -> Seq<KeyAction> {
    if !key.pressed {
        seq![]
    } else if duck {
        seq![KeyAction::StopRecording, KeyAction::TakeRecording, KeyAction::StopDucking]
    } else {
        seq![KeyAction::StopRecording, KeyAction::TakeRecording]
    }
}

impl TalkKey {
    /// A key that is up.
    pub fn new() -> (r: Self)
        ensures
            r@ == (TalkKeyView { pressed: false, path: None }),
    {
        TalkKey { pressed: false, path: None }
    }

    /// The key of the quick assistant goes down. A recording goes to `path`.
    pub fn press(&mut self, path: &str) -> (r: Vec<KeyAction>)
        ensures
            r@ == quick_press(old(self)@),
            final(self)@ == (if old(self)@.pressed {
                old(self)@
            } else {
                TalkKeyView { pressed: true, path: Some(path@) }
            }),
            final(self)@.pressed,
            r@.contains(KeyAction::StartRecording) <==> !old(self)@.pressed,
            r@.contains(KeyAction::StartRecording) ==> final(self)@.path == Some(path@),
            r@.len() == 0 ==> final(self)@ == old(self)@,
    {
        let mut actions: Vec<KeyAction> = Vec::new();
        if !self.pressed {
            self.pressed = true;
            self.path = Some(path.to_owned());
            actions.push(KeyAction::StopAlarm);
            actions.push(KeyAction::StopAssistant);
            actions.push(KeyAction::StopSpeech);
            actions.push(KeyAction::StartRecording);
        }
        assert(actions@ =~= quick_press(old(self)@));
        assert(!old(self)@.pressed ==> actions@[3] == KeyAction::StartRecording);
        actions
    }

    /// The key of the quick assistant goes up.
    pub fn release(&mut self) -> (r: Vec<KeyAction>)
        ensures
            r@ == quick_release(old(self)@),
            final(self)@ == (TalkKeyView { pressed: false, ..old(self)@ }),
    {
        let mut actions: Vec<KeyAction> = Vec::new();
        if self.pressed {
            self.pressed = false;
            actions.push(KeyAction::StopAlarm);
            actions.push(KeyAction::StopRecording);
            actions.push(KeyAction::TakeRecording);
        }
        assert(actions@ =~= quick_release(old(self)@));
        actions
    }

    /// Takes that a recording of the quick assistant was stopped, and how long it took.
    pub fn recording_stopped(
        &mut self,
        elapsed: Result<u128, String>,
        stopped: Result<(), String>,
    ) -> (r: Released)
        ensures
            text::texts(r.errors@) == stop_errors(elapsed_view(elapsed), done_view(stopped)),
            text::optional(r.recording) == (if is_used(elapsed_view(elapsed), done_view(stopped)) {
                old(self)@.path
            } else {
                None
            }),
            final(self)@ == (if is_used(elapsed_view(elapsed), done_view(stopped)) {
                TalkKeyView { path: None, ..old(self)@ }
            } else {
                old(self)@
            }),
            r.recording is Some ==> r.errors@.len() == 0 && final(self)@.path is None,
            r.errors@.len() == 0 ==> text::optional(r.recording) == old(self)@.path,
            r.errors@.len() > 0 ==> r.recording is None && final(self)@ == old(self)@,
            final(self)@.pressed == old(self)@.pressed,
    {
        let mut errors: Vec<String> = Vec::new();
        let mut recording: Option<String> = None;
        if let Err(e) = &elapsed {
            errors.push(
                programs::prefixed("Failed to get elapsed recording time: ", e.as_str()),
            );
        }
        match &stopped {
            Err(e) => {
                errors.push(programs::prefixed("Failed to stop recording: ", e.as_str()));
            },
            Ok(_) => {
                if let Ok(nanos) = &elapsed {
                    if *nanos < SHORTEST_RECORDING {
                        errors.push(
                            "User recording too short. Aborting transctiption and LLM response.".to_owned(),
                        );
                    } else {
                        recording = self.path.take();
                    }
                }
            },
        }
        assert(text::texts(errors@) =~= stop_errors(elapsed_view(elapsed), done_view(stopped)));
        Released { errors, recording }
    }

    /// The key of the other assistant goes down.
    pub fn press_assistant(&mut self, duck: bool) -> (r: Vec<KeyAction>)
        ensures
            r@ == assistant_press(old(self)@, duck),
            final(self)@ == (TalkKeyView { pressed: true, ..old(self)@ }),
    {
        let mut actions: Vec<KeyAction> = Vec::new();
        if !self.pressed {
            self.pressed = true;
            actions.push(KeyAction::StopAssistant);
            actions.push(KeyAction::StopSpeech);
            if duck {
                actions.push(KeyAction::StartDucking);
            }
            actions.push(KeyAction::StartRecording);
        }
        assert(actions@ =~= assistant_press(old(self)@, duck));
        actions
    }

    /// Takes that the other assistant has begun to record to a file, if it has.
    pub fn recording_started(&mut self, path: Option<String>)
        ensures
            final(self)@ == (match path {
                Some(p) => TalkKeyView { path: Some(p@), ..old(self)@ },
                None => old(self)@,
            }),
    {
        if let Some(p) = path {
            self.path = Some(p);
        }
    }

    /// The key of the other assistant goes up.
    pub fn release_assistant(&mut self, duck: bool) -> (r: Vec<KeyAction>)
        ensures
            r@ == assistant_release(old(self)@, duck),
            final(self)@ == (TalkKeyView { pressed: false, ..old(self)@ }),
    {
        let mut actions: Vec<KeyAction> = Vec::new();
        if self.pressed {
            self.pressed = false;
            actions.push(KeyAction::StopRecording);
            actions.push(KeyAction::TakeRecording);
            if duck {
                actions.push(KeyAction::StopDucking);
            }
        }
        assert(actions@ =~= assistant_release(old(self)@, duck));
        actions
    }

    /// Takes whether a recording of the other assistant was stopped, and how long it took.
    pub fn assistant_recording_stopped(&mut self, elapsed: u128, stopped: bool) -> (r: Released)
        ensures
            r.recording is Some ==> stopped && elapsed >= 199_999_992 && final(self)@.path is None,
            stopped && elapsed >= 199_999_992 ==> text::optional(r.recording) == old(self)@.path,
            r.errors@.len() > 0 <==> stopped && elapsed < 199_999_992,
            final(self)@.pressed == old(self)@.pressed,
            text::texts(r.errors@) == (if stopped && elapsed < SHORTEST_RECORDING {
                seq!["User recording too short. Aborting transcription and LLM response."@]
            } else {
                seq![]
            }),
            text::optional(r.recording) == (if stopped && elapsed >= SHORTEST_RECORDING {
                old(self)@.path
            } else {
                None
            }),
            final(self)@ == (if stopped && elapsed >= SHORTEST_RECORDING {
                TalkKeyView { path: None, ..old(self)@ }
            } else {
                old(self)@
            }),
    {
        let mut errors: Vec<String> = Vec::new();
        let mut recording: Option<String> = None;
        let ghost mut wanted: Seq<Seq<char>> = seq![];
        if stopped {
            if elapsed >= SHORTEST_RECORDING {
                recording = self.path.take();
            } else {
                errors.push(
                    "User recording too short. Aborting transcription and LLM response.".to_owned(),
                );
                proof {
                    wanted =
                    seq!["User recording too short. Aborting transcription and LLM response."@];
                }
            }
        }
        assert(text::texts(errors@) =~= wanted);
        Released { errors, recording }
    }
}

/// While the key is held, that it goes down again changes nothing; while it is up, that
/// it goes up changes nothing.
pub proof fn key_repeats_are_ignored(key: TalkKeyView, duck: bool)
    ensures
        key.pressed ==> quick_press(key).len() == 0 && assistant_press(key, duck).len() == 0,
        !key.pressed ==> quick_release(key).len() == 0 && assistant_release(key, duck).len() == 0,
{
}

/// When the user begins to talk, the voice and the assistant are stopped before the
/// recording is started.
pub proof fn voice_is_not_recorded(key: TalkKeyView, duck: bool)
    requires
        !key.pressed,
    ensures
        quick_press(key).last() == KeyAction::StartRecording,
        quick_press(key).drop_last().contains(KeyAction::StopSpeech),
        quick_press(key).drop_last().contains(KeyAction::StopAssistant),
        assistant_press(key, duck).last() == KeyAction::StartRecording,
        assistant_press(key, duck).drop_last().contains(KeyAction::StopSpeech),
        assistant_press(key, duck).drop_last().contains(KeyAction::StopAssistant),
{
    let q = quick_press(key).drop_last();
    assert(q[2] == KeyAction::StopSpeech);
    assert(q[1] == KeyAction::StopAssistant);
    let a = assistant_press(key, duck).drop_last();
    assert(a[1] == KeyAction::StopSpeech);
    assert(a[0] == KeyAction::StopAssistant);
}

/// A recording is used exactly if there is no error to show: it was stopped, how long it took
/// is known, and it took long enough.
pub proof fn recordings_are_used_or_explained(
    elapsed: Result<u128, Seq<char>>,
    stopped: Result<(), Seq<char>>,
)
    ensures
        is_used(elapsed, stopped) <==> stop_errors(elapsed, stopped).len() == 0,
        is_used(elapsed, stopped) <==> stopped is Ok && elapsed is Ok && elapsed->Ok_0
            >= 199_999_992,
        stop_errors(elapsed, stopped).len() == (if elapsed is Err {
            1int
        } else {
            0int
        }) + (if stopped is Err || (elapsed is Ok && elapsed->Ok_0 < 199_999_992) {
            1int
        } else {
            0int
        }),
{
}

/// What the key starts when it goes down it ends when it goes up: the recording, which is then
/// taken, and the quiet of other sounds. The alarm of the timers is stopped both times.
pub proof fn release_ends_what_press_began(key: TalkKeyView, held: TalkKeyView, duck: bool)
    requires
        !key.pressed,
        held.pressed,
    ensures
        quick_press(key).contains(KeyAction::StartRecording),
        quick_press(key).contains(KeyAction::StopAlarm),
        quick_release(held) == seq![
            KeyAction::StopAlarm,
            KeyAction::StopRecording,
            KeyAction::TakeRecording,
        ],
        assistant_press(key, duck).contains(KeyAction::StartRecording),
        assistant_press(key, duck).contains(KeyAction::StartDucking) <==> duck,
        assistant_release(held, duck)[0] == KeyAction::StopRecording,
        assistant_release(held, duck)[1] == KeyAction::TakeRecording,
        assistant_release(held, duck).contains(KeyAction::StopDucking) <==> duck,
        assistant_release(held, duck).len() == if duck {
            3int
        } else {
            2int
        },
{
    let q = quick_press(key);
    assert(q[3] == KeyAction::StartRecording && q[0] == KeyAction::StopAlarm);
    let a = assistant_press(key, duck);
    let r = assistant_release(held, duck);
    if duck {
        assert(a[2] == KeyAction::StartDucking && a[3] == KeyAction::StartRecording);
        assert(r[2] == KeyAction::StopDucking);
    } else {
        assert(a[2] == KeyAction::StartRecording);
    }
}

} // verus!
