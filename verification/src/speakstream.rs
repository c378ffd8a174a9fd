//! Speaks a stream of tokens: sentences wait to be turned into speech, clips of
//! speech wait to be played.

use crate::sentences;
use crate::sentences::SentenceAccumulator;
use crate::text;
use crate::voice::Voice;
use vstd::prelude::*;

verus! {

/// What the voice is at.
#[derive(Clone, Copy, Debug, PartialEq, Eq, Structural)]
pub enum SpeakState {
    Idle,
    Converting,
    Playing,
}

/// What is played next.
pub enum AudioTask<S> {
    /// A clip of speech, by its number, and the text that it says.
    Speech { clip: u64, text: S },
    /// The sound that tells of an error.
    Error,
}

/// A task with its text as a sequence of characters.
pub open spec fn task_view(task: AudioTask<String>) -> AudioTask<Seq<char>> {
    match task {
        AudioTask::Speech { clip, text } => AudioTask::Speech { clip, text: text@ },
        AudioTask::Error => AudioTask::Error,
    }
}

/// The tasks of a list.
pub open spec fn task_views(v: Seq<AudioTask<String>>) -> Seq<AudioTask<Seq<char>>> {
    v.map_values(|task: AudioTask<String>| task_view(task))
}

/// The maximum number of audio files that can be queued up to be played, and of
/// texts that can be queued up to be turned into speech. Limiting this number
/// prevents converting too much text to speech at once and incurring large costs
/// for conversions that may not be used if speaking is stopped.
pub const AI_VOICE_SINK_BUFFER_SIZE: usize = 10;

/// Accumulates tokens into sentences. Once a sentence is complete, it is turned into
/// speech and played.
pub struct SpeakStream {
    sentence_accumulator: SentenceAccumulator,
    texts: Vec<String>,
    converting: Vec<u64>,
    audio: Vec<AudioTask<String>>,
    kill_requested: bool,
    stop_requested: bool,
    states: Vec<SpeakState>,
    voice: Voice,
    speech_speed: u32,
    muted: bool,
}

/// What a `SpeakStream` holds.
#[verifier::ext_equal]
pub struct SpeakStreamView {
    /// The text that no sentence has taken yet.
    pub buffer: Seq<char>,
    /// The sentences that wait to be turned into speech.
    pub texts: Seq<Seq<char>>,
    /// The numbers of the conversions that are under way.
    pub converting: Seq<u64>,
    /// What waits to be played.
    pub audio: Seq<AudioTask<Seq<char>>>,
    /// The conversions that are under way are to be given up.
    pub kill_requested: bool,
    /// The clip that plays is to be stopped.
    pub stop_requested: bool,
    /// What the voice was at since someone last asked.
    pub states: Seq<SpeakState>,
    /// The voice that speaks.
    pub voice: Voice,
    /// How fast it speaks: the bits of a single-precision number, with 1.0 as normal speed.
    pub speech_speed: u32,
    /// Nothing that is played can be heard.
    pub muted: bool,
}

impl View for SpeakStream {
    type V = SpeakStreamView;

    closed spec fn view(&self) -> SpeakStreamView {
        SpeakStreamView {
            buffer: self.sentence_accumulator@,
            texts: text::texts(self.texts@),
            converting: self.converting@,
            audio: task_views(self.audio@),
            kill_requested: self.kill_requested,
            stop_requested: self.stop_requested,
            states: self.states@,
            voice: self.voice,
            speech_speed: self.speech_speed,
            muted: self.muted,
        }
    }
}

/// A text to be turned into speech, and how it is to be said.
pub struct Conversion {
    pub text: String,
    pub voice: Voice,
    pub speech_speed: u32,
}

/// What is done with a clip that plays.
#[derive(Clone, Copy, Debug, PartialEq, Eq, Structural)]
pub enum PlaybackStep {
    /// It has ended.
    Ended,
    /// It is to be stopped.
    Stop,
    /// It goes on.
    Wait,
}

/// What a stream holds after speech was stopped.
pub open spec fn silenced(s: SpeakStreamView) -> SpeakStreamView {
    SpeakStreamView {
        buffer: seq![],
        texts: seq![],
        audio: seq![],
        kill_requested: true,
        stop_requested: true,
        states: s.states.push(SpeakState::Idle),
        ..s
    }
}

/// What a stream holds after a token was added.
pub open spec fn token_added(s: SpeakStreamView, token: Seq<char>) -> SpeakStreamView {
    let (buffer, sentences) = sentences::fed(s.buffer, token);
    SpeakStreamView { buffer, texts: s.texts + sentences, ..s }
}

/// What a stream holds after the first sentence that waits was taken to be converted.
pub open spec fn conversion_started(s: SpeakStreamView, conversion: u64) -> SpeakStreamView {
    SpeakStreamView {
        texts: s.texts.drop_first(),
        converting: s.converting.push(conversion),
        states: s.states.push(SpeakState::Converting),
        ..s
    }
}

/// What a stream holds while the outcome of the first conversion is waited for.
pub open spec fn conversion_taken(s: SpeakStreamView) -> SpeakStreamView {
    SpeakStreamView { converting: s.converting.drop_first(), ..s }
}

/// What a stream holds after the first task that waits was taken to be played.
pub open spec fn audio_taken(s: SpeakStreamView) -> SpeakStreamView {
    SpeakStreamView {
        audio: s.audio.drop_first(),
        stop_requested: false,
        states: s.states.push(SpeakState::Playing),
        ..s
    }
}

/// What a stream holds after a conversion ended, with the task that plays its outcome.
pub open spec fn conversion_delivered(
    s: SpeakStreamView,
    task: AudioTask<Seq<char>>,
) -> SpeakStreamView {
    if s.kill_requested {
        SpeakStreamView { kill_requested: false, converting: seq![], ..s }
    } else {
        SpeakStreamView { audio: s.audio.push(task), ..s }
    }
}

impl SpeakStream {
    /// At most ten conversions are under way and at most ten tasks wait to be played.
    pub closed spec fn well_formed(&self) -> bool {
        &&& self.sentence_accumulator.well_formed()
        &&& self.converting@.len() <= AI_VOICE_SINK_BUFFER_SIZE
        &&& self.audio@.len() <= AI_VOICE_SINK_BUFFER_SIZE
    }

    /// A well-formed stream holds no more than it may.
    pub proof fn queues_are_bounded(&self)
        requires
            self.well_formed(),
        ensures
            sentences::byte_count(self@.buffer) <= 300,
            self@.converting.len() <= AI_VOICE_SINK_BUFFER_SIZE,
            self@.audio.len() <= AI_VOICE_SINK_BUFFER_SIZE,
    {
        self.sentence_accumulator.holds_at_most();
    }

    /// A stream that has nothing to say.
    pub fn new(voice: Voice, speech_speed: u32) -> (r: Self)
        ensures
            r.well_formed(),
            r@ == (SpeakStreamView {
                buffer: seq![],
                texts: seq![],
                converting: seq![],
                audio: seq![],
                kill_requested: false,
                stop_requested: false,
                states: seq![],
                voice,
                speech_speed,
                muted: false,
            }),
    {
        let r = SpeakStream {
            sentence_accumulator: SentenceAccumulator::new(),
            texts: Vec::new(),
            converting: Vec::new(),
            audio: Vec::new(),
            kill_requested: false,
            stop_requested: false,
            states: Vec::new(),
            voice,
            speech_speed,
            muted: false,
        };
        assert(r@.texts =~= seq![]);
        assert(r@.audio =~= seq![]);
        r
    }

    /// Adds a token. The sentences that it completes wait to be turned into speech.
    pub fn add_token(&mut self, token: &str)
        requires
            old(self).well_formed(),
        ensures
            final(self).well_formed(),
            final(self)@ == token_added(old(self)@, token@),
    {
        let mut sentences = self.sentence_accumulator.add_token(token);
        let ghost new = sentences@;
        self.texts.append(&mut sentences);
        proof {
            assert(text::texts(self.texts@) =~= old(self)@.texts + text::texts(new));
            assert(self@ =~= token_added(old(self)@, token@));
        }
    }

    /// The text that is left becomes the last sentence.
    pub fn complete_sentence(&mut self)
        requires
            old(self).well_formed(),
        ensures
            final(self).well_formed(),
            final(self)@ == (SpeakStreamView {
                buffer: seq![],
                texts: old(self)@.texts + sentences::sentence_of(old(self)@.buffer),
                ..old(self)@
            }),
    {
        let ghost before = self.texts@;
        match self.sentence_accumulator.complete_sentence() {
            Some(sentence) => {
                let ghost new = sentence@;
                self.texts.push(sentence);
                assert(text::texts(self.texts@) =~= text::texts(before) + seq![new]);
            },
            None => {
                assert(text::texts(before) + Seq::<Seq<char>>::empty() =~= text::texts(before));
            },
        }
        assert(self@ =~= SpeakStreamView {
            buffer: seq![],
            texts: old(self)@.texts + sentences::sentence_of(old(self)@.buffer),
            ..old(self)@
        });
    }

    /// Forgets all that has not been said, and stops what is being said.
    pub fn stop_speech(&mut self)
        requires
            old(self).well_formed(),
        ensures
            final(self).well_formed(),
            final(self)@ == silenced(old(self)@),
    {
        self.sentence_accumulator.clear_buffer();
        self.texts = Vec::new();
        self.kill_requested = true;
        self.audio = Vec::new();
        self.stop_requested = true;
        self.states.push(SpeakState::Idle);
        assert(self@.texts =~= seq![]);
        assert(self@.audio =~= seq![]);
        assert(self@ =~= silenced(old(self)@));
    }

    /// Sets how fast the voice speaks.
    pub fn set_speech_speed(&mut self, speed: u32)
        requires
            old(self).well_formed(),
        ensures
            final(self).well_formed(),
            final(self)@ == (SpeakStreamView { speech_speed: speed, ..old(self)@ }),
    {
        self.speech_speed = speed;
    }

    /// How fast the voice speaks.
    pub fn get_speech_speed(&self) -> (r: u32)
        ensures
            r == self@.speech_speed,
    {
        self.speech_speed
    }

    /// Sets the voice that speaks.
    pub fn set_voice(&mut self, voice: Voice)
        requires
            old(self).well_formed(),
        ensures
            final(self).well_formed(),
            final(self)@ == (SpeakStreamView { voice, ..old(self)@ }),
    {
        self.voice = voice;
    }

    /// The voice that speaks.
    pub fn get_voice(&self) -> (r: Voice)
        ensures
            r == self@.voice,
    {
        self.voice
    }

    /// Mutes the voice.
    pub fn mute(&mut self)
        requires
            old(self).well_formed(),
        ensures
            final(self).well_formed(),
            final(self)@ == (SpeakStreamView { muted: true, ..old(self)@ }),
    {
        self.muted = true;
    }

    /// Unmutes the voice.
    pub fn unmute(&mut self)
        requires
            old(self).well_formed(),
        ensures
            final(self).well_formed(),
            final(self)@ == (SpeakStreamView { muted: false, ..old(self)@ }),
    {
        self.muted = false;
    }

    /// Whether the voice is muted.
    pub fn is_muted(&self) -> (r: bool)
        ensures
            r == self@.muted,
    {
        self.muted
    }

    /// What the voice was at since this was last asked, in order.
    pub fn take_states(&mut self) -> (r: Vec<SpeakState>)
        requires
            old(self).well_formed(),
        ensures
            final(self).well_formed(),
            r@ == old(self)@.states,
            final(self)@ == (SpeakStreamView { states: seq![], ..old(self)@ }),
    {
        let mut states: Vec<SpeakState> = Vec::new();
        states.append(&mut self.states);
        assert(states@ =~= old(self)@.states);
        assert(self@ =~= SpeakStreamView { states: seq![], ..old(self)@ });
        states
    }

    /// Takes the first sentence that waits, to turn it into speech as conversion
    /// number `conversion`, unless none waits or too many conversions are under way.
    pub fn start_conversion(&mut self, conversion: u64) -> (r: Option<Conversion>)
        requires
            old(self).well_formed(),
        ensures
            final(self).well_formed(),
            r is Some <==> old(self)@.texts.len() > 0 && old(self)@.converting.len()
                < AI_VOICE_SINK_BUFFER_SIZE,
            r is None ==> final(self)@ == old(self)@,
            r matches Some(c) ==> {
                &&& c.text@ == old(self)@.texts[0]
                &&& c.voice == old(self)@.voice
                &&& c.speech_speed == old(self)@.speech_speed
                &&& final(self)@ == conversion_started(old(self)@, conversion)
            },
            r matches Some(c) ==> seq![c.text@] + final(self)@.texts == old(self)@.texts,
            final(self)@.converting.len() <= 10,
            old(self)@.converting.len() < 10 && r is None ==> old(self)@.texts.len() == 0,
    {
        if self.texts.len() == 0 || self.converting.len() >= AI_VOICE_SINK_BUFFER_SIZE {
            return None;
        }
        let text = self.texts.remove(0);
        self.converting.push(conversion);
        self.states.push(SpeakState::Converting);
        proof {
            assert(text::texts(self.texts@) =~= old(self)@.texts.drop_first());
            assert(self@ =~= conversion_started(old(self)@, conversion));
        }
        Some(Conversion { text, voice: self.voice, speech_speed: self.speech_speed })
    }

    /// Takes the number of the conversion that was started first, to wait for its outcome.
    pub fn next_conversion(&mut self) -> (r: Option<u64>)
        requires
            old(self).well_formed(),
        ensures
            final(self).well_formed(),
            r == (if old(self)@.converting.len() > 0 {
                Some(old(self)@.converting[0])
            } else {
                None
            }),
            r is None ==> final(self)@ == old(self)@,
            r is Some ==> final(self)@ == conversion_taken(old(self)@),
            r matches Some(first) ==> seq![first] + final(self)@.converting
                == old(self)@.converting,
    {
        if self.converting.len() == 0 {
            return None;
        }
        let first = self.converting.remove(0);
        assert(self.converting@ =~= old(self)@.converting.drop_first());
        assert(self@ =~= conversion_taken(old(self)@));
        Some(first)
    }

    /// If speech was stopped since this was last asked: the numbers of the
    /// conversions that are to be given up.
    pub fn take_killed(&mut self) -> (r: Vec<u64>)
        requires
            old(self).well_formed(),
        ensures
            final(self).well_formed(),
            r@ == (if old(self)@.kill_requested {
                old(self)@.converting
            } else {
                seq![]
            }),
            final(self)@ == (if old(self)@.kill_requested {
                SpeakStreamView { kill_requested: false, converting: seq![], ..old(self)@ }
            } else {
                old(self)@
            }),
            r@ + final(self)@.converting == old(self)@.converting,
            !final(self)@.kill_requested,
            r@.len() > 0 ==> old(self)@.kill_requested,
    {
        let mut killed: Vec<u64> = Vec::new();
        if self.kill_requested {
            self.kill_requested = false;
            killed.append(&mut self.converting);
            assert(killed@ =~= old(self)@.converting);
            assert(self@ =~= SpeakStreamView {
                kill_requested: false,
                converting: seq![],
                ..old(self)@
            });
        }
        killed
    }

    /// Whether another task can wait to be played.
    pub fn has_room(&self) -> (r: bool)
        requires
            self.well_formed(),
        ensures
            r == (self@.audio.len() < AI_VOICE_SINK_BUFFER_SIZE),
    {
        self.audio.len() < AI_VOICE_SINK_BUFFER_SIZE
    }

    /// Takes the outcome of a conversion: the number of the clip, or none if it failed,
    /// for which the sound that tells of an error is played. If speech was stopped
    /// meanwhile, nothing is played, and the conversions that are under way are given
    /// up. Returns the numbers of those.
    pub fn conversion_finished(&mut self, clip: Option<u64>, text: String) -> (r: Vec<u64>)
        requires
            old(self).well_formed(),
            old(self)@.audio.len() < AI_VOICE_SINK_BUFFER_SIZE,
        ensures
            final(self).well_formed(),
            r@ == (if old(self)@.kill_requested {
                old(self)@.converting
            } else {
                seq![]
            }),
            final(self)@ == conversion_delivered(
                old(self)@,
                match clip {
                    Some(number) => AudioTask::Speech { clip: number, text: text@ },
                    None => AudioTask::Error,
                },
            ),
            r@ + final(self)@.converting == old(self)@.converting,
            final(self)@.audio.len() == old(self)@.audio.len() || final(self)@.converting
                == old(self)@.converting,
            !old(self)@.kill_requested ==> final(self)@.audio.drop_last() == old(self)@.audio && (
            clip is None <==> final(self)@.audio.last() is Error),
    {
        let killed_any = self.kill_requested;
        let killed = self.take_killed();
        if !killed_any {
            let ghost before = self.audio@;
            let task: AudioTask<String> = match clip {
                Some(number) => AudioTask::Speech { clip: number, text },
                None => AudioTask::Error,
            };
            let ghost new = task_view(task);
            self.audio.push(task);
            proof {
                assert(task_views(self.audio@) =~= task_views(before).push(new));
                assert(self@ =~= conversion_delivered(old(self)@, new));
            }
        }
        killed
    }

    /// Takes the first task that waits, to play it. From here on the voice plays, and
    /// only what is stopped from here on is stopped.
    pub fn next_audio(&mut self) -> (r: Option<AudioTask<String>>)
        requires
            old(self).well_formed(),
        ensures
            final(self).well_formed(),
            r is Some <==> old(self)@.audio.len() > 0,
            r is None ==> final(self)@ == old(self)@,
            r matches Some(task) ==> {
                &&& task_view(task) == old(self)@.audio[0]
                &&& final(self)@ == audio_taken(old(self)@)
            },
            r matches Some(task) ==> seq![task_view(task)] + final(self)@.audio
                == old(self)@.audio,
    {
        if self.audio.len() == 0 {
            return None;
        }
        let task = self.audio.remove(0);
        self.stop_requested = false;
        self.states.push(SpeakState::Playing);
        proof {
            assert(task_views(self.audio@) =~= old(self)@.audio.drop_first());
            assert(self@ =~= audio_taken(old(self)@));
        }
        Some(task)
    }

    /// Looks at the clip that plays.
    pub fn poll_playback(&mut self, ended: bool) -> (r: PlaybackStep)
        requires
            old(self).well_formed(),
        ensures
            final(self).well_formed(),
            r == (if ended {
                PlaybackStep::Ended
            } else if old(self)@.stop_requested {
                PlaybackStep::Stop
            } else {
                PlaybackStep::Wait
            }),
            final(self)@ == (match r {
                PlaybackStep::Ended => SpeakStreamView {
                    states: old(self)@.states.push(SpeakState::Idle),
                    ..old(self)@
                },
                PlaybackStep::Stop => SpeakStreamView {
                    states: old(self)@.states.push(SpeakState::Idle),
                    stop_requested: false,
                    ..old(self)@
                },
                PlaybackStep::Wait => old(self)@,
            }),
            r is Wait <==> !ended && !old(self)@.stop_requested,
            r is Stop ==> !final(self)@.stop_requested && !ended,
            r is Ended ==> final(self)@.stop_requested == old(self)@.stop_requested,
            final(self)@.audio == old(self)@.audio && final(self)@.texts == old(self)@.texts,
            final(self)@.converting == old(self)@.converting,
            !(r is Wait) ==> final(self)@.states.last() is Idle && final(self)@.states.drop_last()
                == old(self)@.states,
    {
        if ended {
            self.states.push(SpeakState::Idle);
            PlaybackStep::Ended
        } else if self.stop_requested {
            self.stop_requested = false;
            self.states.push(SpeakState::Idle);
            PlaybackStep::Stop
        } else {
            PlaybackStep::Wait
        }
    }
}

// ---------------------------------------------------------------- laws

/// Two tokens say what their concatenation says.
pub proof fn tokens_join(s: SpeakStreamView, first: Seq<char>, second: Seq<char>)
    ensures
        token_added(token_added(s, first), second) == token_added(s, first + second),
{
    sentences::tokens_join(s.buffer, first, second);
    let (middle, one) = sentences::fed(s.buffer, first);
    let (end, two) = sentences::fed(middle, second);
    assert((s.texts + one) + two =~= s.texts + (one + two));
}

/// After speech was stopped nothing of what came before is said: no text and no clip
/// waits, and the outcome of a conversion that was under way is not played.
pub proof fn stopped_speech_is_not_said(s: SpeakStreamView, task: AudioTask<Seq<char>>)
    ensures
        silenced(s).buffer.len() == 0,
        silenced(s).texts.len() == 0,
        silenced(s).audio.len() == 0,
        silenced(s).stop_requested,
        conversion_delivered(silenced(s), task).audio.len() == 0,
        conversion_delivered(silenced(s), task).converting.len() == 0,
{
}

/// What a task says. The sound that tells of an error says nothing.
pub open spec fn task_text(task: AudioTask<Seq<char>>) -> Option<Seq<char>> {
    match task {
        AudioTask::Speech { clip, text } => Some(text),
        AudioTask::Error => None,
    }
}

/// What is still to be said, in the order in which it will be played: what waits to be
/// played, what the conversion that is waited for says, what the other conversions say,
/// and the sentences that wait. `converted` has the sentence of each conversion.
pub open spec fn to_be_said(
    s: SpeakStreamView,
    waited_for: Option<u64>,
    converted: Map<u64, Seq<char>>,
) -> Seq<Option<Seq<char>>> {
    s.audio.map_values(|task: AudioTask<Seq<char>>| task_text(task)) + (match waited_for {
        Some(n) => seq![Some(converted[n])],
        None => seq![],
    }) + s.converting.map_values(|n: u64| Some(converted[n])) + s.texts.map_values(
        |t: Seq<char>| Some(t),
    )
}

/// To start a conversion changes nothing in what is to be said, nor its order.
pub proof fn start_keeps_order(
    s: SpeakStreamView,
    waited_for: Option<u64>,
    converted: Map<u64, Seq<char>>,
    conversion: u64,
)
    requires
        s.texts.len() > 0,
        !s.converting.contains(conversion),
        waited_for != Some(conversion),
    ensures
        to_be_said(
            conversion_started(s, conversion),
            waited_for,
            converted.insert(conversion, s.texts[0]),
        ) == to_be_said(s, waited_for, converted),
{
    let after = conversion_started(s, conversion);
    let m = converted.insert(conversion, s.texts[0]);
    let (a, b) = (to_be_said(after, waited_for, m), to_be_said(s, waited_for, converted));
    let head = s.audio.len() + (if waited_for is Some {
        1int
    } else {
        0int
    });
    assert(a.len() == b.len());
    assert forall|i: int| 0 <= i < a.len() implies a[i] == b[i] by {
        if head <= i < head + s.converting.len() {
            assert(s.converting.contains(s.converting[i - head]));
        } else if i == head + s.converting.len() {
            assert(after.converting[i - head] == conversion);
        } else if i > head + s.converting.len() {
            assert(after.texts[i - head - after.converting.len()] == s.texts[i - head
                - s.converting.len()]);
        }
    }
    assert(a =~= b);
}

/// To wait for the first conversion changes nothing in what is to be said, nor its order.
pub proof fn wait_keeps_order(s: SpeakStreamView, converted: Map<u64, Seq<char>>)
    requires
        s.converting.len() > 0,
    ensures
        to_be_said(conversion_taken(s), Some(s.converting[0]), converted) == to_be_said(
            s,
            None,
            converted,
        ),
{
    assert(to_be_said(conversion_taken(s), Some(s.converting[0]), converted) =~= to_be_said(
        s,
        None,
        converted,
    ));
}

/// The outcome of a conversion takes its place in what is to be said: its clip if there
/// is one, and else the sound that tells of an error.
pub proof fn delivery_keeps_order(
    s: SpeakStreamView,
    conversion: u64,
    converted: Map<u64, Seq<char>>,
    task: AudioTask<Seq<char>>,
)
    requires
        !s.kill_requested,
    ensures
        to_be_said(conversion_delivered(s, task), None, converted) == to_be_said(
            s,
            Some(conversion),
            converted,
        ).update(s.audio.len() as int, task_text(task)),
        task matches AudioTask::Speech { clip, text } && text == converted[conversion]
            ==> to_be_said(conversion_delivered(s, task), None, converted) == to_be_said(
            s,
            Some(conversion),
            converted,
        ),
{
    let before = to_be_said(s, Some(conversion), converted);
    assert(to_be_said(conversion_delivered(s, task), None, converted) =~= before.update(
        s.audio.len() as int,
        task_text(task),
    ));
    assert(before[s.audio.len() as int] == Some(converted[conversion]));
    assert(before.update(s.audio.len() as int, Some(converted[conversion])) =~= before);
}

/// What is played is the first of what is to be said.
pub proof fn first_is_played(
    s: SpeakStreamView,
    waited_for: Option<u64>,
    converted: Map<u64, Seq<char>>,
)
    requires
        s.audio.len() > 0,
    ensures
        to_be_said(s, waited_for, converted)[0] == task_text(s.audio[0]),
        to_be_said(audio_taken(s), waited_for, converted) == to_be_said(
            s,
            waited_for,
            converted,
        ).drop_first(),
{
    assert(to_be_said(audio_taken(s), waited_for, converted) =~= to_be_said(
        s,
        waited_for,
        converted,
    ).drop_first());
}

/// The sentences that a token completes come after all that is to be said.
pub proof fn new_sentences_come_last(
    s: SpeakStreamView,
    waited_for: Option<u64>,
    converted: Map<u64, Seq<char>>,
    token: Seq<char>,
)
    ensures
        to_be_said(token_added(s, token), waited_for, converted) == to_be_said(
            s,
            waited_for,
            converted,
        ) + sentences::fed(s.buffer, token).1.map_values(|t: Seq<char>| Some(t)),
{
    assert(to_be_said(token_added(s, token), waited_for, converted) =~= to_be_said(
        s,
        waited_for,
        converted,
    ) + sentences::fed(s.buffer, token).1.map_values(|t: Seq<char>| Some(t)));
}

// ---------------------------------------------------------------- the tick

/// What the tick hears of the voice.
pub enum TickEvent {
    /// The voice is at something else now.
    State(SpeakState),
    /// Nothing happened for a while.
    Nothing,
    /// The voice is gone.
    Gone,
}

/// What becomes of the tick's sound.
pub struct TickStep {
    /// Stop the sound.
    pub stop: bool,
    /// Play the sound.
    pub play: bool,
    /// There is nothing more to do.
    pub done: bool,
}

/// The tick that sounds while text is converted to speech and nothing was said yet.
pub struct Ticker {
    pub should_tick: bool,
    pub has_spoken: bool,
}

/// The tick after something happened.
pub open spec fn ticked(t: Ticker, event: TickEvent) -> Ticker {
    match event {
        TickEvent::State(SpeakState::Converting) => Ticker {
            should_tick: t.should_tick || !t.has_spoken,
            ..t
        },
        TickEvent::State(SpeakState::Playing) => Ticker { should_tick: false, has_spoken: true },
        TickEvent::State(SpeakState::Idle) => Ticker { should_tick: false, has_spoken: false },
        TickEvent::Nothing => t,
        TickEvent::Gone => t,
    }
}

impl Ticker {
    /// A tick that is silent.
    pub fn new() -> (r: Self)
        ensures
            r == (Ticker { should_tick: false, has_spoken: false }),
    {
        Ticker { should_tick: false, has_spoken: false }
    }

    /// Takes what happened, and whether the tick's sound has ended.
    pub fn step(&mut self, event: TickEvent, sound_ended: bool) -> (r: TickStep)
        ensures
            *final(self) == ticked(*old(self), event),
            r.stop == (event matches TickEvent::State(s) && s != SpeakState::Converting),
            r.done == event is Gone,
            r.play == (!r.done && final(self).should_tick && sound_ended),
            r.play ==> sound_ended && !r.stop && !r.done && final(self).should_tick,
            r.stop ==> !final(self).should_tick,
            old(self).should_tick && !final(self).should_tick ==> r.stop,
            sound_ended && final(self).should_tick && !(event is Gone) ==> r.play,
    {
        let mut stop = false;
        match event {
            TickEvent::State(SpeakState::Converting) => {
                if !self.has_spoken {
                    self.should_tick = true;
                }
            },
            TickEvent::State(SpeakState::Playing) => {
                self.has_spoken = true;
                self.should_tick = false;
                stop = true;
            },
            TickEvent::State(SpeakState::Idle) => {
                self.has_spoken = false;
                self.should_tick = false;
                stop = true;
            },
            TickEvent::Gone => {
                return TickStep { stop: false, play: false, done: true };
            },
            TickEvent::Nothing => {},
        }
        TickStep { stop, play: self.should_tick && sound_ended, done: false }
    }
}

/// The tick never sounds over the voice: once the voice plays, it does not tick until
/// the voice is idle again.
pub proof fn no_tick_over_the_voice(t: Ticker, events: Seq<TickEvent>)
    requires
        t.has_spoken,
        !t.should_tick,
        forall|i: int| 0 <= i < events.len() ==> #[trigger] events[i] != TickEvent::State(
            SpeakState::Idle,
        ),
    ensures
        ticked_through(t, events) == t,
    decreases events.len(),
{
    if events.len() > 0 {
        let before = events.drop_last();
        assert forall|i: int| 0 <= i < before.len() implies #[trigger] before[i]
            != TickEvent::State(SpeakState::Idle) by {
            assert(events[i] != TickEvent::State(SpeakState::Idle));
        }
        no_tick_over_the_voice(t, before);
        assert(events[events.len() - 1] != TickEvent::State(SpeakState::Idle));
    }
}

/// The tick after several things happened.
pub open spec fn ticked_through(t: Ticker, events: Seq<TickEvent>) -> Ticker
    decreases events.len(),
{
    if events.len() == 0 {
        t
    } else {
        ticked(ticked_through(t, events.drop_last()), events.last())
    }
}

// ---------------------------------------------------------------- laws of what is kept

/// Whether two streams have the same settings: the voice, its speed, and whether it is muted.
pub open spec fn same_settings(a: SpeakStreamView, b: SpeakStreamView) -> bool {
    a.voice == b.voice && a.speech_speed == b.speech_speed && a.muted == b.muted
}

/// What is said and what is stopped changes nothing in how it is said.
pub proof fn settings_are_kept(
    s: SpeakStreamView,
    token: Seq<char>,
    conversion: u64,
    task: AudioTask<Seq<char>>,
)
    ensures
        same_settings(token_added(s, token), s),
        same_settings(conversion_started(s, conversion), s),
        same_settings(conversion_taken(s), s),
        same_settings(conversion_delivered(s, task), s),
        same_settings(audio_taken(s), s),
        same_settings(silenced(s), s),
{
}

/// A token is only added to what waits to be said: what is being converted or played goes on,
/// and what waited before still comes first.
pub proof fn tokens_disturb_nothing(s: SpeakStreamView, token: Seq<char>)
    ensures
        ({
            let after = token_added(s, token);
            &&& after.converting == s.converting && after.audio == s.audio
            &&& after.states == s.states
            &&& after.kill_requested == s.kill_requested
            &&& after.stop_requested == s.stop_requested
            &&& s.texts.is_prefix_of(after.texts)
            &&& token.len() == 0 ==> after == s
        }),
{
    let after = token_added(s, token);
    assert(after.texts.take(s.texts.len() as int) =~= s.texts);
    if token.len() == 0 {
        assert(s.texts + sentences::fed(s.buffer, token).1 =~= s.texts);
    }
}

/// Stopping forgets what waits, asks for what is under way to be given up, and tells that the
/// voice is idle; the conversions that are under way are still known, to be given up.
pub proof fn stopping_asks_for_silence(s: SpeakStreamView)
    ensures
        silenced(s).kill_requested && silenced(s).stop_requested,
        silenced(s).converting == s.converting,
        silenced(s).states.len() == s.states.len() + 1,
        silenced(s).states.last() == SpeakState::Idle,
        silenced(s).states.drop_last() == s.states,
{
    assert(silenced(s).states.drop_last() =~= s.states);
}

/// What is stopped is stopped whenever the conversion ends: once that was asked for, its
/// outcome is not played, the other conversions are given up, and that is done once.
pub proof fn killed_conversions_are_not_played(s: SpeakStreamView, task: AudioTask<Seq<char>>)
    ensures
        s.kill_requested ==> conversion_delivered(s, task).audio == s.audio
            && conversion_delivered(s, task).converting.len() == 0 && !conversion_delivered(
            s,
            task,
        ).kill_requested,
        !s.kill_requested ==> conversion_delivered(s, task).audio == s.audio.push(task)
            && conversion_delivered(s, task).converting == s.converting,
        conversion_delivered(s, task).texts == s.texts && conversion_delivered(s, task).buffer
            == s.buffer,
{
}

/// The voice tells what it is at: that it converts when a conversion is started, and that it
/// plays when a clip is taken. A wish to stop is for the clip that plays, not for the next.
pub proof fn voice_tells_its_state(s: SpeakStreamView, conversion: u64)
    ensures
        conversion_started(s, conversion).states == s.states.push(SpeakState::Converting),
        audio_taken(s).states == s.states.push(SpeakState::Playing),
        !audio_taken(s).stop_requested,
        conversion_taken(s).states == s.states,
        s.texts.len() > 0 ==> conversion_started(s, conversion).texts.len() == s.texts.len() - 1,
        conversion_started(s, conversion).converting.last() == conversion,
        conversion_started(s, conversion).converting.len() == s.converting.len() + 1,
{
}

/// The tick begins when text is converted and nothing was said since the voice was idle, goes
/// on until the voice plays or is idle, and is silent otherwise.
pub proof fn tick_sounds_until_something_is_said(t: Ticker)
    ensures
        ticked(t, TickEvent::State(SpeakState::Converting)).should_tick <==> t.should_tick
            || !t.has_spoken,
        ticked(t, TickEvent::State(SpeakState::Converting)).has_spoken == t.has_spoken,
        !ticked(t, TickEvent::State(SpeakState::Playing)).should_tick,
        ticked(t, TickEvent::State(SpeakState::Playing)).has_spoken,
        !ticked(t, TickEvent::State(SpeakState::Idle)).should_tick,
        !ticked(t, TickEvent::State(SpeakState::Idle)).has_spoken,
        ticked(
            ticked(t, TickEvent::State(SpeakState::Idle)),
            TickEvent::State(SpeakState::Converting),
        ).should_tick,
        ticked(t, TickEvent::Nothing) == t,
{
}

} // verus!
