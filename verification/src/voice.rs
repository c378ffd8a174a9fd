//! The voices that the assistant speaks with.

use crate::strings;
use vstd::prelude::*;

verus! {

/// A voice of the speech service.
#[derive(Clone, Copy, Debug, PartialEq, Eq, Structural)]
pub enum Voice {
    Alloy,
    Ash,
    Coral,
    Echo,
    Fable,
    Onyx,
    Nova,
    Sage,
    Shimmer,
    /// A voice that the assistant has no name for.
    Other,
}

/// The voices that can be chosen on the command line.
#[derive(Clone, Copy, Debug)]
pub enum VoiceEnum {
    Alloy,
    Echo,
    Fable,
    Onyx,
    Nova,
    Shimmer,
}

/// The voice that a choice on the command line stands for.
pub open spec fn chosen(item: VoiceEnum) -> Voice {
    match item {
        VoiceEnum::Alloy => Voice::Alloy,
        VoiceEnum::Echo => Voice::Echo,
        VoiceEnum::Fable => Voice::Fable,
        VoiceEnum::Onyx => Voice::Onyx,
        VoiceEnum::Nova => Voice::Nova,
        VoiceEnum::Shimmer => Voice::Shimmer,
    }
}

impl From<VoiceEnum> for Voice {
    fn from(item: VoiceEnum) -> (r: Self) {
        match item {
            VoiceEnum::Alloy => Voice::Alloy,
            VoiceEnum::Echo => Voice::Echo,
            VoiceEnum::Fable => Voice::Fable,
            VoiceEnum::Onyx => Voice::Onyx,
            VoiceEnum::Nova => Voice::Nova,
            VoiceEnum::Shimmer => Voice::Shimmer,
        }
    }
}

impl vstd::std_specs::convert::FromSpecImpl<VoiceEnum> for Voice {
    open spec fn obeys_from_spec() -> bool {
        true
    }

    open spec fn from_spec(item: VoiceEnum) -> Self {
        chosen(item)
    }
}

/// Whether the quick assistant knows a voice by name.
pub open spec fn is_quick_voice(voice: Voice) -> bool {
    match voice {
        Voice::Alloy | Voice::Echo | Voice::Fable | Voice::Onyx | Voice::Nova | Voice::Shimmer => true,
        _ => false,
    }
}

/// The name of a voice.
pub open spec fn name_of(voice: Voice) -> Seq<char> {
    match voice {
        Voice::Alloy => "alloy"@,
        Voice::Ash => "ash"@,
        Voice::Coral => "coral"@,
        Voice::Echo => "echo"@,
        Voice::Fable => "fable"@,
        Voice::Onyx => "onyx"@,
        Voice::Nova => "nova"@,
        Voice::Sage => "sage"@,
        Voice::Shimmer => "shimmer"@,
        Voice::Other => "unknown"@,
    }
}

/// The voice with this name, if the assistant of the assistants service knows one.
pub open spec fn named(name: Seq<char>) -> Option<Voice> {
    if name == "alloy"@ {
        Some(Voice::Alloy)
    } else if name == "ash"@ {
        Some(Voice::Ash)
    } else if name == "coral"@ {
        Some(Voice::Coral)
    } else if name == "echo"@ {
        Some(Voice::Echo)
    } else if name == "fable"@ {
        Some(Voice::Fable)
    } else if name == "onyx"@ {
        Some(Voice::Onyx)
    } else if name == "nova"@ {
        Some(Voice::Nova)
    } else if name == "sage"@ {
        Some(Voice::Sage)
    } else if name == "shimmer"@ {
        Some(Voice::Shimmer)
    } else {
        None
    }
}

/// The voice with this name, if the quick assistant knows one.
pub open spec fn quick_named(name: Seq<char>) -> Option<Voice> {
    match named(name) {
        Some(voice) if is_quick_voice(voice) => Some(voice),
        _ => None,
    }
}

/// The voice with this name in small letters.
pub fn voice_named(name: &str) -> (r: Option<Voice>)
    ensures
        r == named(name@),
{
    if strings::same_text(name, "alloy") {
        Some(Voice::Alloy)
    } else if strings::same_text(name, "ash") {
        Some(Voice::Ash)
    } else if strings::same_text(name, "coral") {
        Some(Voice::Coral)
    } else if strings::same_text(name, "echo") {
        Some(Voice::Echo)
    } else if strings::same_text(name, "fable") {
        Some(Voice::Fable)
    } else if strings::same_text(name, "onyx") {
        Some(Voice::Onyx)
    } else if strings::same_text(name, "nova") {
        Some(Voice::Nova)
    } else if strings::same_text(name, "sage") {
        Some(Voice::Sage)
    } else if strings::same_text(name, "shimmer") {
        Some(Voice::Shimmer)
    } else {
        None
    }
}

/// The voice of the quick assistant with this name in small letters.
pub fn quick_voice_named(name: &str) -> (r: Option<Voice>)
    ensures
        r == quick_named(name@),
{
    match voice_named(name) {
        Some(Voice::Ash) | Some(Voice::Coral) | Some(Voice::Sage) => None,
        found => found,
    }
}

/// The voice of the quick assistant that a name stands for, in small or capital letters.
pub fn parse_voice(name: &str) -> (r: Option<Voice>)
    ensures
        r == quick_named(strings::lowercase(name@)),
        r matches Some(voice) ==> name_of(voice) == strings::lowercase(name@),
        forall|other: Seq<char>|
            strings::same_but_for_case(name@, other) ==> r == quick_named(
                #[trigger] strings::lowercase(other),
            ),
        vstd::utf8::is_ascii_chars(name@) ==> r == quick_named(strings::ascii_lowercase(name@)),
{
    let lower = strings::to_lowercase(name);
    quick_voice_named(lower.as_str())
}

/// The voice that a name stands for with the assistants service, in small or capital letters.
pub fn parse_assistant_voice(name: &str) -> (r: Option<Voice>)
    ensures
        r == named(strings::lowercase(name@)),
        r matches Some(voice) ==> name_of(voice) == strings::lowercase(name@),
        forall|other: Seq<char>|
            strings::same_but_for_case(name@, other) ==> r == named(
                #[trigger] strings::lowercase(other),
            ),
        vstd::utf8::is_ascii_chars(name@) ==> r == named(strings::ascii_lowercase(name@)),
{
    let lower = strings::to_lowercase(name);
    voice_named(lower.as_str())
}

/// The name that the quick assistant has for a voice.
pub fn voice_to_str(voice: &Voice) -> (r: &'static str)
    ensures
        r@ == (if is_quick_voice(*voice) {
            name_of(*voice)
        } else {
            "unknown"@
        }),
{
    match voice {
        Voice::Alloy => "alloy",
        Voice::Echo => "echo",
        Voice::Fable => "fable",
        Voice::Onyx => "onyx",
        Voice::Nova => "nova",
        Voice::Shimmer => "shimmer",
        _ => "unknown",
    }
}

/// The name that the assistant of the assistants service has for a voice.
pub fn assistant_voice_to_str(voice: &Voice) -> (r: &'static str)
    ensures
        r@ == name_of(*voice),
{
    match voice {
        Voice::Alloy => "alloy",
        Voice::Ash => "ash",
        Voice::Coral => "coral",
        Voice::Echo => "echo",
        Voice::Fable => "fable",
        Voice::Onyx => "onyx",
        Voice::Nova => "nova",
        Voice::Sage => "sage",
        Voice::Shimmer => "shimmer",
        Voice::Other => "unknown",
    }
}

/// A voice that has a name is found by it, also where the name is written in
/// capital letters.
pub proof fn name_finds_voice(voice: Voice, written: Seq<char>)
    requires
        strings::ascii_lowercase(written) == name_of(voice),
    ensures
        named(strings::ascii_lowercase(written)) == (if voice is Other {
            None
        } else {
            Some(voice)
        }),
        quick_named(strings::ascii_lowercase(written)) == (if is_quick_voice(voice) {
            Some(voice)
        } else {
            None
        }),
{
    names_differ();
    let name = strings::ascii_lowercase(written);
    voice_has_name(name);
    if let Some(found) = named(name) {
        if found != voice {
            assert(name_of(found) != name_of(voice));
        }
    }
}

/// A voice is found by the name that is told of it.
pub proof fn told_name_finds_voice(voice: Voice)
    ensures
        vstd::utf8::is_ascii_chars(name_of(voice)),
        strings::ascii_lowercase(name_of(voice)) == name_of(voice),
        is_quick_voice(voice) ==> quick_named(strings::ascii_lowercase(name_of(voice))) == Some(
            voice,
        ),
        !(voice is Other) ==> named(strings::ascii_lowercase(name_of(voice))) == Some(voice),
{
    reveal_strlit("alloy");
    reveal_strlit("ash");
    reveal_strlit("coral");
    reveal_strlit("echo");
    reveal_strlit("fable");
    reveal_strlit("onyx");
    reveal_strlit("nova");
    reveal_strlit("sage");
    reveal_strlit("shimmer");
    reveal_strlit("unknown");
    assert(strings::ascii_lowercase(name_of(voice)) =~= name_of(voice));
    name_finds_voice(voice, name_of(voice));
}

/// No voice is known as the name that is told of voices without one.
pub proof fn unknown_is_no_voice()
    ensures
        named("unknown"@) is None,
        quick_named("unknown"@) is None,
{
    names_differ();
    voice_has_name("unknown"@);
    if let Some(found) = named("unknown"@) {
        assert(name_of(found) != name_of(Voice::Other));
    }
}

/// A name is found for no voice but the one that has it.
pub proof fn voice_has_name(name: Seq<char>)
    ensures
        named(name) matches Some(voice) ==> name_of(voice) == name && !(voice is Other),
{
}

proof fn names_differ()
    ensures
        forall|a: Voice, b: Voice| a != b ==> #[trigger] name_of(a) != #[trigger] name_of(b),
{
    reveal_strlit("alloy");
    reveal_strlit("ash");
    reveal_strlit("coral");
    reveal_strlit("echo");
    reveal_strlit("fable");
    reveal_strlit("onyx");
    reveal_strlit("nova");
    reveal_strlit("sage");
    reveal_strlit("shimmer");
    reveal_strlit("unknown");
    assert forall|a: Voice, b: Voice| a != b implies #[trigger] name_of(a) != #[trigger] name_of(
        b,
    ) by {
        let (x, y) = (name_of(a), name_of(b));
        if x == y {
            assert(x.len() == y.len());
            assert(x[0] == y[0]);
            assert(x[1] == y[1]);
        }
    }
}

/// The voices that the quick assistant knows by name are those that can be chosen on the
/// command line, and no two choices stand for the same voice.
pub proof fn choices_are_quick_voices(item: VoiceEnum, other: VoiceEnum, voice: Voice)
    ensures
        is_quick_voice(chosen(item)),
        chosen(item) == chosen(other) ==> item == other,
        is_quick_voice(voice) ==> exists|i: VoiceEnum| #[trigger] chosen(i) == voice,
        item is Alloy <==> name_of(chosen(item)) == "alloy"@,
        item is Echo <==> name_of(chosen(item)) == "echo"@,
        item is Fable <==> name_of(chosen(item)) == "fable"@,
        item is Onyx <==> name_of(chosen(item)) == "onyx"@,
        item is Nova <==> name_of(chosen(item)) == "nova"@,
        item is Shimmer <==> name_of(chosen(item)) == "shimmer"@,
{
    names_differ();
    assert(name_of(Voice::Alloy) == "alloy"@ && name_of(Voice::Echo) == "echo"@);
    assert(name_of(Voice::Fable) == "fable"@ && name_of(Voice::Onyx) == "onyx"@);
    assert(name_of(Voice::Nova) == "nova"@ && name_of(Voice::Shimmer) == "shimmer"@);
    match voice {
        Voice::Alloy => assert(chosen(VoiceEnum::Alloy) == voice),
        Voice::Echo => assert(chosen(VoiceEnum::Echo) == voice),
        Voice::Fable => assert(chosen(VoiceEnum::Fable) == voice),
        Voice::Onyx => assert(chosen(VoiceEnum::Onyx) == voice),
        Voice::Nova => assert(chosen(VoiceEnum::Nova) == voice),
        Voice::Shimmer => assert(chosen(VoiceEnum::Shimmer) == voice),
        _ => {},
    }
}

} // verus!
