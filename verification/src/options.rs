//! What the assistant is started with.

use crate::tools;
use crate::voice;
use crate::voice::{Voice, VoiceEnum};
use vstd::prelude::*;

verus! {

/// What can be done instead of talking to the assistant.
#[derive(Clone, Copy, Debug, PartialEq, Eq, Structural)]
pub enum SubCommands {
    /// Displays keys as you press them so you can figure out what key to use for push to talk.
    ShowKeyPresses,
    /// Lists the audio input devices on your system.
    ListDevices,
}

/// The voice that the assistant starts with.
pub fn starting_voice(chosen: Option<VoiceEnum>) -> (r: Voice)
    ensures
        r == (match chosen {
            Some(item) => voice::chosen(item),
            None => Voice::Echo,
        }),
{
    match chosen {
        Some(item) => Voice::from(item),
        None => Voice::Echo,
    }
}

/// The key that is held to talk: one that has a name, or one by its number.
pub enum TalkKeyChoice<K> {
    Named(K),
    Special(u32),
}

/// Why the assistant cannot start, if it cannot.
pub open spec fn refusal(speech_speed: u32, has_key: bool, has_api_key: bool) -> Option<Seq<char>> {
    if !tools::can_speak_at(speech_speed) {
        Some("Speech speed must be between 0.5 and 100.0"@)
    } else if !has_key {
        Some(
            "No push to talk key specified. Please pass a key using the --ptt-key argument or the --special-ptt-key argument."@,
        )
    } else if !has_api_key {
        Some(
            "OPENAI_API_KEY not set. Please pass your API key as an argument or assign is to the 'OPENAI_API_KEY' env var using terminal or .env file."@,
        )
    } else {
        None
    }
}

/// Whether the assistant can start, and with which key: the speed of the voice, given by
/// the bits of a single-precision number, must be one that it can speak at, and there must
/// be a key to talk with and a key of the service.
pub fn check_options<K>(
    speech_speed: u32,
    ptt_key: Option<K>,
    special_ptt_key: Option<u32>,
    has_api_key: bool,
) -> (r: Result<TalkKeyChoice<K>, String>)
    ensures
        match r {
            Ok(key) => {
                &&& refusal(
                    speech_speed,
                    ptt_key is Some || special_ptt_key is Some,
                    has_api_key,
                ) is None
                &&& key == (match ptt_key {
                    Some(named) => TalkKeyChoice::Named(named),
                    None => TalkKeyChoice::Special(special_ptt_key->0),
                })
            },
            Err(message) => refusal(
                speech_speed,
                ptt_key is Some || special_ptt_key is Some,
                has_api_key,
            ) == Some(message@),
        },
{
    if !tools::is_speech_speed(speech_speed) {
        return Err("Speech speed must be between 0.5 and 100.0".to_owned());
    }
    let key = match ptt_key {
        Some(named) => TalkKeyChoice::Named(named),
        None => match special_ptt_key {
            Some(number) => TalkKeyChoice::Special(number),
            None => {
                return Err(
                    "No push to talk key specified. Please pass a key using the --ptt-key argument or the --special-ptt-key argument.".to_owned(),
                );
            },
        },
    };
    if !has_api_key {
        return Err(
            "OPENAI_API_KEY not set. Please pass your API key as an argument or assign is to the 'OPENAI_API_KEY' env var using terminal or .env file.".to_owned(),
        );
    }
    Ok(key)
}

/// The assistant starts exactly if its voice can speak at the speed, from 0.5 to 100.0 by its
/// bits, there is a key to talk with, and there is a key of the service.
pub proof fn assistant_starts_with_all_it_needs(speech_speed: u32, has_key: bool, has_api_key: bool)
    ensures
        refusal(speech_speed, has_key, has_api_key) is None <==> 0x3f00_0000 <= speech_speed
            <= 0x42c8_0000 && has_key && has_api_key,
{
    tools::speeds_are_bounded(speech_speed);
}

} // verus!
