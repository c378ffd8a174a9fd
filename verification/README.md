# Quick Assistant

A push-to-talk AI voice assistant for your desktop. Hold a key and talk; the assistant
answers in text and voice, and can be interrupted in the middle of a sentence.

`src/` is the library: the rules by which the assistant works, verified with Verus. It
touches no files, devices or services; of the machine it reads the clock and random bytes,
and nothing else. `app/` holds the programs around it, which listen to the keyboard, record,
talk to the services, play sounds, and turn the values of other crates into those of the
library and back.

| module | what it decides |
| --- | --- |
| `text`, `strings` | texts: trimming, numbers, lines, order |
| `sentences`, `speakstream`, `speak_stream_ext`, `voice` | what is spoken, in which order, by which voice |
| `timers`, `clock`, `table` | timers, their file, the alarm, the stopwatch |
| `chat`, `push_to_talk` | the conversation, and the key that is held to talk |
| `catalogue`, `tools`, `json` | the functions that the assistant can call |
| `assistant` | the assistant that runs on the assistants service |
| `web_search` | a search of the web by a temporary assistant |
| `programs`, `paths`, `unique`, `system_report` | the programs that are run, and reports on the machine |
| `default_device_sink` | the device that plays, and what waits to be played |
| `windows_focus`, `windows_volume` | what only Windows can do |
| `options`, `ui` | the start of the programs, and the window for messages |

What is taken on trust from other crates and from the standard library stands in functions
marked `external_body`, in `json`, `clock`, `table`, `unique`, `paths` and `strings`, and in
one `assume_specification`, of `String::push`, in `strings`. Each says what is believed of
which outside function. Where its result takes too long to state, a spec function without a
body names it.
