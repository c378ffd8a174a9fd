//! The decisions of a push-to-talk voice assistant, apart from the devices and
//! services that carry them out.

pub mod assistant;
pub mod catalogue;
pub mod chat;
pub mod clock;
pub mod default_device_sink;
pub mod json;
pub mod options;
pub mod paths;
pub mod programs;
pub mod push_to_talk;
pub mod sentences;
pub mod speak_stream_ext;
pub mod speakstream;
pub mod strings;
pub mod system_report;
pub mod table;
pub mod text;
pub mod timers;
pub mod tools;
pub mod ui;
pub mod unique;
pub mod voice;
pub mod web_search;
pub mod windows_focus;
pub mod windows_volume;
