use quick_assistant::default_device_sink::{
    devices_to_try, get_output_device, opened_device, set_output_device, AudioBuffer,
    DefaultDeviceSink, OutputSelection, SinkSettings,
};
use quick_assistant::web_search::{begin, request, web_search, Next, Reply, Request, Stage};

fn text(s: &str) -> Reply<String> {
    Reply::Text(s.to_string())
}

fn some(s: &str) -> Option<String> {
    Some(s.to_string())
}

const MESSAGES: &str = "{\"data\": [\
{\"role\": \"user\", \"created_at\": 9, \"content\": [{\"text\": {\"value\": \"question\"}}]},\
{\"role\": \"assistant\", \"created_at\": 3, \"content\": [{\"text\": {\"value\": \"old\"}}]},\
{\"role\": \"assistant\", \"created_at\": 5, \"content\": [{\"text\": {\"value\": \"new\"}}]},\
{\"role\": \"assistant\", \"created_at\": 5, \"content\": [{\"text\": {\"value\": \"newer\"}}]},\
{\"role\": \"assistant\", \"content\": [{\"text\": {\"value\": \"undated\"}}]}]}";

#[test]
fn search_goes_through_its_stages() {
    let mut stage = match begin(None) {
        Ok(Next::Send(s)) => s,
        _ => panic!("the search begins"),
    };
    let mut urls = Vec::new();
    let mut found = None;
    for reply in [
        "{\"id\": \"as\"}",
        "{\"id\": \"th\"}",
        "not json, and not read",
        "{\"id\": \"ru\"}",
        "{\"status\": \"queued\"}",
        "{\"status\": \"completed\"}",
        MESSAGES,
    ] {
        urls.push(match request(&stage, "why?") {
            Request::CreateAssistant { url, model, instructions, tool } => {
                assert_eq!((model.as_str(), tool.as_str()), ("gpt-4o", "browser"));
                assert_eq!(instructions, "Answer user questions using web search.");
                url
            }
            Request::CreateThread { url } => url,
            Request::AddMessage { url, role, content } => {
                assert_eq!((role.as_str(), content.as_str()), ("user", "why?"));
                url
            }
            Request::StartRun { url, assistant_id } => {
                assert_eq!(assistant_id, "as");
                url
            }
            Request::Get { url } => url,
        });
        match web_search(&stage, text(reply)) {
            Ok(Next::Send(s)) => stage = s,
            Ok(Next::SendLater(s)) => stage = s,
            Ok(Next::Found(t)) => found = Some(t),
            Err(e) => panic!("{}", e.context),
        }
    }
    assert_eq!(found, some("newer"));
    assert_eq!(
        urls,
        vec![
            "https://api.openai.com/v1/assistants",
            "https://api.openai.com/v1/threads",
            "https://api.openai.com/v1/threads/th/messages",
            "https://api.openai.com/v1/threads/th/runs",
            "https://api.openai.com/v1/threads/th/runs/ru",
            "https://api.openai.com/v1/threads/th/runs/ru",
            "https://api.openai.com/v1/threads/th/messages",
        ]
    );
}

#[test]
fn search_can_fail_at_every_stage() {
    let s = |t: &str| t.to_string();
    let stages = [
        (Stage::Assistant, "Failed to create assistant", "Failed to parse assistant response", "No assistant id"),
        (Stage::Thread { assistant: s("a") }, "Failed to create thread", "Failed to parse thread response", "No thread id"),
        (Stage::Run { assistant: s("a"), thread: s("t") }, "Failed to start run", "Failed to parse run response", "No run id"),
        (Stage::Messages { thread: s("t") }, "Failed to fetch messages", "Failed to parse messages", "No messages array"),
    ];
    for (stage, sent, parsed, missing) in stages {
        let e = web_search(&stage, Reply::NotSent(s("net"))).err().unwrap();
        assert_eq!((e.context.as_str(), e.cause), (sent, some("net")));
        let e = web_search(&stage, Reply::NotRead(s("cut"))).err().unwrap();
        assert_eq!((e.context.as_str(), e.cause), (parsed, some("cut")));
        let e = web_search(&stage, text("{")).err().unwrap();
        assert_eq!(e.context, parsed);
        assert_eq!(e.cause, some("error decoding response body"));
        assert_eq!(e.source, some("EOF while parsing an object at line 1 column 1"));
        let e = web_search(&stage, Reply::Bytes(vec![b'"', 0xff, b'"'])).err().unwrap();
        assert_eq!(e.context, parsed);
        assert_eq!(e.cause, some("error decoding response body"));
        assert_eq!(e.source, some("invalid unicode code point at line 1 column 2"));
        let e = web_search(&stage, text("{}")).err().unwrap();
        assert_eq!((e.context.as_str(), e.cause), (missing, None));
    }
    let query = Stage::Query { assistant: s("a"), thread: s("t") };
    let e = web_search(&query, Reply::NotSent(s("net"))).err().unwrap();
    assert_eq!(e.context, "Failed to add message");
    assert!(matches!(web_search(&query, Reply::NotRead(s("x"))), Ok(Next::Send(Stage::Run { .. }))));
    let status = Stage::Status { thread: s("t"), run: s("r") };
    let e = web_search(&status, text("{\"status\": \"failed\"}")).err().unwrap();
    assert_eq!(e.context, "run failed");
    let e = web_search(&status, Reply::NotSent(s("net"))).err().unwrap();
    assert_eq!(e.context, "Failed to fetch run status");
    let e = web_search(&status, text("x")).err().unwrap();
    assert_eq!(e.context, "Failed to parse run status");
    assert!(matches!(web_search(&status, text("{}")), Ok(Next::SendLater(Stage::Status { .. }))));
    assert!(matches!(web_search(&query, Reply::Bytes(vec![0xff])), Ok(Next::Send(Stage::Run { .. }))));
    let e = begin(some("environment variable not found")).err().unwrap();
    assert_eq!(e.context, "OPENAI_API_KEY environment variable not set");
    assert_eq!(e.cause, some("environment variable not found"));
    assert_eq!(e.source, None);
}

#[test]
fn search_without_an_answer_is_empty() {
    let stage = Stage::Messages { thread: "t".to_string() };
    for body in ["{\"data\": []}", "{\"data\": [{\"role\": \"user\"}, 3]}", "{\"data\": [{\"role\": \"assistant\"}]}"] {
        assert!(matches!(web_search(&stage, text(body)), Ok(Next::Found(t)) if t.is_empty()));
    }
}

fn settings() -> SinkSettings {
    SinkSettings { volume: 1.0f32.to_bits(), speed: 1.5f32.to_bits(), paused: true }
}

#[test]
fn waiting_sounds_go_to_the_new_device() {
    let mut sink = DefaultDeviceSink::new(some("A"));
    for n in 1..=4 {
        sink.append(n);
    }
    // Two have been played.
    assert!(sink.ensure_device(None, some("A"), 2, settings()).is_none());
    let h = sink.ensure_device(some("B"), some("A"), 2, settings()).unwrap();
    assert_eq!(h.sounds, vec![3, 4]);
    assert_eq!(h.settings, settings());
    sink.device_opened(some("B"));
    assert!(sink.ensure_device(some("B"), some("A"), 2, settings()).is_none());
    let back = sink.ensure_device(None, some("A"), 2, settings()).unwrap();
    assert_eq!(back.sounds, vec![3, 4]);
}

#[test]
fn sounds_can_be_skipped_and_stopped() {
    let mut sink = DefaultDeviceSink::new(None);
    sink.skip_one();
    for n in 1..=3 {
        sink.append(n);
    }
    sink.skip_one();
    assert_eq!(sink.ensure_device(some("B"), None, 9, settings()).unwrap().sounds, vec![2, 3]);
    sink.sync_queue(1);
    assert_eq!(sink.ensure_device(some("B"), None, 9, settings()).unwrap().sounds, vec![3]);
    sink.stop();
    assert!(sink.ensure_device(some("B"), None, 9, settings()).unwrap().sounds.is_empty());
    sink.append(5);
    sink.clear();
    assert!(sink.ensure_device(some("B"), None, 9, settings()).unwrap().sounds.is_empty());
}

#[test]
fn sounds_go_on_where_they_were() {
    let mut sound = AudioBuffer::new(2, 48_000, vec![7, 8, 9]);
    assert_eq!(sound.next(), Some(7));
    assert_eq!(sound.next(), Some(8));
    assert_eq!(sound.pos, 2);
    assert_eq!(sound.next(), Some(9));
    assert_eq!(sound.next(), None);
    assert_eq!(sound.next(), None);
}

#[test]
fn devices_are_found_by_name() {
    let devices = vec![some("A"), None, some("B"), some("A")];
    assert_eq!(devices_to_try(&devices, &some("A")), vec![0, 3]);
    assert_eq!(devices_to_try(&devices, &some("C")), Vec::<usize>::new());
    assert_eq!(devices_to_try(&devices, &None), Vec::<usize>::new());
    assert_eq!(opened_device(&devices, Some(2), &some("D")), some("B"));
    assert_eq!(opened_device(&devices, None, &some("D")), some("D"));
    let mut selection = OutputSelection::new();
    set_output_device(&mut selection, some("A"));
    assert_eq!(get_output_device(&selection), some("A"));
    set_output_device(&mut selection, None);
    assert_eq!(get_output_device(&selection), None);
}

#[test]
fn response_is_the_first_part_of_the_latest_message() {
    let stage = Stage::Messages { thread: "t".to_string() };
    let part = |t: &str| format!("{{\"text\": {{\"value\": \"{}\"}}}}", t);
    let message = |role: &str, time: i64, parts: &[&str]| {
        let parts: Vec<String> = parts.iter().map(|t| part(t)).collect();
        format!(
            "{{\"role\": \"{}\", \"created_at\": {}, \"content\": [{}]}}",
            role,
            time,
            parts.join(",")
        )
    };
    let found = |messages: &[String]| {
        let body = format!("{{\"data\": [{}]}}", messages.join(","));
        match web_search(&stage, text(&body)) {
            Ok(Next::Found(t)) => t,
            _ => panic!("{}", body),
        }
    };
    let early = message("assistant", 5, &["early", "more"]);
    let late = message("assistant", 9, &["late", "more"]);
    let asked = message("user", 20, &["question"]);
    assert_eq!(found(&[early.clone(), asked.clone(), late.clone()]), "late");
    assert_eq!(found(&[late.clone(), early.clone()]), "late");
    assert_eq!(found(&[early.clone(), message("assistant", 5, &["same"])]), "same");
    assert_eq!(found(&[late, message("assistant", 10, &[])]), "");
    assert_eq!(found(&[asked]), "");
    // A part that is not in a list is none.
    let odd = "{\"role\": \"assistant\", \"content\": {\"0\": {\"text\": {\"value\": \"x\"}}}}";
    assert_eq!(found(&[odd.to_string()]), "");
}
