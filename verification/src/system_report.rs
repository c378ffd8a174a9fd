//! Reports on the machine, from what was read of it.

use crate::strings;
use crate::text;
use vstd::prelude::*;

verus! {

// ---------------------------------------------------------------- the system

/// What a network interface received and sent, in bytes.
pub struct Traffic<S> {
    pub interface: S,
    pub received: u64,
    pub transmitted: u64,
}

/// What was read of the machine. Disks and components are given as they are printed.
pub struct SystemSnapshot {
    pub total_memory: u64,
    pub used_memory: u64,
    pub total_swap: u64,
    pub used_swap: u64,
    pub name: Option<String>,
    pub kernel_version: Option<String>,
    pub os_version: Option<String>,
    pub host_name: Option<String>,
    pub cpus: u64,
    pub disks: Vec<String>,
    pub networks: Vec<Traffic<String>>,
    pub components: Vec<String>,
}

/// A line: a label, a text and an end.
pub open spec fn line(label: Seq<char>, value: Seq<char>, end: Seq<char>) -> Seq<char> {
    label + value + end
}

fn push_line(out: &mut String, label: &str, value: &str, end: &str)
    ensures
        final(out)@ == old(out)@ + line(label@, value@, end@),
{
    out.append(label);
    out.append(value);
    out.append(end);
    assert(out@ =~= old(out)@ + line(label@, value@, end@));
}

/// The lines of the texts of a list, one each.
pub open spec fn text_lines(v: Seq<Seq<char>>) -> Seq<char>
    decreases v.len(),
{
    if v.len() == 0 {
        seq![]
    } else {
        text_lines(v.drop_last()) + line(seq![], v.last(), "\n"@)
    }
}

fn push_text_lines(out: &mut String, v: &Vec<String>)
    ensures
        final(out)@ == old(out)@ + text_lines(text::texts(v@)),
{
    let mut i: usize = 0;
    let ghost all = text::texts(v@);
    assert(all.take(0) =~= seq![]);
    assert(out@ =~= old(out)@ + text_lines(all.take(0)));
    while i < v.len()
        invariant
            i <= v.len(),
            all == text::texts(v@),
            out@ == old(out)@ + text_lines(all.take(i as int)),
        decreases v.len() - i,
    {
        let ghost before = out@;
        out.append(v[i].as_str());
        out.append("\n");
        proof {
            assert(all.take(i + 1).drop_last() =~= all.take(i as int));
            assert(all.take(i + 1).last() == v@[i as int]@);
            assert(out@ =~= before + line(seq![], v@[i as int]@, "\n"@));
            assert(out@ =~= old(out)@ + text_lines(all.take(i + 1)));
        }
        i = i + 1;
    }
    assert(all.take(i as int) =~= all);
}

/// The line on a network interface.
pub open spec fn traffic_line(t: Traffic<Seq<char>>) -> Seq<char> {
    t.interface + ": "@ + text::decimal(t.received as nat) + " B (down) / "@ + text::decimal(
        t.transmitted as nat,
    ) + " B (up)\n"@
}

/// The network interfaces of a list, with their names as sequences of characters.
pub open spec fn traffic_views(v: Seq<Traffic<String>>) -> Seq<Traffic<Seq<char>>> {
    v.map_values(
        |t: Traffic<String>|
            Traffic {
                interface: t.interface@,
                received: t.received,
                transmitted: t.transmitted,
            },
    )
}

/// The lines on the network interfaces of a list.
pub open spec fn traffic_lines(v: Seq<Traffic<Seq<char>>>) -> Seq<char>
    decreases v.len(),
{
    if v.len() == 0 {
        seq![]
    } else {
        traffic_lines(v.drop_last()) + traffic_line(v.last())
    }
}

fn push_traffic_lines(out: &mut String, v: &Vec<Traffic<String>>)
    ensures
        final(out)@ == old(out)@ + traffic_lines(traffic_views(v@)),
{
    let mut i: usize = 0;
    let ghost all = traffic_views(v@);
    assert(all.take(0) =~= seq![]);
    assert(out@ =~= old(out)@ + traffic_lines(all.take(0)));
    while i < v.len()
        invariant
            i <= v.len(),
            all == traffic_views(v@),
            out@ == old(out)@ + traffic_lines(all.take(i as int)),
        decreases v.len() - i,
    {
        let ghost before = out@;
        let received = text::decimal_text(v[i].received);
        let transmitted = text::decimal_text(v[i].transmitted);
        out.append(v[i].interface.as_str());
        out.append(": ");
        out.append(received.as_str());
        out.append(" B (down) / ");
        out.append(transmitted.as_str());
        out.append(" B (up)\n");
        proof {
            assert(all.take(i + 1).drop_last() =~= all.take(i as int));
            assert(all.take(i + 1).last() == all[i as int]);
            assert(out@ =~= before + traffic_line(all[i as int]));
            assert(out@ =~= old(out)@ + traffic_lines(all.take(i + 1)));
        }
        i = i + 1;
    }
    assert(all.take(i as int) =~= all);
}

/// The part of the report on the system itself.
pub open spec fn system_part(s: SystemSnapshot) -> Seq<char> {
    "=> system:\n"@ + line("total memory: "@, text::decimal(s.total_memory as nat), " bytes\n"@)
        + line("used memory : "@, text::decimal(s.used_memory as nat), " bytes\n"@) + line(
        "total swap  : "@,
        text::decimal(s.total_swap as nat),
        " bytes\n"@,
    ) + line("used swap   : "@, text::decimal(s.used_swap as nat), " bytes\n"@) + line(
        "System name:             "@,
        strings::debug_shown(text::optional(s.name)),
        "\n"@,
    ) + line(
        "System kernel version:   "@,
        strings::debug_shown(text::optional(s.kernel_version)),
        "\n"@,
    ) + line(
        "System OS version:       "@,
        strings::debug_shown(text::optional(s.os_version)),
        "\n"@,
    ) + line(
        "System host name:        "@,
        strings::debug_shown(text::optional(s.host_name)),
        "\n"@,
    ) + line("NB CPUs: "@, text::decimal(s.cpus as nat), "\n"@)
}

/// The report on the machine.
pub open spec fn system_info(s: SystemSnapshot) -> Seq<char> {
    system_part(s) + "=> disks:\n"@ + text_lines(text::texts(s.disks@)) + "=> networks:\n"@
        + traffic_lines(traffic_views(s.networks@)) + "=> components:\n"@ + text_lines(
        text::texts(s.components@),
    )
}

/// The report on the machine.
pub fn get_system_info(s: &SystemSnapshot) -> (r: String)
    ensures
        r@ == system_info(*s),
{
    let mut info = "=> system:\n".to_owned();
    push_line(&mut info, "total memory: ", text::decimal_text(s.total_memory).as_str(), " bytes\n");
    push_line(&mut info, "used memory : ", text::decimal_text(s.used_memory).as_str(), " bytes\n");
    push_line(&mut info, "total swap  : ", text::decimal_text(s.total_swap).as_str(), " bytes\n");
    push_line(&mut info, "used swap   : ", text::decimal_text(s.used_swap).as_str(), " bytes\n");
    push_line(
        &mut info,
        "System name:             ",
        strings::debug_text(&s.name).as_str(),
        "\n",
    );
    push_line(
        &mut info,
        "System kernel version:   ",
        strings::debug_text(&s.kernel_version).as_str(),
        "\n",
    );
    push_line(
        &mut info,
        "System OS version:       ",
        strings::debug_text(&s.os_version).as_str(),
        "\n",
    );
    push_line(
        &mut info,
        "System host name:        ",
        strings::debug_text(&s.host_name).as_str(),
        "\n",
    );
    push_line(&mut info, "NB CPUs: ", text::decimal_text(s.cpus).as_str(), "\n");
    info.append("=> disks:\n");
    push_text_lines(&mut info, &s.disks);
    info.append("=> networks:\n");
    push_traffic_lines(&mut info, &s.networks);
    info.append("=> components:\n");
    push_text_lines(&mut info, &s.components);
    info
}

// ---------------------------------------------------------------- processes

/// What was read of a process. The name, the status and the use of the processor are
/// given as they are printed.
pub struct ProcessSnapshot<S> {
    pub pid: S,
    pub name: S,
    pub start_time: u64,
    pub run_time: u64,
    pub status: S,
    pub cpu_usage: S,
    /// The path of the program, if it is known.
    pub exe: Option<S>,
}

/// What was read of a process, with its texts as sequences of characters.
pub open spec fn process_view(p: ProcessSnapshot<String>) -> ProcessSnapshot<Seq<char>> {
    ProcessSnapshot {
        pid: p.pid@,
        name: p.name@,
        start_time: p.start_time,
        run_time: p.run_time,
        status: p.status@,
        cpu_usage: p.cpu_usage@,
        exe: text::optional(p.exe),
    }
}

/// The processes of a list, with their texts as sequences of characters.
pub open spec fn process_views(v: Seq<ProcessSnapshot<String>>) -> Seq<
    ProcessSnapshot<Seq<char>>,
> {
    v.map_values(|p: ProcessSnapshot<String>| process_view(p))
}

/// The line on a process.
pub open spec fn process_line(p: ProcessSnapshot<Seq<char>>) -> Seq<char> {
    "["@ + p.pid + "] "@ + p.name + " start_time: "@ + text::decimal(p.start_time as nat)
        + " runtime: "@ + text::decimal(p.run_time as nat) + " status: "@ + p.status
        + " cpu_usage: "@ + p.cpu_usage + " directory: "@ + (match p.exe {
        Some(path) => path,
        None => "Unknown"@,
    }) + "\n"@
}

/// The lines on the processes of a list.
pub open spec fn process_lines(v: Seq<ProcessSnapshot<Seq<char>>>) -> Seq<char>
    decreases v.len(),
{
    if v.len() == 0 {
        seq![]
    } else {
        process_lines(v.drop_last()) + process_line(v.last())
    }
}

fn describe_process(p: &ProcessSnapshot<String>) -> (r: String)
    ensures
        r@ == process_line(process_view(*p)),
{
    let mut out = "[".to_owned();
    out.append(p.pid.as_str());
    out.append("] ");
    out.append(p.name.as_str());
    out.append(" start_time: ");
    out.append(text::decimal_text(p.start_time).as_str());
    out.append(" runtime: ");
    out.append(text::decimal_text(p.run_time).as_str());
    out.append(" status: ");
    out.append(p.status.as_str());
    out.append(" cpu_usage: ");
    out.append(p.cpu_usage.as_str());
    out.append(" directory: ");
    match &p.exe {
        Some(path) => out.append(path.as_str()),
        None => out.append("Unknown"),
    }
    out.append("\n");
    out
}

/// The report on the processes of the machine.
pub fn get_system_processes(processes: &Vec<ProcessSnapshot<String>>) -> (r: String)
    ensures
        r@ == "=> processes:\n"@ + process_lines(process_views(processes@)),
{
    let mut info = "=> processes:\n".to_owned();
    let mut i: usize = 0;
    let ghost all = process_views(processes@);
    assert(all.take(0) =~= seq![]);
    assert(info@ =~= "=> processes:\n"@ + process_lines(all.take(0)));
    while i < processes.len()
        invariant
            i <= processes.len(),
            all == process_views(processes@),
            info@ == "=> processes:\n"@ + process_lines(all.take(i as int)),
        decreases processes.len() - i,
    {
        info.append(describe_process(&processes[i]).as_str());
        proof {
            assert(all.take(i + 1).drop_last() =~= all.take(i as int));
            assert(all.take(i + 1).last() == all[i as int]);
            assert(info@ =~= "=> processes:\n"@ + process_lines(all.take(i + 1)));
        }
        i = i + 1;
    }
    assert(all.take(i as int) =~= all);
    info
}

/// The different texts of a list, in the order in which they first occur.
pub open spec fn unique(v: Seq<Seq<char>>) -> Seq<Seq<char>>
    decreases v.len(),
{
    if v.len() == 0 {
        seq![]
    } else if unique(v.drop_last()).contains(v.last()) {
        unique(v.drop_last())
    } else {
        unique(v.drop_last()).push(v.last())
    }
}

/// Whether a text is in a list.
pub fn contains_name(names: &Vec<String>, name: &str) -> (r: bool)
    ensures
        r == text::texts(names@).contains(name@),
{
    let mut i: usize = 0;
    while i < names.len()
        invariant
            i <= names.len(),
            forall|k: int| 0 <= k < i ==> (#[trigger] text::texts(names@)[k]) != name@,
        decreases names.len() - i,
    {
        assert(text::texts(names@)[i as int] == names@[i as int]@);
        if strings::same_text(names[i].as_str(), name) {
            return true;
        }
        i = i + 1;
    }
    false
}

/// The unique process names of the machine, from the names of all its processes.
pub fn get_process_names(names: &Vec<String>) -> (r: Vec<String>)
    ensures
        text::texts(r@) == unique(text::texts(names@)),
{
    let mut found: Vec<String> = Vec::new();
    let mut i: usize = 0;
    let ghost all = text::texts(names@);
    assert(all.take(0) =~= seq![]);
    assert(text::texts(found@) =~= unique(all.take(0)));
    while i < names.len()
        invariant
            i <= names.len(),
            all == text::texts(names@),
            text::texts(found@) == unique(all.take(i as int)),
        decreases names.len() - i,
    {
        let ghost before = text::texts(found@);
        assert(all.take(i + 1).drop_last() =~= all.take(i as int));
        assert(all.take(i + 1).last() == names@[i as int]@);
        if !contains_name(&found, names[i].as_str()) {
            found.push(names[i].clone());
            assert(text::texts(found@) =~= before.push(names@[i as int]@));
        }
        i = i + 1;
    }
    assert(all.take(i as int) =~= all);
    found
}

/// Each process name is listed once, and every process name is listed.
pub proof fn process_names_are_unique(names: Seq<Seq<char>>)
    ensures
        unique(names).no_duplicates(),
        forall|name: Seq<char>| unique(names).contains(name) <==> names.contains(name),
    decreases names.len(),
{
    if names.len() > 0 {
        let rest = names.drop_last();
        process_names_are_unique(rest);
        let found = unique(rest);
        assert forall|name: Seq<char>| unique(names).contains(name) <==> names.contains(name) by {
            if names.contains(name) {
                let k = choose|k: int| 0 <= k < names.len() && names[k] == name;
                if k < rest.len() {
                    assert(rest[k] == name);
                    assert(rest.contains(name));
                    let j = choose|j: int| 0 <= j < found.len() && found[j] == name;
                    assert(unique(names)[j] == name);
                } else if !found.contains(names.last()) {
                    assert(unique(names)[found.len() as int] == name);
                }
            }
            if unique(names).contains(name) {
                let j = choose|j: int| 0 <= j < unique(names).len() && unique(names)[j] == name;
                if j < found.len() {
                    assert(found[j] == name);
                    assert(rest.contains(name));
                    let k = choose|k: int| 0 <= k < rest.len() && rest[k] == name;
                    assert(names[k] == name);
                } else {
                    assert(names[names.len() - 1] == name);
                }
            }
        }
        assert(unique(names).no_duplicates()) by {
            let u = unique(names);
            assert forall|i: int, j: int| 0 <= i < u.len() && 0 <= j < u.len() && i != j implies u[i]
                != u[j] by {
                if u.len() > found.len() {
                    if i < found.len() {
                        assert(found.contains(found[i]));
                    }
                    if j < found.len() {
                        assert(found.contains(found[j]));
                    }
                }
            }
        }
    }
}

/// The indices below `n` of the texts of a list that are equal to a name, in order.
pub open spec fn positions(names: Seq<Seq<char>>, name: Seq<char>, n: nat) -> Seq<usize>
    decreases n,
{
    if n == 0 {
        seq![]
    } else if names[n - 1] == name {
        positions(names, name, (n - 1) as nat).push((n - 1) as usize)
    } else {
        positions(names, name, (n - 1) as nat)
    }
}

/// Which processes to kill to kill all with a name: their indices in the list of the
/// names of all processes.
pub fn processes_to_kill(names: &Vec<String>, process_name: &str) -> (r: Vec<usize>)
    ensures
        r@ == positions(text::texts(names@), process_name@, names@.len()),
{
    let mut found: Vec<usize> = Vec::new();
    let mut i: usize = 0;
    while i < names.len()
        invariant
            i <= names.len(),
            found@ == positions(text::texts(names@), process_name@, i as nat),
        decreases names.len() - i,
    {
        assert(text::texts(names@)[i as int] == names@[i as int]@);
        if strings::same_text(names[i].as_str(), process_name) {
            found.push(i);
        }
        i = i + 1;
    }
    found
}

/// Whether all processes with a name were killed, from the names of the processes that
/// are there a moment later.
pub fn kill_processes_with_name(process_name: &str, left: &Vec<String>) -> (r: Option<()>)
    ensures
        r is Some <==> !text::texts(left@).contains(process_name@),
{
    let names = get_process_names(left);
    proof {
        process_names_are_unique(text::texts(left@));
    }
    if contains_name(&names, process_name) {
        None
    } else {
        Some(())
    }
}

// ---------------------------------------------------------------- the screen

/// The argument with which `luster` sets the brightness of the screen. The brightness
/// must be between 0 and 100.
pub fn set_screen_brightness(brightness: u32) -> (r: Option<String>)
    ensures
        text::optional(r) == (if brightness > 100 {
            None
        } else {
            Some(text::decimal(brightness as nat))
        }),
        r is Some <==> brightness <= 100,
        r matches Some(t) ==> text::number(t@) == Some(brightness as nat),
{
    if brightness > 100 {
        return None;
    }
    proof {
        text::decimal_reads_back(brightness as nat);
    }
    Some(text::decimal_text(brightness as u64))
}

// ---------------------------------------------------------------- the location

/// What is known of where the machine is. The latitude and the longitude are given as
/// they are printed.
pub struct Location {
    pub city: Option<String>,
    pub region: Option<String>,
    pub country: Option<String>,
    pub lat: Option<String>,
    pub lon: Option<String>,
}

/// A text, or another if it is missing.
pub open spec fn text_or(s: Option<Seq<char>>, other: Seq<char>) -> Seq<char> {
    match s {
        Some(t) => t,
        None => other,
    }
}

/// What is asked for a location and does not come.
pub enum LocationFailure<S> {
    /// The request failed.
    Request(S),
    /// The response could not be read.
    Response(S),
}

/// The location in one line, or why there is none.
pub open spec fn location_text(location: Result<Location, LocationFailure<String>>) -> Result<
    Seq<char>,
    Seq<char>,
> {
    match location {
        Ok(l) => Ok(
            text_or(text::optional(l.city), ""@) + ", "@ + text_or(text::optional(l.region), ""@)
                + ", "@ + text_or(text::optional(l.country), ""@) + " ("@ + text_or(
                text::optional(l.lat),
                "0"@,
            ) + ", "@ + text_or(text::optional(l.lon), "0"@) + ")"@,
        ),
        Err(LocationFailure::Request(e)) => Err("Request failed: "@ + e@),
        Err(LocationFailure::Response(e)) => Err("Failed to parse response: "@ + e@),
    }
}

fn push_or(out: &mut String, s: &Option<String>, other: &str)
    ensures
        final(out)@ == old(out)@ + text_or(text::optional(*s), other@),
{
    match s {
        Some(t) => out.append(t.as_str()),
        None => out.append(other),
    }
}

/// The location in one line, or why there is none.
pub fn get_location(location: &Result<Location, LocationFailure<String>>) -> (r: Result<
    String,
    String,
>)
    ensures
        (match r {
            Ok(t) => Ok(t@),
            Err(e) => Err(e@),
        }) == location_text(*location),
{
    match location {
        Ok(l) => {
            let mut out = String::new();
            push_or(&mut out, &l.city, "");
            assert(out@ =~= text_or(text::optional(l.city), ""@));
            out.append(", ");
            push_or(&mut out, &l.region, "");
            out.append(", ");
            push_or(&mut out, &l.country, "");
            out.append(" (");
            push_or(&mut out, &l.lat, "0");
            out.append(", ");
            push_or(&mut out, &l.lon, "0");
            out.append(")");
            Ok(out)
        },
        Err(LocationFailure::Request(e)) => {
            let mut out = "Request failed: ".to_owned();
            out.append(e.as_str());
            Err(out)
        },
        Err(LocationFailure::Response(e)) => {
            let mut out = "Failed to parse response: ".to_owned();
            out.append(e.as_str());
            Err(out)
        },
    }
}

// ---------------------------------------------------------------- laws

/// The report on the processes has a line for each, in order, with all that was read of it.
pub proof fn every_process_is_reported(
    a: Seq<ProcessSnapshot<Seq<char>>>,
    b: Seq<ProcessSnapshot<Seq<char>>>,
    p: ProcessSnapshot<Seq<char>>,
)
    ensures
        process_lines(a + b) == process_lines(a) + process_lines(b),
        process_lines(seq![p]) == "["@ + p.pid + "] "@ + p.name + " start_time: "@ + text::decimal(
            p.start_time as nat,
        ) + " runtime: "@ + text::decimal(p.run_time as nat) + " status: "@ + p.status
            + " cpu_usage: "@ + p.cpu_usage + " directory: "@ + (if p.exe is Some {
            p.exe->0
        } else {
            "Unknown"@
        }) + "\n"@,
    decreases b.len(),
{
    let one = seq![p];
    assert(one.drop_last() =~= Seq::<ProcessSnapshot<Seq<char>>>::empty());
    assert(process_lines(one.drop_last()) =~= Seq::<char>::empty());
    assert(process_lines(one) =~= process_line(p));
    if b.len() == 0 {
        assert(a + b =~= a);
        assert(process_lines(a) + process_lines(b) =~= process_lines(a));
    } else {
        every_process_is_reported(a, b.drop_last(), p);
        assert((a + b).drop_last() =~= a + b.drop_last());
        assert((a + b).last() == b.last());
        assert(process_lines(a + b) =~= process_lines(a) + process_lines(b));
    }
}

/// The report on the machine has a line for each network interface, in order.
pub proof fn every_interface_is_reported(
    a: Seq<Traffic<Seq<char>>>,
    b: Seq<Traffic<Seq<char>>>,
    t: Traffic<Seq<char>>,
)
    ensures
        traffic_lines(a + b) == traffic_lines(a) + traffic_lines(b),
        traffic_lines(seq![t]) == t.interface + ": "@ + text::decimal(t.received as nat)
            + " B (down) / "@ + text::decimal(t.transmitted as nat) + " B (up)\n"@,
    decreases b.len(),
{
    let one = seq![t];
    assert(one.drop_last() =~= Seq::<Traffic<Seq<char>>>::empty());
    assert(traffic_lines(one.drop_last()) =~= Seq::<char>::empty());
    assert(traffic_lines(one) =~= traffic_line(t));
    if b.len() == 0 {
        assert(a + b =~= a);
        assert(traffic_lines(a) + traffic_lines(b) =~= traffic_lines(a));
    } else {
        every_interface_is_reported(a, b.drop_last(), t);
        assert((a + b).drop_last() =~= a + b.drop_last());
        assert((a + b).last() == b.last());
        assert(traffic_lines(a + b) =~= traffic_lines(a) + traffic_lines(b));
    }
}

/// The report on the machine has a line for each disk and each component, in order.
pub proof fn every_text_has_a_line(a: Seq<Seq<char>>, b: Seq<Seq<char>>, t: Seq<char>)
    ensures
        text_lines(a + b) == text_lines(a) + text_lines(b),
        text_lines(seq![t]) == t + "\n"@,
    decreases b.len(),
{
    let one = seq![t];
    assert(one.drop_last() =~= Seq::<Seq<char>>::empty());
    assert(text_lines(one.drop_last()) =~= Seq::<char>::empty());
    assert(text_lines(one) =~= t + "\n"@);
    if b.len() == 0 {
        assert(a + b =~= a);
        assert(text_lines(a) + text_lines(b) =~= text_lines(a));
    } else {
        every_text_has_a_line(a, b.drop_last(), t);
        assert((a + b).drop_last() =~= a + b.drop_last());
        assert((a + b).last() == b.last());
        assert(text_lines(a + b) =~= text_lines(a) + text_lines(b));
    }
}

/// All processes with the name are to be killed, and no others, each once.
pub proof fn processes_are_found_by_name(names: Seq<Seq<char>>, name: Seq<char>, n: nat, i: usize)
    requires
        n <= names.len() <= usize::MAX,
    ensures
        positions(names, name, n).contains(i) <==> i < n && names[i as int] == name,
        positions(names, name, n).no_duplicates(),
    decreases n,
{
    if n > 0 {
        let m = (n - 1) as nat;
        let before = positions(names, name, m);
        processes_are_found_by_name(names, name, m, i);
        let all = positions(names, name, n);
        if names[n - 1] == name {
            let last = (n - 1) as usize;
            processes_are_found_by_name(names, name, m, last);
            assert(all =~= before.push(last));
            assert(all[before.len() as int] == last);
            if before.contains(i) {
                let k = choose|k: int| 0 <= k < before.len() && before[k] == i;
                assert(all[k] == i);
            }
            if all.contains(i) && i != last {
                let k = choose|k: int| 0 <= k < all.len() && all[k] == i;
                assert(before[k] == i);
            }
            assert forall|x: int, y: int| 0 <= x < all.len() && 0 <= y < all.len() && x
                != y implies all[x] != all[y] by {
                if x < before.len() {
                    assert(before.contains(before[x]));
                }
                if y < before.len() {
                    assert(before.contains(before[y]));
                }
            }
        }
    }
}

/// The names of the processes are listed in the order in which they first occur.
pub proof fn process_names_keep_their_order(a: Seq<Seq<char>>, b: Seq<Seq<char>>)
    ensures
        unique(a).is_prefix_of(unique(a + b)),
    decreases b.len(),
{
    if b.len() == 0 {
        assert(a + b =~= a);
        assert(unique(a).take(unique(a).len() as int) =~= unique(a));
    } else {
        process_names_keep_their_order(a, b.drop_last());
        assert((a + b).drop_last() =~= a + b.drop_last());
        let x = unique(a);
        assert(unique(a + b).take(x.len() as int) =~= unique(a + b.drop_last()).take(
            x.len() as int,
        ));
    }
}

} // verus!
