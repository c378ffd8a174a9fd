//! Which device plays the assistant's sounds, and what waits to be played on it.

use crate::strings;
use crate::text;
use std::collections::VecDeque;
use vstd::prelude::*;

verus! {

// ---------------------------------------------------------------- the chosen device

/// The selected output device. `None` means use the system default.
pub struct OutputSelection {
    pub device: Option<String>,
}

impl OutputSelection {
    /// Nothing is selected: the system default is used.
    pub fn new() -> (r: Self)
        ensures
            r.device is None,
    {
        OutputSelection { device: None }
    }
}

/// Set the selected output device. Pass `None` to use the system default.
pub fn set_output_device(selection: &mut OutputSelection, device: Option<String>)
    ensures
        text::optional(final(selection).device) == text::optional(device),
{
    selection.device = device;
}

/// Returns the currently selected output device. `None` means the system default.
pub fn get_output_device(selection: &OutputSelection) -> (r: Option<String>)
    ensures
        text::optional(r) == text::optional(selection.device),
{
    copy_name(&selection.device)
}

fn copy_name(name: &Option<String>) -> (r: Option<String>)
    ensures
        text::optional(r) == text::optional(*name),
{
    match name {
        Some(n) => Some(n.clone()),
        None => None,
    }
}

fn same_name(a: &Option<String>, b: &Option<String>) -> (r: bool)
    ensures
        r == (text::optional(*a) == text::optional(*b)),
{
    match (a, b) {
        (Some(x), Some(y)) => strings::same_text(x.as_str(), y.as_str()),
        (None, None) => true,
        _ => false,
    }
}

/// The names of the devices of a list. A device may have no name.
pub open spec fn names(devices: Seq<Option<String>>) -> Seq<Option<Seq<char>>> {
    devices.map_values(|d: Option<String>| text::optional(d))
}

/// The indices below `n` of the devices with this name, in order.
pub open spec fn indices_named(devices: Seq<Option<Seq<char>>>, name: Seq<char>, n: nat) -> Seq<
    usize,
>
    decreases n,
{
    if n == 0 {
        seq![]
    } else if devices[n - 1] == Some(name) {
        indices_named(devices, name, (n - 1) as nat).push((n - 1) as usize)
    } else {
        indices_named(devices, name, (n - 1) as nat)
    }
}

/// The devices that can be tried before the default one, in order: those with the
/// name of the selected device.
pub fn devices_to_try(devices: &Vec<Option<String>>, selected: &Option<String>) -> (r: Vec<usize>)
    ensures
        r@ == (match selected {
            Some(name) => indices_named(names(devices@), name@, devices@.len()),
            None => seq![],
        }),
{
    let mut found: Vec<usize> = Vec::new();
    if let Some(name) = selected {
        let mut i: usize = 0;
        while i < devices.len()
            invariant
                i <= devices.len(),
                found@ == indices_named(names(devices@), name@, i as nat),
            decreases devices.len() - i,
        {
            assert(names(devices@)[i as int] == text::optional(devices@[i as int]));
            if let Some(device_name) = &devices[i] {
                if strings::same_text(device_name.as_str(), name.as_str()) {
                    found.push(i);
                }
            }
            i = i + 1;
        }
    }
    found
}

/// The name of the device that plays: the one that was opened by its index, or the
/// default device if none was.
pub fn opened_device(
    devices: &Vec<Option<String>>,
    opened: Option<usize>,
    default: &Option<String>,
) -> (r: Option<String>)
    requires
        opened matches Some(i) ==> i < devices.len(),
    ensures
        text::optional(r) == (match opened {
            Some(i) => names(devices@)[i as int],
            None => text::optional(*default),
        }),
{
    match opened {
        Some(i) => {
            assert(names(devices@)[i as int] == text::optional(devices@[i as int]));
            copy_name(&devices[i])
        },
        None => copy_name(default),
    }
}

// ---------------------------------------------------------------- sounds

/// A sound: its samples, by the bits of single-precision numbers, and the index of the
/// one that is played next.
pub struct AudioBuffer {
    pub channels: u16,
    pub sample_rate: u32,
    pub data: Vec<u32>,
    pub pos: usize,
}

impl AudioBuffer {
    /// The samples that have not been played.
    pub open spec fn left(&self) -> Seq<u32> {
        if self.pos <= self.data@.len() {
            self.data@.skip(self.pos as int)
        } else {
            seq![]
        }
    }

    /// A sound from its start.
    pub fn new(channels: u16, sample_rate: u32, data: Vec<u32>) -> (r: Self)
        ensures
            r.channels == channels,
            r.sample_rate == sample_rate,
            r.data@ == data@,
            r.pos == 0,
            r.left() == data@,
    {
        let r = AudioBuffer { channels, sample_rate, data, pos: 0 };
        assert(r.left() =~= data@);
        r
    }

    /// The next sample, if one is left. Whoever asks next gets the one after it,
    /// whichever device asks.
    pub fn next(&mut self) -> (r: Option<u32>)
        ensures
            final(self).channels == old(self).channels,
            final(self).sample_rate == old(self).sample_rate,
            final(self).data@ == old(self).data@,
            final(self).pos == old(self).pos.wrapping_add(1),
            r == (if old(self).pos < old(self).data@.len() {
                Some(old(self).data@[old(self).pos as int])
            } else {
                None
            }),
            r matches Some(sample) ==> old(self).left() == seq![sample] + final(self).left(),
            r is None ==> old(self).left().len() == 0,
    {
        let idx = self.pos;
        self.pos = self.pos.wrapping_add(1);
        if idx < self.data.len() {
            let sample = self.data[idx];
            assert(old(self).left() =~= seq![sample] + self.left());
            Some(sample)
        } else {
            None
        }
    }
}

// ---------------------------------------------------------------- what waits

/// How a sink plays: its volume and its speed, by the bits of single-precision
/// numbers, and whether it is paused.
#[derive(Clone, Copy, Debug, PartialEq, Eq, Structural)]
pub struct SinkSettings {
    pub volume: u32,
    pub speed: u32,
    pub paused: bool,
}

/// How the sink on another device is set up: as the one before, with the sounds that
/// wait, by their numbers.
pub struct Handover {
    pub settings: SinkSettings,
    pub sounds: Vec<u64>,
}

/// What a sink on a device has to play. The sounds are known by their numbers.
pub struct DefaultDeviceSink {
    device_name: Option<String>,
    queue: VecDeque<u64>,
}

/// What a `DefaultDeviceSink` holds.
#[verifier::ext_equal]
pub struct SinkView {
    /// The name of the device that it plays on.
    pub device_name: Option<Seq<char>>,
    /// The sounds that play or wait, the one that plays first.
    pub queue: Seq<u64>,
}

impl View for DefaultDeviceSink {
    type V = SinkView;

    closed spec fn view(&self) -> SinkView {
        SinkView { device_name: text::optional(self.device_name), queue: self.queue@ }
    }
}

/// The last `n` elements of a queue, or all of it if it has fewer.
pub open spec fn last_of(queue: Seq<u64>, n: nat) -> Seq<u64> {
    if queue.len() <= n {
        queue
    } else {
        queue.skip(queue.len() - n)
    }
}

/// The device that should play: the selected one, or else the default one.
pub open spec fn desired(selected: Option<Seq<char>>, default: Option<Seq<char>>) -> Option<
    Seq<char>,
> {
    match selected {
        Some(name) => Some(name),
        None => default,
    }
}

impl DefaultDeviceSink {
    /// A sink on a device, with nothing to play.
    pub fn new(device_name: Option<String>) -> (r: Self)
        ensures
            r@ == (SinkView { device_name: text::optional(device_name), queue: seq![] }),
    {
        let r = DefaultDeviceSink { device_name, queue: VecDeque::new() };
        assert(r@ =~= SinkView { device_name: text::optional(device_name), queue: seq![] });
        r
    }

    /// Forgets the sounds that the device has played: it has `sink_len` left.
    pub fn sync_queue(&mut self, sink_len: usize)
        ensures
            final(self)@ == (SinkView {
                queue: last_of(old(self)@.queue, sink_len as nat),
                ..old(self)@
            }),
    {
        let ghost all = self.queue@;
        assert(all.skip(0) =~= all);
        while self.queue.len() > sink_len
            invariant
                self.device_name == old(self).device_name,
                self.queue@.len() <= all.len(),
                self.queue@ == all.skip(all.len() - self.queue@.len()),
                self.queue@.len() >= sink_len || self.queue@ == all,
            decreases self.queue.len(),
        {
            let ghost before = self.queue@;
            self.queue.pop_front();
            assert(self.queue@ =~= before.drop_first());
            assert(self.queue@ =~= all.skip(all.len() - self.queue@.len()));
        }
        assert(self@ =~= SinkView {
            queue: last_of(old(self)@.queue, sink_len as nat),
            ..old(self)@
        });
    }

    /// Checks if the device that should play has changed. If so, returns how the sink on
    /// the new device is set up, so that the sounds that wait go on there.
    pub fn ensure_device(
        &mut self,
        selected: Option<String>,
        default: Option<String>,
        sink_len: usize,
        settings: SinkSettings,
    ) -> (r: Option<Handover>)
        ensures
            final(self)@ == (SinkView {
                queue: last_of(old(self)@.queue, sink_len as nat),
                ..old(self)@
            }),
            r is Some <==> desired(text::optional(selected), text::optional(default)) != old(
                self,
            )@.device_name,
            r matches Some(h) ==> h.settings == settings && h.sounds@ == final(self)@.queue,
            final(self)@.queue.is_suffix_of(old(self)@.queue),
            final(self)@.queue.len() <= sink_len,
            sink_len >= old(self)@.queue.len() ==> final(self)@.queue == old(self)@.queue,
            final(self)@.device_name == old(self)@.device_name,
            selected matches Some(name) ==> (r is Some <==> old(self)@.device_name != Some(name@)),
            selected is None ==> (r is Some <==> text::optional(default)
                != old(self)@.device_name),
    {
        self.sync_queue(sink_len);
        let wanted: Option<String> = match selected {
            Some(name) => Some(name),
            None => default,
        };
        if same_name(&wanted, &self.device_name) {
            None
        } else {
            Some(Handover { settings, sounds: self.waiting() })
        }
    }

    /// The sounds that play or wait, the one that plays first.
    fn waiting(&self) -> (r: Vec<u64>)
        ensures
            r@ == self@.queue,
    {
        let mut sounds: Vec<u64> = Vec::new();
        let mut i: usize = 0;
        while i < self.queue.len()
            invariant
                i <= self.queue.len(),
                sounds@ == self.queue@.take(i as int),
            decreases self.queue.len() - i,
        {
            sounds.push(self.queue[i]);
            assert(sounds@ =~= self.queue@.take(i + 1));
            i = i + 1;
        }
        assert(self.queue@.take(i as int) =~= self.queue@);
        sounds
    }

    /// Takes the name of the device that plays from here on.
    pub fn device_opened(&mut self, name: Option<String>)
        ensures
            final(self)@ == (SinkView { device_name: text::optional(name), ..old(self)@ }),
    {
        self.device_name = name;
    }

    /// Appends a sound.
    pub fn append(&mut self, sound: u64)
        ensures
            final(self)@ == (SinkView { queue: old(self)@.queue.push(sound), ..old(self)@ }),
    {
        self.queue.push_back(sound);
    }

    /// Stops playback and clears queued sounds.
    pub fn stop(&mut self)
        ensures
            final(self)@ == (SinkView { queue: seq![], ..old(self)@ }),
    {
        self.queue.clear();
        assert(self@ =~= SinkView { queue: seq![], ..old(self)@ });
    }

    /// Clears queued sounds.
    pub fn clear(&mut self)
        ensures
            final(self)@ == (SinkView { queue: seq![], ..old(self)@ }),
    {
        self.queue.clear();
        assert(self@ =~= SinkView { queue: seq![], ..old(self)@ });
    }

    /// Skips the sound that plays.
    pub fn skip_one(&mut self)
        ensures
            final(self)@.queue.is_suffix_of(old(self)@.queue),
            old(self)@.queue.len() > 0 ==> final(self)@.queue.len() == old(self)@.queue.len() - 1,
            final(self)@ == (SinkView {
                queue: if old(self)@.queue.len() > 0 {
                    old(self)@.queue.drop_first()
                } else {
                    old(self)@.queue
                },
                ..old(self)@
            }),
    {
        if let Some(_) = self.queue.pop_front() {
            assert(self.queue@ =~= old(self)@.queue.drop_first());
        }
    }
}

// ---------------------------------------------------------------- laws

/// What is left to play is the end of what was queued, and as much as the device has left.
pub proof fn played_sounds_are_forgotten(queue: Seq<u64>, n: nat)
    ensures
        last_of(queue, n).is_suffix_of(queue),
        n <= queue.len() ==> last_of(queue, n).len() == n,
        n >= queue.len() ==> last_of(queue, n) == queue,
{
    let left = last_of(queue, n);
    assert(queue.skip(queue.len() - left.len()) =~= left);
}

/// The selected device plays if there is one, and else the default one.
pub proof fn selected_device_comes_first(
    selected: Option<Seq<char>>,
    default: Option<Seq<char>>,
)
    ensures
        selected is Some ==> desired(selected, default) == selected,
        selected is None ==> desired(selected, default) == default,
{
}

/// The devices with the name of the selected one can be tried, all of them and no others.
pub proof fn devices_are_found_by_name(
    devices: Seq<Option<Seq<char>>>,
    name: Seq<char>,
    n: nat,
    i: usize,
)
    requires
        n <= devices.len() <= usize::MAX,
    ensures
        indices_named(devices, name, n).contains(i) <==> i < n && devices[i as int] == Some(name),
    decreases n,
{
    if n > 0 {
        let m = (n - 1) as nat;
        let before = indices_named(devices, name, m);
        devices_are_found_by_name(devices, name, m, i);
        let all = indices_named(devices, name, n);
        if devices[n - 1] == Some(name) {
            let last = (n - 1) as usize;
            assert(all =~= before.push(last));
            assert(all[before.len() as int] == last);
            if before.contains(i) {
                let k = choose|k: int| 0 <= k < before.len() && before[k] == i;
                assert(all[k] == i);
            }
            if all.contains(i) && i != last {
                let k = choose|k: int| 0 <= k < all.len() && all[k] == i;
                assert(before[k] == i);
            }
        }
    }
}

} // verus!
