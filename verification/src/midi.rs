//! MIDI input: decoding messages, remembering the last note, logging a control
//! surface, and finding its ports. The ports themselves are opened by the caller.

use crate::text;
use std::collections::VecDeque;
use vstd::prelude::*;

verus! {

/// How many lines the control-surface log keeps.
pub const LOG_LINES: usize = 40;

/// The last note played, with a count of the notes so far, in one word: the count in
/// the high 24 bits, the note in the low 8. This is the slot itself, of which there is
/// no copy: handles that share it are the caller's.
#[derive(Debug, PartialEq, Eq, Structural)]
pub struct NoteMonitor {
    /// The packed word.
    pub word: u32,
}

impl NoteMonitor {
    /// How many notes were recorded, counting round after the highest count.
    pub open spec fn generation(self) -> int {
        self.word as int / 256
    }

    /// The last note recorded.
    pub open spec fn note(self) -> int {
        self.word as int % 256
    }

    /// Records a note.
    pub fn record(&mut self, note: u8)
        ensures
            final(self).note() == note,
            final(self).generation() == (old(self).generation() + 1) % 0x100_0000,
    {
        let w: u32 = self.word;
        assert(w >> 8 == w / 256) by (bit_vector);
        let count: u32 = (w >> 8) + 1;
        assert(count <= 0x100_0000 ==> ((count << 8) | note as u32) % 256 == note as u32)
            by (bit_vector);
        assert(count <= 0x100_0000 ==> ((count << 8) | note as u32) / 256 == count % 0x100_0000)
            by (bit_vector);
        self.word = (count << 8) | note as u32;
    }

    /// The count, which changes with every recorded note, and the last note.
    pub fn latest(&self) -> (r: (u32, u8))
        ensures
            r.0 == self.generation(),
            r.1 == self.note(),
    {
        (self.word / 256, (self.word % 256) as u8)
    }
}

impl Default for NoteMonitor {
    /// Nothing recorded.
    fn default() -> (r: Self)
        ensures
            r.generation() == 0,
            r.note() == 0,
    {
        NoteMonitor { word: 0 }
    }
}

/// A log of recent control-surface messages, newest last, of bounded length.
pub struct DawMonitor {
    queue: VecDeque<String>,
}

/// The last `n` of `s`, or all of them.
pub open spec fn last_of(s: Seq<Seq<char>>, n: int) -> Seq<Seq<char>> {
    if s.len() <= n {
        s
    } else {
        s.skip(s.len() - n)
    }
}

impl View for DawMonitor {
    type V = Seq<Seq<char>>;

    closed spec fn view(&self) -> Seq<Seq<char>> {
        self.queue@.map_values(|s: String| s@)
    }
}

impl DawMonitor {
    /// No more lines than the log keeps.
    #[verifier::type_invariant]
    spec fn bounded(self) -> bool {
        self.queue@.len() <= LOG_LINES
    }

    /// An empty log.
    pub fn new() -> (r: Self)
        ensures
            r@.len() == 0,
    {
        DawMonitor { queue: VecDeque::new() }
    }

    /// Adds a line; the oldest one goes if there are too many.
    pub fn push(&mut self, line: String)
        ensures
            final(self)@ == last_of(old(self)@.push(line@), LOG_LINES as int),
            final(self)@.len() <= LOG_LINES,
    {
        proof {
            use_type_invariant(&*self);
        }
        let ghost before = self@;
        let ghost l = line@;
        let mut q: VecDeque<String> = VecDeque::new();
        std::mem::swap(&mut q, &mut self.queue);
        q.push_back(line);
        proof {
            assert(q@.map_values(|s: String| s@) =~= before.push(l));
        }
        if q.len() > LOG_LINES {
            let _ = q.pop_front();
            proof {
                assert(q@.map_values(|s: String| s@) =~= before.push(l).skip(1));
            }
        }
        self.queue = q;
    }

    /// The lines, newest last.
    pub fn lines(&self) -> (r: Vec<String>)
        ensures
            r@.map_values(|s: String| s@) == self@,
    {
        let mut r: Vec<String> = Vec::new();
        let mut i: usize = 0;
        while i < self.queue.len()
            invariant
                i <= self.queue@.len(),
                r@.len() == i,
                forall|j: int| 0 <= j < i ==> (#[trigger] r@[j])@ == self.queue@[j]@,
            decreases self.queue@.len() - i,
        {
            r.push(self.queue[i].clone());
            i += 1;
        }
        assert(r@.map_values(|s: String| s@) =~= self@);
        r
    }

    /// Drops every line.
    pub fn clear(&mut self)
        ensures
            final(self)@.len() == 0,
    {
        self.queue = VecDeque::new();
    }
}

/// What a message on the keys asks for.
#[derive(Clone, Copy, Debug, PartialEq, Eq, Structural)]
pub enum MidiAction {
    /// Strike a note, with a velocity out of 127.
    NoteOn {
        /// The note.
        note: u8,
        /// How hard, out of 127.
        vel: u8,
    },
    /// Let a note go.
    NoteOff {
        /// The note.
        note: u8,
    },
    /// Silence.
    AllNotesOff,
    /// Blow harder than at rest, by so much out of 127.
    SetBreath {
        /// How much harder, out of 127.
        amount: u8,
    },
    /// Bend the pitch: 8192 is the full range up.
    SetBend {
        /// How far, from the centre of the wheel.
        offset: i32,
    },
}

/// The position of the pitch wheel: 14 bits, low byte first.
pub open spec fn wheel(low: u8, high: u8) -> int {
    ((high as u32) << 7 | low as u32) as int
}

/// What a message asks for. Controllers 1, 2 and 11 and channel pressure blow harder;
/// controller 123 is silence; a strike of velocity 0 is a release.
pub open spec fn decoded(m: Seq<u8>) -> Option<MidiAction> {
    if m.len() < 3 {
        None
    } else {
        let (kind, note, data) = (m[0] as int / 16, m[1], m[2]);
        if kind == 9 {
            if data == 0 {
                Some(MidiAction::NoteOff { note })
            } else {
                Some(MidiAction::NoteOn { note, vel: data })
            }
        } else if kind == 8 {
            Some(MidiAction::NoteOff { note })
        } else if kind == 11 && note == 123 {
            Some(MidiAction::AllNotesOff)
        } else if kind == 11 && (note == 1 || note == 2 || note == 11) {
            Some(MidiAction::SetBreath { amount: data })
        } else if kind == 13 {
            Some(MidiAction::SetBreath { amount: note })
        } else if kind == 14 {
            Some(MidiAction::SetBend { offset: (wheel(note, data) - 8192) as i32 })
        } else {
            None
        }
    }
}

/// What a message on the keys asks for. A struck note is recorded.
pub fn handle_message(message: &Vec<u8>, monitor: &mut NoteMonitor) -> (r: Option<MidiAction>)
    ensures
        r == decoded(message@),
        r matches Some(MidiAction::NoteOn { note, .. }) ==> {
            &&& final(monitor).note() == note
            &&& final(monitor).generation() == (old(monitor).generation() + 1) % 0x100_0000
        },
        !(r matches Some(MidiAction::NoteOn { .. })) ==> *final(monitor) == *old(monitor),
{
    if message.len() < 3 {
        return None;
    }
    let first: u8 = message[0];
    let status: u8 = first & 0xF0;
    proof {
        assert(first & 0xF0 == (first / 16) * 16) by (bit_vector);
    }
    let note: u8 = message[1];
    let data: u8 = message[2];
    match status {
        0x90 => if data == 0 {
            Some(MidiAction::NoteOff { note })
        } else {
            monitor.record(note);
            Some(MidiAction::NoteOn { note, vel: data })
        },
        0x80 => Some(MidiAction::NoteOff { note }),
        0xB0 => if note == 123 {
            Some(MidiAction::AllNotesOff)
        } else if note == 1 || note == 2 || note == 11 {
            Some(MidiAction::SetBreath { amount: data })
        } else {
            None
        },
        0xD0 => Some(MidiAction::SetBreath { amount: note }),
        0xE0 => {
            let value: u32 = ((data as u32) << 7) | note as u32;
            proof {
                assert(((data as u32) << 7) | note as u32 <= 0x7FFF) by (bit_vector);
            }
            Some(MidiAction::SetBend { offset: value as i32 - 8192 })
        },
        _ => None,
    }
}

/// What a button of the control surface asks of the transport.
#[derive(Clone, Copy, Debug, PartialEq, Eq, Structural)]
pub enum Transport {
    /// Stop.
    Stop,
    /// Start or pause playback.
    Play,
    /// Start or finish a take.
    Record,
}

/// The transport button that a message reports, on its way down.
pub open spec fn pressed(m: Seq<u8>) -> Option<Transport> {
    if m.len() < 3 || m[0] != 0xBF || m[2] == 0 {
        None
    } else if m[1] == 0x73 {
        Some(Transport::Stop)
    } else if m[1] == 0x74 {
        Some(Transport::Play)
    } else if m[1] == 0x75 {
        Some(Transport::Record)
    } else {
        None
    }
}

/// The controller number of the first of the eight encoders.
pub const FIRST_ENCODER: u8 = 0x15;

/// The encoder that a message of the control surface reports, counted from zero, and
/// where it stands.
pub open spec fn turned(m: Seq<u8>) -> Option<(int, u8)> {
    if m.len() >= 3 && m[0] == 0xBF && FIRST_ENCODER <= m[1] < FIRST_ENCODER + 8 {
        Some((m[1] - FIRST_ENCODER, m[2]))
    } else {
        None
    }
}

/// The encoder that a message of the control surface reports, and where it stands.
pub fn encoder_moved(message: &Vec<u8>) -> (r: Option<(usize, u8)>)
    ensures
        r is Some <==> turned(message@) is Some,
        r matches Some((i, v)) ==> turned(message@) == Some((i as int, v)),
{
    if message.len() >= 3 && message[0] == 0xBF && message[1] >= FIRST_ENCODER && message[1]
        < FIRST_ENCODER + 8 {
        Some(((message[1] - FIRST_ENCODER) as usize, message[2]))
    } else {
        None
    }
}

/// What a kind of message is called in the log.
pub open spec fn kind_text(kind: int) -> Seq<char> {
    if kind == 9 {
        "note-on"@
    } else if kind == 8 {
        "note-off"@
    } else if kind == 11 {
        "CC"@
    } else if kind == 10 {
        "aftertouch"@
    } else {
        "?"@
    }
}

/// The log line for a message: channel, kind, number (also in hexadecimal) and value.
pub open spec fn log_line(status: u8, d1: u8, d2: u8) -> Seq<char> {
    "ch"@ + text::padded_right(text::decimal((status % 16 + 1) as nat), 2) + " "@
        + text::padded_right(kind_text(status as int / 16), 9) + " num="@ + text::padded_left(
        text::decimal(d1 as nat),
        3,
    ) + " (0x"@ + text::hex_byte(d1) + ")  val="@ + text::padded_left(text::decimal(d2 as nat), 3)
}

fn log_text(status: u8, d1: u8, d2: u8) -> (r: String)
    ensures
        r@ == log_line(status, d1, d2),
{
    let kind: &str = match status / 16 {
        9 => "note-on",
        8 => "note-off",
        11 => "CC",
        10 => "aftertouch",
        _ => "?",
    };
    let ch = text::decimal_text((status % 16) as u64 + 1);
    let num = text::decimal_text(d1 as u64);
    let val = text::decimal_text(d2 as u64);
    let mut r: String = "ch".to_owned();
    r.append(text::pad_right(ch.as_str(), 2).as_str());
    r.append(" ");
    r.append(text::pad_right(kind, 9).as_str());
    r.append(" num=");
    r.append(text::pad_left(num.as_str(), 3).as_str());
    r.append(" (0x");
    r.append(text::hex_text(d1).as_str());
    r.append(")  val=");
    r.append(text::pad_left(val.as_str(), 3).as_str());
    r
}

/// What a message of the control surface asks of the transport. Every whole message is
/// logged.
pub fn handle_daw_message(message: &Vec<u8>, log: &mut DawMonitor) -> (r: Option<Transport>)
    ensures
        r == pressed(message@),
        final(log)@ == if message@.len() < 3 {
            old(log)@
        } else {
            last_of(
                old(log)@.push(log_line(message@[0], message@[1], message@[2])),
                LOG_LINES as int,
            )
        },
{
    if message.len() < 3 {
        return None;
    }
    let status: u8 = message[0];
    let d1: u8 = message[1];
    let d2: u8 = message[2];
    log.push(log_text(status, d1, d2));
    if status == 0xBF && d2 > 0 {
        match d1 {
            0x73 => Some(Transport::Stop),
            0x74 => Some(Transport::Play),
            0x75 => Some(Transport::Record),
            _ => None,
        }
    } else {
        None
    }
}

/// A port of a Launchkey, by its lower-case name.
pub open spec fn is_launchkey(lower: Seq<char>) -> bool {
    text::occurs(lower, "launchkey"@) || text::occurs(lower, "launch key"@)
}

/// The control-surface port of a Launchkey, by its lower-case name.
pub open spec fn is_surface(lower: Seq<char>) -> bool {
    is_launchkey(lower) && text::occurs(lower, "daw"@)
}

/// The keys port of a Launchkey, by its lower-case name.
pub open spec fn is_keys(lower: Seq<char>) -> bool {
    is_launchkey(lower) && !text::occurs(lower, "daw"@)
}

/// Whether the lower-case name is that of a Launchkey's control surface.
pub fn is_surface_port(lower: &str) -> (r: bool)
    ensures
        r == is_surface(lower@),
{
    (text::contains_text(lower, "launchkey") || text::contains_text(lower, "launch key"))
        && text::contains_text(lower, "daw")
}

fn is_keys_port(lower: &str) -> (r: bool)
    ensures
        r == is_keys(lower@),
{
    (text::contains_text(lower, "launchkey") || text::contains_text(lower, "launch key"))
        && !text::contains_text(lower, "daw")
}

/// `r` is the keys port and the control-surface port among ports with these lower-case
/// names: the first of each, the surface standing in for missing keys. Without a
/// control surface there is no Launchkey.
pub open spec fn is_pair(lower: Seq<Seq<char>>, r: Option<(usize, usize)>) -> bool {
    match r {
        Some((keys, daw)) => {
            &&& daw < lower.len() && is_surface(lower[daw as int])
            &&& forall|i: int| 0 <= i < daw ==> !is_surface(#[trigger] lower[i])
            &&& keys < lower.len()
            &&& is_keys(lower[keys as int]) ==> forall|i: int|
                0 <= i < keys ==> !is_keys(#[trigger] lower[i])
            &&& !is_keys(lower[keys as int]) ==> keys == daw && forall|i: int|
                0 <= i < lower.len() ==> !is_keys(#[trigger] lower[i])
        },
        None => forall|i: int| 0 <= i < lower.len() ==> !is_surface(#[trigger] lower[i]),
    }
}

/// The keys port and the control-surface port among ports with these lower-case names.
pub fn choose_ports(lower: &Vec<String>) -> (r: Option<(usize, usize)>)
    ensures
        is_pair(lower@.map_values(|s: String| s@), r),
{
    let ghost l = lower@.map_values(|s: String| s@);
    let n: usize = lower.len();
    let mut daw: usize = 0;
    while daw < n && !is_surface_port(lower[daw].as_str())
        invariant
            l == lower@.map_values(|s: String| s@),
            daw <= n == lower@.len(),
            forall|i: int| 0 <= i < daw ==> !is_surface(#[trigger] l[i]),
        decreases n - daw,
    {
        daw += 1;
    }
    if daw == n {
        return None;
    }
    let mut keys: usize = 0;
    while keys < n && !is_keys_port(lower[keys].as_str())
        invariant
            l == lower@.map_values(|s: String| s@),
            keys <= n == lower@.len(),
            forall|i: int| 0 <= i < keys ==> !is_keys(#[trigger] l[i]),
        decreases n - keys,
    {
        keys += 1;
    }
    if keys == n {
        Some((daw, daw))
    } else {
        Some((keys, daw))
    }
}

/// The lower-case forms of the names.
pub open spec fn lowered(names: Seq<String>) -> Seq<Seq<char>> {
    names.map_values(|s: String| text::lower_cased(s@))
}

/// The names of the keys port and the control-surface port of a connected Launchkey.
pub fn find_launchkey_ports(names: &Vec<String>) -> (r: Option<(String, String)>)
    ensures
        r is None ==> is_pair(lowered(names@), None),
        r matches Some((keys, daw)) ==> exists|k: usize, d: usize|
            #[trigger] is_pair(lowered(names@), Some((k, d))) && keys@ == names@[k as int]@ && daw@
                == names@[d as int]@,
{
    let mut lower: Vec<String> = Vec::new();
    let mut i: usize = 0;
    while i < names.len()
        invariant
            i <= names@.len(),
            lower@.len() == i,
            forall|j: int| 0 <= j < i ==> (#[trigger] lower@[j])@ == lowered(names@)[j],
        decreases names@.len() - i,
    {
        lower.push(text::lower_case(names[i].as_str()));
        i += 1;
    }
    assert(lower@.map_values(|s: String| s@) =~= lowered(names@));
    match choose_ports(&lower) {
        Some((k, d)) => Some((names[k].clone(), names[d].clone())),
        None => None,
    }
}

/// Whether a port is the control surface of a Launchkey.
pub fn is_launchkey_daw(name: &str) -> (r: bool)
    ensures
        r == is_surface(text::lower_cased(name@)),
{
    let lower = text::lower_case(name);
    is_surface_port(lower.as_str())
}

/// The first port with the given name.
pub fn port_by_name(names: &Vec<String>, name: &str) -> (r: Option<usize>)
    ensures
        match r {
            Some(i) => i < names@.len() && names@[i as int]@ == name@ && forall|j: int|
                0 <= j < i ==> (#[trigger] names@[j])@ != name@,
            None => forall|j: int| 0 <= j < names@.len() ==> (#[trigger] names@[j])@ != name@,
        },
{
    let mut i: usize = 0;
    while i < names.len()
        invariant
            i <= names@.len(),
            forall|j: int| 0 <= j < i ==> (#[trigger] names@[j])@ != name@,
        decreases names@.len() - i,
    {
        if text::same_text(names[i].as_str(), name) {
            return Some(i);
        }
        i += 1;
    }
    None
}

/// Any recorded note is noticed: the count changes, and the note can be read back.
pub proof fn recording_is_noticed(a: NoteMonitor, b: NoteMonitor, note: u8)
    requires
        b.note() == note,
        b.generation() == (a.generation() + 1) % 0x100_0000,
    ensures
        a.generation() != b.generation(),
{
}

/// The position of the wheel is its two seven-bit halves put together: 128 times the high
/// one and the low one.
pub proof fn wheels_count_in_halves(low: u8, high: u8)
    requires
        low < 128,
        high < 128,
    ensures
        wheel(low, high) == 128 * high + low,
        0 <= wheel(low, high) < 16384,
{
    let (l, h) = (low as u32, high as u32);
    assert(l < 128 && h < 128 ==> (h << 7 | l) == 128 * h + l) by (bit_vector);
}

/// What a message on the keys asks for, whatever its channel: a strike of the note with the
/// velocity, a release of the note (also as a strike without velocity), silence, harder
/// blowing by the amount of the controller or the pressure, or a bend by the distance of
/// the wheel from its centre. Nothing else asks for anything, nor does a message cut short.
pub proof fn messages_mean_what_they_say(channel: u8, a: u8, b: u8, m: Seq<u8>)
    requires
        channel < 16,
        m.len() >= 3,
        m[1] == a,
        m[2] == b,
    ensures
        m[0] == 0x90 + channel && b > 0 ==> decoded(m) == Some(
            MidiAction::NoteOn { note: a, vel: b },
        ),
        m[0] == 0x90 + channel && b == 0 ==> decoded(m) == Some(MidiAction::NoteOff { note: a }),
        m[0] == 0x80 + channel ==> decoded(m) == Some(MidiAction::NoteOff { note: a }),
        m[0] == 0xB0 + channel && a == 123 ==> decoded(m) == Some(MidiAction::AllNotesOff),
        m[0] == 0xB0 + channel && (a == 1 || a == 2 || a == 11) ==> decoded(m) == Some(
            MidiAction::SetBreath { amount: b },
        ),
        m[0] == 0xB0 + channel && a != 123 && a != 1 && a != 2 && a != 11 ==> decoded(m) is None,
        m[0] == 0xD0 + channel ==> decoded(m) == Some(MidiAction::SetBreath { amount: a }),
        m[0] == 0xE0 + channel && a < 128 && b < 128 ==> decoded(m) == Some(
            MidiAction::SetBend { offset: (128 * b + a - 8192) as i32 },
        ),
        m[0] < 0x80 ==> decoded(m) is None,
        m[0] == 0xA0 + channel || m[0] == 0xC0 + channel || m[0] == 0xF0 + channel ==> decoded(
            m,
        ) is None,
        forall|s: Seq<u8>| s.len() < 3 ==> #[trigger] decoded(s) is None,
{
    if a < 128 && b < 128 {
        wheels_count_in_halves(a, b);
    }
}

/// The buttons of the control surface act on their way down alone, each on its own part of
/// the transport; the encoders report their number, counted from zero, and where they
/// stand.
pub proof fn the_surface_is_read_as_it_is_built(m: Seq<u8>)
    requires
        m.len() >= 3,
        m[0] == 0xBF,
    ensures
        m[2] == 0 ==> pressed(m) is None,
        m[2] > 0 && m[1] == 115 ==> pressed(m) == Some(Transport::Stop),
        m[2] > 0 && m[1] == 116 ==> pressed(m) == Some(Transport::Play),
        m[2] > 0 && m[1] == 117 ==> pressed(m) == Some(Transport::Record),
        m[1] < 115 || m[1] > 117 ==> pressed(m) is None,
        turned(m) is Some <==> 21 <= m[1] <= 28,
        turned(m) matches Some((i, v)) ==> i + 21 == m[1] && v == m[2],
{
}

/// The log holds the newest lines, in order, and never more than it keeps.
pub proof fn logs_keep_the_newest(s: Seq<Seq<char>>, n: int, i: int)
    requires
        n >= 0,
        0 <= i < s.len(),
    ensures
        last_of(s, n).len() == if s.len() <= n {
            s.len() as int
        } else {
            n
        },
        s.len() <= n ==> last_of(s, n)[i] == s[i],
        s.len() > n && i >= s.len() - n ==> last_of(s, n)[i - (s.len() - n)] == s[i],
{
}

/// A recorded note can be read back, and the count goes up by one until it starts over.
pub proof fn records_read_back(a: NoteMonitor)
    ensures
        a.generation() * 256 + a.note() == a.word,
        0 <= a.note() < 256,
        0 <= a.generation() < 0x100_0000,
{
}

/// A port is the control surface or the keys of a Launchkey by its name: both name the
/// device, and the surface alone says that it is for the studio.
pub proof fn ports_go_by_their_names(lower: Seq<char>)
    ensures
        is_surface(lower) ==> !is_keys(lower) && text::occurs(lower, "daw"@),
        is_keys(lower) ==> !text::occurs(lower, "daw"@),
        is_surface(lower) || is_keys(lower) <==> text::occurs(lower, "launchkey"@) || text::occurs(
            lower,
            "launch key"@,
        ),
{
}

/// The ports that are chosen: the first control surface, and the first keys if there are
/// any. Without a surface there is nothing to choose.
pub proof fn the_first_ports_are_chosen(lower: Seq<Seq<char>>, r: Option<(usize, usize)>, i: int)
    requires
        is_pair(lower, r),
        0 <= i < lower.len(),
    ensures
        is_surface(lower[i]) ==> (r matches Some((keys, daw)) && daw <= i),
        is_keys(lower[i]) ==> (r matches Some((keys, daw)) ==> keys <= i && is_keys(
            lower[keys as int],
        )),
        r matches Some((keys, daw)) ==> is_surface(lower[daw as int]),
{
}

/// The log calls a message what it is, whatever its channel.
pub proof fn the_log_calls_messages_what_they_are(channel: u8)
    requires
        channel < 16,
    ensures
        kind_text((0x90 + channel) / 16) == "note-on"@,
        kind_text((0x80 + channel) / 16) == "note-off"@,
        kind_text((0xB0 + channel) / 16) == "CC"@,
        kind_text((0xA0 + channel) / 16) == "aftertouch"@,
        kind_text((0xC0 + channel) / 16) == "?"@,
        kind_text((0xD0 + channel) / 16) == "?"@,
        kind_text((0xE0 + channel) / 16) == "?"@,
{
}

/// A line of the log tells the channel, counted from one, the kind of the message, its
/// number, also in hexadecimal, and its value.
pub proof fn log_lines_tell_it_all(status: u8, d1: u8, d2: u8)
    ensures
        text::occurs(
            log_line(status, d1, d2),
            "ch"@ + text::padded_right(text::decimal((status % 16 + 1) as nat), 2),
        ),
        text::occurs(
            log_line(status, d1, d2),
            text::padded_right(kind_text(status as int / 16), 9),
        ),
        text::occurs(
            log_line(status, d1, d2),
            " num="@ + text::padded_left(text::decimal(d1 as nat), 3),
        ),
        text::occurs(log_line(status, d1, d2), " (0x"@ + text::hex_byte(d1)),
        text::occurs(
            log_line(status, d1, d2),
            " val="@ + text::padded_left(text::decimal(d2 as nat), 3),
        ),
{
    let line = log_line(status, d1, d2);
    let a = "ch"@ + text::padded_right(text::decimal((status % 16 + 1) as nat), 2);
    let b = text::padded_right(kind_text(status as int / 16), 9);
    let c = " num="@ + text::padded_left(text::decimal(d1 as nat), 3);
    let d = " (0x"@ + text::hex_byte(d1);
    let e = text::padded_left(text::decimal(d2 as nat), 3);
    reveal_strlit(")  val=");
    reveal_strlit(" val=");
    reveal_strlit(") ");
    assert(")  val="@ =~= ") "@ + " val="@);
    let f = " val="@ + e;
    let empty = Seq::<char>::empty();
    text::what_is_put_in_occurs(empty, a, " "@ + b + c + d + ") "@ + f);
    assert(empty + a + (" "@ + b + c + d + ") "@ + f) =~= line);
    text::what_is_put_in_occurs(a + " "@, b, c + d + ") "@ + f);
    assert(a + " "@ + b + (c + d + ") "@ + f) =~= line);
    text::what_is_put_in_occurs(a + " "@ + b, c, d + ") "@ + f);
    assert(a + " "@ + b + c + (d + ") "@ + f) =~= line);
    text::what_is_put_in_occurs(a + " "@ + b + c, d, ") "@ + f);
    assert(a + " "@ + b + c + d + (") "@ + f) =~= line);
    text::what_is_put_in_occurs(a + " "@ + b + c + d + ") "@, f, empty);
    assert(a + " "@ + b + c + d + ") "@ + f + empty =~= line);
}

} // verus!
