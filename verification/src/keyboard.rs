//! Playing from the computer keyboard and the on-screen piano: which keys are held, what
//! note each plays, and what a key event does.

use crate::text;
use vstd::prelude::*;

verus! {

/// The highest note from which the computer keyboard starts.
pub const HIGHEST_BASE: i32 = 108;

/// The name of a pitch class.
pub open spec fn class_text(k: int) -> Seq<char> {
    if k == 0 {
        "C"@
    } else if k == 1 {
        "C#"@
    } else if k == 2 {
        "D"@
    } else if k == 3 {
        "D#"@
    } else if k == 4 {
        "E"@
    } else if k == 5 {
        "F"@
    } else if k == 6 {
        "F#"@
    } else if k == 7 {
        "G"@
    } else if k == 8 {
        "G#"@
    } else if k == 9 {
        "A"@
    } else if k == 10 {
        "A#"@
    } else {
        "B"@
    }
}

/// A whole number in decimal notation.
pub open spec fn signed_decimal(x: int) -> Seq<char> {
    if x < 0 {
        "-"@ + text::decimal((-x) as nat)
    } else {
        text::decimal(x as nat)
    }
}

/// The name of a note: its pitch class and its octave, note 60 being C4.
pub open spec fn note_text(n: u8) -> Seq<char> {
    class_text(n as int % 12) + signed_decimal(n as int / 12 - 1)
}

/// A whole number in decimal notation.
pub fn signed_text(x: i64) -> (r: String)
    requires
        x > i64::MIN,
    ensures
        r@ == signed_decimal(x as int),
{
    if x < 0 {
        let mut r: String = "-".to_owned();
        r.append(text::decimal_text((-x) as u64).as_str());
        r
    } else {
        text::decimal_text(x as u64)
    }
}

/// The name of a note, such as `C4` for note 60.
pub fn note_name(n: u8) -> (r: String)
    ensures
        r@ == note_text(n),
{
    let class: &str = match n % 12 {
        0 => "C",
        1 => "C#",
        2 => "D",
        3 => "D#",
        4 => "E",
        5 => "F",
        6 => "F#",
        7 => "G",
        8 => "G#",
        9 => "A",
        10 => "A#",
        _ => "B",
    };
    let mut r: String = class.to_owned();
    r.append(signed_text((n / 12) as i64 - 1).as_str());
    r
}

/// A note kept on the keyboard.
pub open spec fn on_keyboard(x: int) -> u8 {
    if x < 0 {
        0
    } else if x > 127 {
        127
    } else {
        x as u8
    }
}

/// A note kept on the keyboard.
pub fn clamp_note(x: i32) -> (r: u8)
    ensures
        r == on_keyboard(x as int),
{
    if x < 0 {
        0
    } else if x > 127 {
        127
    } else {
        x as u8
    }
}

/// The semitone above the base note that a letter key plays.
pub open spec fn semitone(key: char) -> Option<int> {
    if key == 'A' {
        Some(0)
    } else if key == 'W' {
        Some(1)
    } else if key == 'S' {
        Some(2)
    } else if key == 'E' {
        Some(3)
    } else if key == 'D' {
        Some(4)
    } else if key == 'F' {
        Some(5)
    } else if key == 'T' {
        Some(6)
    } else if key == 'G' {
        Some(7)
    } else if key == 'Y' {
        Some(8)
    } else if key == 'H' {
        Some(9)
    } else if key == 'U' {
        Some(10)
    } else if key == 'J' {
        Some(11)
    } else if key == 'K' {
        Some(12)
    } else if key == 'O' {
        Some(13)
    } else if key == 'L' {
        Some(14)
    } else {
        None
    }
}

/// The semitone above the base note that a letter key plays.
pub fn key_to_semitone(key: char) -> (r: Option<i32>)
    ensures
        r is Some <==> semitone(key) is Some,
        r matches Some(s) ==> semitone(key) == Some(s as int) && 0 <= s <= 14,
{
    match key {
        'A' => Some(0),
        'W' => Some(1),
        'S' => Some(2),
        'E' => Some(3),
        'D' => Some(4),
        'F' => Some(5),
        'T' => Some(6),
        'G' => Some(7),
        'Y' => Some(8),
        'H' => Some(9),
        'U' => Some(10),
        'J' => Some(11),
        'K' => Some(12),
        'O' => Some(13),
        'L' => Some(14),
        _ => None,
    }
}

/// A key event.
#[derive(Clone, Copy, Debug, PartialEq, Eq, Structural)]
pub struct KeyEvent {
    /// The letter on the key.
    pub key: char,
    /// Whether it goes down.
    pub down: bool,
    /// Whether it repeats, being held.
    pub repeat: bool,
    /// Whether the command key is held.
    pub command: bool,
    /// Whether shift is held.
    pub shift: bool,
}

/// What a key event does.
#[derive(Clone, Copy, Debug, PartialEq, Eq, Structural)]
pub enum KeyAction {
    /// Nothing that is heard.
    Nothing,
    /// Takes back the last edit.
    Undo,
    /// Does it again.
    Redo,
    /// Strikes a note.
    NoteOn(u8),
    /// Lets a note go.
    NoteOff(u8),
}

/// The computer keyboard and the mouse, as players.
pub struct Keyboard {
    /// The note that the first key plays.
    pub base: i32,
    /// The keys held down, and the note each of them plays.
    pub held: Vec<(char, u8)>,
    /// The note that the mouse holds.
    pub mouse: Option<u8>,
}

/// The index at which `key` is held.
pub open spec fn held_at(held: Seq<(char, u8)>, key: char) -> Option<int> {
    if exists|i: int| 0 <= i < held.len() && (#[trigger] held[i]).0 == key {
        Some(choose|i: int| 0 <= i < held.len() && (#[trigger] held[i]).0 == key)
    } else {
        None
    }
}

impl Keyboard {
    /// The base note is on the keyboard, and no key is held twice.
    pub open spec fn is_valid(self) -> bool {
        &&& 0 <= self.base <= 127
        &&& forall|i: int, j: int|
            0 <= i < j < self.held@.len() ==> (#[trigger] self.held@[i]).0 != (
            #[trigger] self.held@[j]).0
    }

    /// Starts at C4, with nothing held.
    pub fn new() -> (r: Self)
        ensures
            r.is_valid(),
            r.base == 60,
            r.held@.len() == 0,
            r.mouse is None,
    {
        Keyboard { base: 60, held: Vec::new(), mouse: None }
    }

    /// Moves the base note down an octave, not below the lowest note.
    pub fn octave_down(&mut self)
        requires
            old(self).is_valid(),
        ensures
            final(self).is_valid(),
            final(self).base == if old(self).base < 12 {
                0int
            } else {
                old(self).base - 12
            },
            final(self).held@ == old(self).held@,
            final(self).mouse == old(self).mouse,
    {
        self.base = if self.base < 12 {
            0
        } else {
            self.base - 12
        };
    }

    /// Moves the base note up an octave, not above the highest base.
    pub fn octave_up(&mut self)
        requires
            old(self).is_valid(),
        ensures
            final(self).is_valid(),
            final(self).base == if old(self).base + 12 > HIGHEST_BASE {
                HIGHEST_BASE as int
            } else {
                old(self).base + 12
            },
            final(self).held@ == old(self).held@,
            final(self).mouse == old(self).mouse,
    {
        self.base = if self.base + 12 > HIGHEST_BASE {
            HIGHEST_BASE
        } else {
            self.base + 12
        };
    }

    fn find(&self, key: char) -> (r: Option<usize>)
        requires
            self.is_valid(),
        ensures
            r is Some <==> held_at(self.held@, key) is Some,
            r matches Some(i) ==> held_at(self.held@, key) == Some(i as int) && i
                < self.held@.len(),
    {
        let mut i: usize = 0;
        while i < self.held.len()
            invariant
                self.is_valid(),
                i <= self.held@.len(),
                forall|j: int| 0 <= j < i ==> (#[trigger] self.held@[j]).0 != key,
            decreases self.held@.len() - i,
        {
            if self.held[i].0 == key {
                proof {
                    let c = choose|c: int|
                        0 <= c < self.held@.len() && (#[trigger] self.held@[c]).0 == key;
                    assert(self.held@[i as int].0 == key);
                    assert(c == i) by {
                        if c > i {
                            assert(self.held@[i as int].0 != self.held@[c].0);
                        }
                    }
                }
                return Some(i);
            }
            i += 1;
        }
        None
    }

    /// A key event. Command-Z takes an edit back and, with shift, does it again; Z and X
    /// move the octave; the letter keys play, each note lasting until its key goes up
    /// even if the octave moves meanwhile. Repeats do nothing.
    pub fn key_event(&mut self, e: KeyEvent) -> (r: KeyAction)
        requires
            old(self).is_valid(),
        ensures
            final(self).is_valid(),
            final(self).mouse == old(self).mouse,
            reacted(*old(self), *final(self), e, r),
    {
        if e.repeat {
            return KeyAction::Nothing;
        }
        if e.down && e.command && e.key == 'Z' {
            return if e.shift {
                KeyAction::Redo
            } else {
                KeyAction::Undo
            };
        }
        if e.down && e.key == 'Z' {
            self.octave_down();
            return KeyAction::Nothing;
        }
        if e.down && e.key == 'X' {
            self.octave_up();
            return KeyAction::Nothing;
        }
        match key_to_semitone(e.key) {
            Some(s) => {
                let at = self.find(e.key);
                if e.down {
                    if at.is_some() {
                        return KeyAction::Nothing;
                    }
                    let note: u8 = clamp_note(self.base + s);
                    self.held.push((e.key, note));
                    KeyAction::NoteOn(note)
                } else {
                    match at {
                        Some(i) => {
                            let (_, note) = self.held.remove(i);
                            KeyAction::NoteOff(note)
                        },
                        None => KeyAction::Nothing,
                    }
                }
            },
            None => KeyAction::Nothing,
        }
    }

    /// Lets go of every held key, the keyboard being wanted for typing. Returns the notes
    /// that they played.
    pub fn let_go(&mut self) -> (r: Vec<u8>)
        requires
            old(self).is_valid(),
        ensures
            final(self).is_valid(),
            final(self).held@.len() == 0,
            final(self).base == old(self).base,
            final(self).mouse == old(self).mouse,
            r@ == old(self).held@.map_values(|h: (char, u8)| h.1),
    {
        let mut r: Vec<u8> = Vec::new();
        let mut i: usize = 0;
        while i < self.held.len()
            invariant
                *self == *old(self),
                i <= self.held@.len(),
                r@ == self.held@.take(i as int).map_values(|h: (char, u8)| h.1),
            decreases self.held@.len() - i,
        {
            r.push(self.held[i].1);
            i += 1;
            assert(r@ =~= self.held@.take(i as int).map_values(|h: (char, u8)| h.1));
        }
        assert(self.held@.take(i as int) =~= self.held@);
        self.held = Vec::new();
        r
    }

    /// The mouse is over a piano key, or none, with its button down or up. Returns the
    /// note to let go and the note to strike.
    pub fn mouse_event(&mut self, over: Option<u8>, down: bool) -> (r: (Option<u8>, Option<u8>))
        ensures
            final(self).base == old(self).base,
            final(self).held@ == old(self).held@,
            final(self).mouse == if down {
                over
            } else {
                None
            },
            r == if final(self).mouse == old(self).mouse {
                (None::<u8>, None::<u8>)
            } else {
                (old(self).mouse, final(self).mouse)
            },
    {
        let wanted: Option<u8> = if down {
            over
        } else {
            None
        };
        let same: bool = match (wanted, self.mouse) {
            (Some(a), Some(b)) => a == b,
            (None, None) => true,
            _ => false,
        };
        if same {
            return (None, None);
        }
        let old_note = self.mouse;
        self.mouse = wanted;
        (old_note, wanted)
    }

    /// A note is held, by the mouse or by a key.
    pub open spec fn holds(self, note: u8) -> bool {
        self.mouse == Some(note) || exists|i: int|
            0 <= i < self.held@.len() && (#[trigger] self.held@[i]).1 == note
    }

    /// Whether a note is held, by the mouse or by a key.
    pub fn is_down(&self, note: u8) -> (r: bool)
        ensures
            r == self.holds(note),
    {
        if let Some(m) = self.mouse {
            if m == note {
                return true;
            }
        }
        let mut i: usize = 0;
        while i < self.held.len()
            invariant
                i <= self.held@.len(),
                self.mouse != Some(note),
                forall|j: int| 0 <= j < i ==> (#[trigger] self.held@[j]).1 != note,
            decreases self.held@.len() - i,
        {
            if self.held[i].1 == note {
                return true;
            }
            i += 1;
        }
        false
    }
}

/// What a key event does to the keyboard, and what comes of it.
pub open spec fn reacted(a: Keyboard, b: Keyboard, e: KeyEvent, r: KeyAction) -> bool {
    if e.repeat {
        b == a && r == KeyAction::Nothing
    } else if e.down && e.command && e.key == 'Z' {
        b == a && r == if e.shift {
            KeyAction::Redo
        } else {
            KeyAction::Undo
        }
    } else if e.down && e.key == 'Z' {
        b.held@ == a.held@ && r == KeyAction::Nothing && b.base == if a.base < 12 {
            0int
        } else {
            a.base - 12
        }
    } else if e.down && e.key == 'X' {
        b.held@ == a.held@ && r == KeyAction::Nothing && b.base == if a.base + 12 > HIGHEST_BASE {
            HIGHEST_BASE as int
        } else {
            a.base + 12
        }
    } else {
        &&& b.base == a.base
        &&& match (semitone(e.key), held_at(a.held@, e.key)) {
            (Some(s), None) => if e.down {
                let note = on_keyboard(a.base + s);
                b.held@ == a.held@.push((e.key, note)) && r == KeyAction::NoteOn(note)
            } else {
                b.held@ == a.held@ && r == KeyAction::Nothing
            },
            (Some(_), Some(i)) => if e.down {
                b.held@ == a.held@ && r == KeyAction::Nothing
            } else {
                b.held@ == a.held@.remove(i) && r == KeyAction::NoteOff(a.held@[i].1)
            },
            (None, _) => b.held@ == a.held@ && r == KeyAction::Nothing,
        }
    }
}

/// The semitone of the white key numbered `k` in its octave.
pub open spec fn white_semitone(k: int) -> int {
    if k <= 2 {
        2 * k
    } else {
        2 * k - 1
    }
}

/// The note of white key `w` of the piano, which has fourteen of them.
pub open spec fn white_note(base: int, w: int) -> Option<u8> {
    if 0 <= w < 14 {
        Some(on_keyboard(base + w / 7 * 12 + white_semitone(w % 7)))
    } else {
        None
    }
}

/// The note of white key `w` of the piano.
pub fn white_key(base: i32, w: i32) -> (r: Option<u8>)
    requires
        0 <= base <= 127,
    ensures
        r == white_note(base as int, w as int),
{
    if w < 0 || w >= 14 {
        return None;
    }
    let k: i32 = w % 7;
    let semi: i32 = if k <= 2 {
        2 * k
    } else {
        2 * k - 1
    };
    Some(clamp_note(base + w / 7 * 12 + semi))
}

/// The semitone of black key `k` (of five) in its octave.
pub open spec fn black_semitone(k: int) -> int {
    if k <= 1 {
        2 * k + 1
    } else {
        2 * k + 2
    }
}

/// The white key, in its octave, that black key `k` stands after.
pub open spec fn black_after_of(k: int) -> int {
    if k <= 1 {
        k
    } else {
        k + 1
    }
}

/// The note of black key `k` in octave `oct` of the piano.
pub fn black_key(base: i32, oct: i32, k: i32) -> (r: u8)
    requires
        0 <= base <= 127,
        0 <= oct < 2,
        0 <= k < 5,
    ensures
        r == on_keyboard(base + oct * 12 + black_semitone(k as int)),
{
    let semi: i32 = if k <= 1 {
        2 * k + 1
    } else {
        2 * k + 2
    };
    clamp_note(base + oct * 12 + semi)
}

/// The white key, in its octave, that black key `k` stands after.
pub fn black_after(k: usize) -> (r: usize)
    requires
        k < 5,
    ensures
        r == black_after_of(k as int),
{
    if k <= 1 {
        k
    } else {
        k + 1
    }
}

/// A held key is let go with the note that it struck, whatever happened to the octave
/// since.
pub proof fn key_up_ends_the_note_struck(a: Keyboard, b: Keyboard, c: Keyboard, e: KeyEvent)
    requires
        a.is_valid(),
        c.is_valid(),
        e.down,
        !e.repeat,
        semitone(e.key) is Some,
        held_at(a.held@, e.key) is None,
        reacted(a, b, e, KeyAction::NoteOn(on_keyboard(a.base + semitone(e.key).unwrap()))),
        c.held@ == b.held@,
    ensures
        held_at(c.held@, e.key) matches Some(i) && c.held@[i].1 == on_keyboard(
            a.base + semitone(e.key).unwrap(),
        ),
{
    let last = b.held@.len() - 1;
    assert(c.held@[last].0 == e.key);
    let i = choose|i: int| 0 <= i < c.held@.len() && (#[trigger] c.held@[i]).0 == e.key;
    assert(i == last) by {
        if i < last {
            assert(c.held@[i].0 != c.held@[last].0);
        }
    }
}

/// The white and the black keys of an octave are its twelve semitones, each once.
pub proof fn piano_keys_cover_the_octave(s: int)
    requires
        0 <= s < 12,
    ensures
        (exists|k: int| 0 <= k < 7 && #[trigger] white_semitone(k) == s) != (exists|k: int|
            0 <= k < 5 && #[trigger] black_semitone(k) == s),
{
    assert(white_semitone(0) == 0 && white_semitone(1) == 2 && white_semitone(2) == 4
        && white_semitone(3) == 5 && white_semitone(4) == 7 && white_semitone(5) == 9
        && white_semitone(6) == 11);
    assert(black_semitone(0) == 1 && black_semitone(1) == 3 && black_semitone(2) == 6
        && black_semitone(3) == 8 && black_semitone(4) == 10);
}

/// A note on the keyboard stays, one past its ends becomes the end.
pub proof fn notes_are_kept_on_the_keyboard(x: int)
    ensures
        0 <= x <= 127 ==> on_keyboard(x) == x,
        x < 0 ==> on_keyboard(x) == 0,
        x > 127 ==> on_keyboard(x) == 127,
{
}

/// Each letter key plays a semitone of its own, the row of letters the white keys from the
/// base up and the row above it the black ones between them.
pub proof fn letters_lie_like_piano_keys(w: int, b: int)
    requires
        0 <= w < 9,
        0 <= b < 6,
    ensures
        semitone(seq!['A', 'S', 'D', 'F', 'G', 'H', 'J', 'K', 'L'][w]) == Some(
            w / 7 * 12 + white_semitone(w % 7),
        ),
        semitone(seq!['W', 'E', 'T', 'Y', 'U', 'O'][b]) == Some(
            b / 5 * 12 + black_semitone(b % 5),
        ),
        forall|x: char, y: char|
            #![trigger semitone(x), semitone(y)]
            semitone(x) is Some && semitone(x) == semitone(y) ==> x == y,
        semitone('Z') is None,
        semitone('X') is None,
{
    let whites = seq!['A', 'S', 'D', 'F', 'G', 'H', 'J', 'K', 'L'];
    let blacks = seq!['W', 'E', 'T', 'Y', 'U', 'O'];
    assert(whites[0] == 'A' && whites[1] == 'S' && whites[2] == 'D' && whites[3] == 'F'
        && whites[4] == 'G' && whites[5] == 'H' && whites[6] == 'J' && whites[7] == 'K'
        && whites[8] == 'L');
    assert(blacks[0] == 'W' && blacks[1] == 'E' && blacks[2] == 'T' && blacks[3] == 'Y'
        && blacks[4] == 'U' && blacks[5] == 'O');
}

/// A letter that goes down strikes the note so many semitones above the base, kept on the
/// keyboard, unless it is held already; going up, it lets go the note that it struck.
/// Repeats, other keys and releases of what is not held do nothing.
pub proof fn letters_play_from_the_base(a: Keyboard, b: Keyboard, e: KeyEvent, r: KeyAction)
    requires
        a.is_valid(),
        reacted(a, b, e, r),
    ensures
        e.repeat ==> r == KeyAction::Nothing && b == a,
        r matches KeyAction::NoteOn(n) ==> e.down && !e.repeat && (
        semitone(e.key) matches Some(s) && (a.base + s <= 127 ==> n == a.base + s) && (a.base + s
            > 127 ==> n == 127)) && b.held@ == a.held@.push((e.key, n)) && b.base == a.base,
        r matches KeyAction::NoteOff(n) ==> !e.down && !e.repeat && a.held@.contains((e.key, n))
            && b.held@.len() == a.held@.len() - 1 && b.base == a.base,
        !e.repeat && e.down && semitone(e.key) is Some && (forall|i: int|
            0 <= i < a.held@.len() ==> (#[trigger] a.held@[i]).0 != e.key) ==> r is NoteOn,
        !e.repeat && !e.down && semitone(e.key) is Some && (exists|i: int|
            0 <= i < a.held@.len() && (#[trigger] a.held@[i]).0 == e.key) ==> r is NoteOff,
        r == KeyAction::Undo <==> !e.repeat && e.down && e.command && e.key == 'Z' && !e.shift,
        r == KeyAction::Redo <==> !e.repeat && e.down && e.command && e.key == 'Z' && e.shift,
        b.base == a.base || (e.down && !e.repeat && (e.key == 'Z' && !e.command || e.key == 'X')),
{
    if let Some(i) = held_at(a.held@, e.key) {
        let k = choose|k: int| 0 <= k < a.held@.len() && (#[trigger] a.held@[k]).0 == e.key;
        assert(a.held@[k] == (e.key, a.held@[k].1));
        assert(a.held@.contains((e.key, a.held@[k].1)));
    }
}

/// The octave keys move the base by twelve semitones, as far as the keyboard goes.
pub proof fn octaves_are_twelve_semitones(a: Keyboard, b: Keyboard, e: KeyEvent, r: KeyAction)
    requires
        a.is_valid(),
        reacted(a, b, e, r),
        e.down,
        !e.repeat,
        !e.command,
    ensures
        e.key == 'Z' && a.base >= 12 ==> b.base == a.base - 12,
        e.key == 'Z' && a.base < 12 ==> b.base == 0,
        e.key == 'X' && a.base <= 96 ==> b.base == a.base + 12,
        e.key == 'X' && a.base > 96 ==> b.base == 108,
        e.key == 'Z' || e.key == 'X' ==> b.held@ == a.held@ && r == KeyAction::Nothing,
{
}

/// The keys of the piano rise: each white key is one or two semitones above the last, seven
/// of them make an octave, and a black key stands half way after its white key.
pub proof fn piano_keys_rise(base: int, w: int, k: int)
    requires
        0 <= base <= 127,
        0 <= w < 13,
        0 <= k < 5,
    ensures
        1 <= white_semitone((w + 1) % 7) + (w + 1) / 7 * 12 - (white_semitone(w % 7) + w / 7 * 12)
            <= 2,
        white_semitone(0) == 0,
        white_semitone(6) == 11,
        black_semitone(k) == white_semitone(black_after_of(k)) + 1,
        black_semitone(k) == white_semitone(black_after_of(k) + 1) - 1,
        white_note(base, 0) == Some(base as u8),
        w < 7 && base + 24 <= 127 ==> white_note(base, w + 7).unwrap() == white_note(
            base,
            w,
        ).unwrap() + 12,
        white_note(base, -1) is None,
        white_note(base, 14) is None,
{
}

/// A note is named by its place in the octave and by its octave: twelve semitones up, the
/// same letters come with the next number, and note 60 is in octave 4.
pub proof fn notes_an_octave_apart_share_a_letter(n: u8)
    ensures
        n <= 243 ==> note_text(n) == class_text(n as int % 12) + signed_decimal(n as int / 12 - 1)
            && note_text((n + 12) as u8) == class_text(n as int % 12) + signed_decimal(
            n as int / 12,
        ),
        note_text(60) == "C"@ + signed_decimal(4),
        note_text(69) == "A"@ + signed_decimal(4),
        note_text(0) == "C"@ + signed_decimal(-1),
{
}

/// Only negative numbers have a sign, and what follows it is the number without it.
pub proof fn only_negative_numbers_have_a_sign(x: int)
    ensures
        x >= 0 ==> text::number_of(signed_decimal(x)) == x && signed_decimal(x)[0] != '-',
        x < 0 ==> signed_decimal(x)[0] == '-' && text::number_of(signed_decimal(x).skip(1)) == -x,
{
    reveal_strlit("-");
    if x >= 0 {
        text::decimals_read_back(x as nat);
        assert('0' <= signed_decimal(x)[0]);
    } else {
        text::decimals_read_back((-x) as nat);
        assert(signed_decimal(x).skip(1) =~= text::decimal((-x) as nat));
    }
}

/// A note is held exactly while the mouse or one of the keys holds it.
pub proof fn notes_are_held_by_the_mouse_or_a_key(k: Keyboard, note: u8, i: int)
    ensures
        k.mouse == Some(note) ==> k.holds(note),
        0 <= i < k.held@.len() && k.held@[i].1 == note ==> k.holds(note),
        k.mouse != Some(note) && (forall|j: int|
            0 <= j < k.held@.len() ==> (#[trigger] k.held@[j]).1 != note) ==> !k.holds(note),
{
}

/// The white keys carry the letters, and a black key is the sharp of the white key below it.
pub proof fn sharps_are_called_after_the_key_below(w: int, k: int)
    requires
        0 <= w < 7,
        0 <= k < 5,
    ensures
        class_text(white_semitone(w)) == seq!["C"@, "D"@, "E"@, "F"@, "G"@, "A"@, "B"@][w],
        class_text(black_semitone(k)) == class_text(black_semitone(k) - 1) + "#"@,
{
    reveal_strlit("#");
    reveal_strlit("C");
    reveal_strlit("D");
    reveal_strlit("F");
    reveal_strlit("G");
    reveal_strlit("A");
    reveal_strlit("C#");
    reveal_strlit("D#");
    reveal_strlit("F#");
    reveal_strlit("G#");
    reveal_strlit("A#");
    assert("C#"@ =~= "C"@ + "#"@);
    assert("D#"@ =~= "D"@ + "#"@);
    assert("F#"@ =~= "F"@ + "#"@);
    assert("G#"@ =~= "G"@ + "#"@);
    assert("A#"@ =~= "A"@ + "#"@);
}

/// A key that comes up lets go of its own note alone: the other keys stay held, and it is
/// held no more. A key that is held strikes nothing, one that is not lets go of nothing, and
/// a key without a note does neither.
pub proof fn keys_let_go_of_their_own_note(a: Keyboard, b: Keyboard, e: KeyEvent, r: KeyAction)
    requires
        a.is_valid(),
        reacted(a, b, e, r),
    ensures
        forall|j: int|
            0 <= j < a.held@.len() && (#[trigger] a.held@[j]).0 != e.key ==> b.held@.contains(
                a.held@[j],
            ),
        forall|j: int|
            0 <= j < b.held@.len() && (#[trigger] b.held@[j]).0 != e.key ==> a.held@.contains(
                b.held@[j],
            ),
        r is NoteOff ==> forall|j: int| 0 <= j < b.held@.len() ==> (#[trigger] b.held@[j]).0 != e.key,
        r is NoteOn ==> forall|j: int| 0 <= j < a.held@.len() ==> (#[trigger] a.held@[j]).0 != e.key,
        semitone(e.key) is None ==> !(r is NoteOn) && !(r is NoteOff) && b.held@ == a.held@,
        !(r is NoteOn) && !(r is NoteOff) ==> b.held@ == a.held@,
{
    assert forall|j: int| 0 <= j < a.held@.len() && (#[trigger] a.held@[j]).0 != e.key implies
        b.held@.contains(a.held@[j]) by {
        if r is NoteOff {
            let i = held_at(a.held@, e.key).unwrap();
            if j < i {
                assert(b.held@[j] == a.held@[j]);
            } else {
                assert(b.held@[j - 1] == a.held@[j]);
            }
        } else {
            assert(b.held@[j] == a.held@[j]);
        }
    }
}

} // verus!
