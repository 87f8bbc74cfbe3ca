//! Typing a text: which keys to press for its characters, and which of them
//! together with shift.

use vstd::prelude::*;
use vstd::string::StrSliceExecFns;
use crate::keybinds::keys::{char_key, get_keybd_key, Keyboard};

verus! {

/// A text to type.
pub struct KeySequence(pub &'static str);

/// One key to press and release, while shift is held down or not.
#[derive(Debug, Clone, Copy, PartialEq, Eq, Structural)]
pub struct KeyStroke {
    pub key: Keyboard,
    pub shift: bool,
}

/// Whether a character is an upper-case letter, as `char::is_uppercase`
/// tells it.
pub uninterp spec fn is_uppercase(c: char) -> bool;

/// `char::is_uppercase`: whether `c` is an upper-case letter, which depends
/// on `c` alone.
#[verifier::external_body]
fn char_is_uppercase(c: char) -> (r: bool)
    ensures
        r == is_uppercase(c),
{
    c.is_uppercase()
}

/// Whether a character is one of the symbols that a key types together with
/// shift.
pub open spec fn spec_is_shifted_symbol(c: char) -> bool {
    c == '!' || c == '@' || c == '#' || c == '$' || c == '%' || c == '^' || c == '&' || c == '*' || c == '('
        || c == ')' || c == '_' || c == '+' || c == '{' || c == '}' || c == '|' || c == ':' || c == '"' || c
        == '<' || c == '>' || c == '?' || c == '~'
}

/// Computes [`spec_is_shifted_symbol`].
#[verifier::when_used_as_spec(spec_is_shifted_symbol)]
pub fn is_shifted_symbol(c: char) -> (r: bool)
    ensures
        r == spec_is_shifted_symbol(c),
{
    match c {
        '!' | '@' | '#' | '$' | '%' | '^' | '&' | '*' | '(' | ')' | '_' | '+' | '{' | '}' | '|' | ':' | '"'
        | '<' | '>' | '?' | '~' => true,
        _ => false,
    }
}

/// The stroke that types `c`, where `upper` tells whether `c` is an
/// upper-case letter: the key of `c`, with shift for an upper-case letter
/// and for a shifted symbol. A character that no key types has no stroke.
pub open spec fn spec_stroke(c: char, upper: bool) -> Option<KeyStroke> {
    match char_key(c) {
        Some(key) => Some(KeyStroke { key, shift: upper || spec_is_shifted_symbol(c) }),
        None => None,
    }
}

/// Computes [`spec_stroke`].
#[verifier::when_used_as_spec(spec_stroke)]
pub fn stroke(c: char, upper: bool) -> (r: Option<KeyStroke>)
    ensures
        r == spec_stroke(c, upper),
{
    let shift: bool = upper || is_shifted_symbol(c);
    match get_keybd_key(c) {
        Some(key) => Some(KeyStroke { key, shift }),
        None => None,
    }
}

/// The strokes that type `text`: one for each character that a key types,
/// in the order of the text. The other characters are left out.
pub open spec fn strokes_of(text: Seq<char>) -> Seq<KeyStroke>
    decreases text.len(),
{
    if text.len() == 0 {
        Seq::empty()
    } else {
        let front = strokes_of(text.drop_last());
        match spec_stroke(text.last(), is_uppercase(text.last())) {
            Some(s) => front.push(s),
            None => front,
        }
    }
}

impl KeySequence {
    /// The strokes that type the text.
    pub fn strokes(&self) -> (r: Vec<KeyStroke>)
        ensures
            r@ == strokes_of(self.0@),
    {
        let n: usize = self.0.unicode_len();
        let mut out: Vec<KeyStroke> = Vec::new();
        let mut i: usize = 0;
        assert(self.0@.take(0) =~= Seq::<char>::empty());
        while i < n
            invariant
                i <= n == self.0@.len(),
                out@ == strokes_of(self.0@.take(i as int)),
            decreases n - i,
        {
            let c: char = self.0.get_char(i);
            proof {
                let upto = self.0@.take(i + 1);
                assert(upto.drop_last() =~= self.0@.take(i as int));
                assert(upto.last() == c);
            }
            match stroke(c, char_is_uppercase(c)) {
                Some(s) => {
                    out.push(s);
                },
                None => {},
            }
            i = i + 1;
        }
        assert(self.0@.take(n as int) =~= self.0@);
        out
    }
}

/// How long a key is held down when a text is typed, in milliseconds.
pub const HOLD_MILLIS: u64 = 20;

/// One thing to do to the keyboard.
#[derive(Debug, Clone, Copy, PartialEq, Eq, Structural)]
pub enum KeyEvent {
    /// Press the key down.
    Press(Keyboard),
    /// Let the key go.
    Release(Keyboard),
    /// Leave the keyboard as it is for so many milliseconds.
    Wait(u64),
}

/// What is done to the keyboard for one stroke: the key is pressed, held
/// for [`HOLD_MILLIS`] and let go. Where the stroke asks for shift, the left
/// shift key goes down before all of that and is let go after it.
pub open spec fn events_of(stroke: KeyStroke) -> Seq<KeyEvent> {
    let tap = seq![KeyEvent::Press(stroke.key), KeyEvent::Wait(HOLD_MILLIS), KeyEvent::Release(stroke.key)];
    if stroke.shift {
        seq![KeyEvent::Press(Keyboard::LShiftKey)] + tap + seq![KeyEvent::Release(Keyboard::LShiftKey)]
    } else {
        tap
    }
}

impl KeyStroke {
    /// What is done to the keyboard for this stroke, in order.
    pub fn events(&self) -> (r: Vec<KeyEvent>)
        ensures
            r@ == events_of(*self),
    {
        let mut out: Vec<KeyEvent> = Vec::new();
        if self.shift {
            out.push(KeyEvent::Press(Keyboard::LShiftKey));
        }
        out.push(KeyEvent::Press(self.key));
        out.push(KeyEvent::Wait(HOLD_MILLIS));
        out.push(KeyEvent::Release(self.key));
        if self.shift {
            out.push(KeyEvent::Release(Keyboard::LShiftKey));
        }
        assert(out@ =~= events_of(*self));
        out
    }
}

} // verus!
