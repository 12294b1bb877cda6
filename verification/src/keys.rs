//! Turning text into the key presses that type it: line breaks become
//! Return, every other character its UTF-16 units.
use vstd::prelude::*;

use crate::composition::{utf16_of, utf16_units};

verus! {

/// One key press (down and up).
#[derive(Debug, Clone, Copy, PartialEq, Eq, Structural)]
pub enum Keystroke {
    /// The Return key.
    Return,
    /// The Backspace key.
    Backspace,
    /// One UTF-16 unit typed as a Unicode character.
    Unit(u16),
}

pub open spec fn unit_strokes(units: Seq<u16>) -> Seq<Keystroke> {
    units.map_values(|u: u16| Keystroke::Unit(u))
}

/// The key presses that type a text: `\r\n`, `\r` and `\n` are each one
/// Return; any other character is typed as its UTF-16 units.
pub open spec fn keystrokes_of(text: Seq<char>) -> Seq<Keystroke>
    decreases text.len(),
{
    if text.len() == 0 {
        Seq::empty()
    } else if text[0] == '\r' && text.len() > 1 && text[1] == '\n' {
        seq![Keystroke::Return] + keystrokes_of(text.skip(2))
    } else if text[0] == '\r' || text[0] == '\n' {
        seq![Keystroke::Return] + keystrokes_of(text.skip(1))
    } else {
        unit_strokes(utf16_units(text[0])) + keystrokes_of(text.skip(1))
    }
}

/// The key presses that type `text`.
pub fn text_keystrokes(text: &str) -> (strokes: Vec<Keystroke>)
    ensures
        strokes@ == keystrokes_of(text@),
{
    let chars = crate::text::chars_of(text);
    let mut strokes: Vec<Keystroke> = Vec::new();
    let mut index: usize = 0;
    proof {
        assert(chars@.skip(0) =~= chars@);
    }
    while index < chars.len()
        invariant
            chars@ == text@,
            index <= chars@.len(),
            strokes@ + keystrokes_of(chars@.skip(index as int)) == keystrokes_of(chars@),
        decreases chars.len() - index,
    {
        let ghost rest = chars@.skip(index as int);
        let ghost before = strokes@;
        let c = chars[index];
        assert(rest[0] == c);
        if c == '\r' && index + 1 < chars.len() && chars[index + 1] == '\n' {
            strokes.push(Keystroke::Return);
            proof {
                assert(rest[1] == chars@[index + 1]);
                assert(rest.skip(2) =~= chars@.skip(index + 2));
                assert(before + keystrokes_of(rest) =~= strokes@ + keystrokes_of(chars@.skip(index + 2)));
            }
            index += 2;
        } else if c == '\r' || c == '\n' {
            strokes.push(Keystroke::Return);
            proof {
                assert(rest.skip(1) =~= chars@.skip(index + 1));
                assert(before + keystrokes_of(rest) =~= strokes@ + keystrokes_of(chars@.skip(index + 1)));
            }
            index += 1;
        } else {
            let units = crate::composition::encode_char_utf16(c);
            let mut k: usize = 0;
            while k < units.len()
                invariant
                    k <= units@.len(),
                    strokes@ == before + unit_strokes(units@.take(k as int)),
                decreases units.len() - k,
            {
                strokes.push(Keystroke::Unit(units[k]));
                proof {
                    assert(units@.take(k + 1) =~= units@.take(k as int).push(units@[k as int]));
                    assert(unit_strokes(units@.take(k + 1)) =~= unit_strokes(units@.take(k as int)).push(
                        Keystroke::Unit(units@[k as int]),
                    ));
                }
                k += 1;
            }
            proof {
                assert(units@.take(units@.len() as int) =~= units@);
                assert(rest.skip(1) =~= chars@.skip(index + 1));
                assert(before + keystrokes_of(rest) =~= strokes@ + keystrokes_of(chars@.skip(index + 1)));
            }
            index += 1;
        }
    }
    proof {
        assert(chars@.skip(chars@.len() as int) =~= Seq::<char>::empty());
        assert(strokes@ + keystrokes_of(Seq::<char>::empty()) =~= strokes@);
    }
    strokes
}

/// `count` Backspace presses.
pub fn backspaces(count: usize) -> (strokes: Vec<Keystroke>)
    ensures
        strokes@ == Seq::new(count as nat, |i: int| Keystroke::Backspace),
{
    let mut strokes: Vec<Keystroke> = Vec::new();
    let mut i: usize = 0;
    while i < count
        invariant
            i <= count,
            strokes@ == Seq::new(i as nat, |k: int| Keystroke::Backspace),
        decreases count - i,
    {
        strokes.push(Keystroke::Backspace);
        i += 1;
        proof {
            assert(strokes@ =~= Seq::new(i as nat, |k: int| Keystroke::Backspace));
        }
    }
    strokes
}

} // verus!
