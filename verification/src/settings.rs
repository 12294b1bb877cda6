//! The small settings the app keeps in text files: where the floating
//! widget sits, whether it is shown, and the autostart command.
use vstd::prelude::*;

use crate::text::{chars_of, concat, is_trimmed, split_chars, split_on, str_equal, string_from_chars, trim};
use crate::update::{all_digits, digits_value};

verus! {

broadcast use vstd::string::group_string_axioms;

/// What `i32::from_str` accepts: an optional sign, then one or more decimal
/// digits whose value is within range.
pub open spec fn parsed_i32(text: Seq<char>) -> Option<i32> {
    let negative = text.len() > 0 && text[0] == '-';
    let digits = if text.len() > 0 && (text[0] == '+' || text[0] == '-') {
        text.drop_first()
    } else {
        text
    };
    let value: int = if negative {
        -digits_value(digits)
    } else {
        digits_value(digits) as int
    };
    if digits.len() > 0 && all_digits(digits) && i32::MIN <= value <= i32::MAX {
        Some(value as i32)
    } else {
        None
    }
}

proof fn lemma_value_bound(text: Seq<char>, start: int, k: int, j: int)
    requires
        0 <= start <= k <= j <= text.len(),
        all_digits(text.subrange(start, j)),
        digits_value(text.subrange(start, k)) > 2147483648,
    ensures
        digits_value(text.subrange(start, j)) > 2147483648,
    decreases j - k,
{
    if j > k {
        assert(text.subrange(start, j).drop_last() =~= text.subrange(start, j - 1));
        assert(all_digits(text.subrange(start, j - 1))) by {
            assert forall|i: int| 0 <= i < text.subrange(start, j - 1).len() implies '0'
                <= #[trigger] text.subrange(start, j - 1)[i] <= '9' by {
                assert(text.subrange(start, j - 1)[i] == text.subrange(start, j)[i]);
            }
        }
        lemma_value_bound(text, start, k, j - 1);
        assert('0' <= text.subrange(start, j).last() <= '9');
    }
}

/// Parses a decimal `i32` as `str::parse::<i32>` does.
pub fn parse_i32(text: &[char]) -> (value: Option<i32>)
    ensures
        value == parsed_i32(text@),
{
    let negative = text.len() > 0 && text[0] == '-';
    let start: usize = if text.len() > 0 && (text[0] == '+' || text[0] == '-') {
        1
    } else {
        0
    };
    let ghost digits = if text@.len() > 0 && (text@[0] == '+' || text@[0] == '-') {
        text@.drop_first()
    } else {
        text@
    };
    assert(digits =~= text@.skip(start as int));
    if start >= text.len() {
        return None;
    }
    let mut magnitude: u64 = 0;
    let mut index: usize = start;
    while index < text.len()
        invariant
            start <= index <= text@.len(),
            digits == text@.skip(start as int),
            negative == (text@.len() > 0 && text@[0] == '-'),
            digits == (if text@.len() > 0 && (text@[0] == '+' || text@[0] == '-') {
                text@.drop_first()
            } else {
                text@
            }),
            all_digits(text@.subrange(start as int, index as int)),
            magnitude == digits_value(text@.subrange(start as int, index as int)),
            magnitude <= 2147483648,
        decreases text.len() - index,
    {
        let c = text[index];
        let ghost prefix = text@.subrange(start as int, index as int);
        let ghost next = text@.subrange(start as int, index + 1);
        proof {
            assert(next.drop_last() =~= prefix);
            assert(next.last() == c);
        }
        if !('0' <= c && c <= '9') {
            proof {
                assert(digits[index - start] == c);
            }
            return None;
        }
        let digit = (c as u32 - 48) as u64;
        let bigger = magnitude * 10 + digit;
        if bigger > 2147483648 {
            proof {
                assert(digits_value(next) > 2147483648);
                assert(text@.subrange(start as int, text@.len() as int) =~= digits);
                if all_digits(digits) {
                    lemma_value_bound(text@, start as int, index + 1, text@.len() as int);
                }
            }
            return None;
        }
        magnitude = bigger;
        proof {
            assert(all_digits(next));
        }
        index += 1;
    }
    proof {
        assert(text@.subrange(start as int, text@.len() as int) =~= digits);
    }
    if negative {
        Some((0 - magnitude as i64) as i32)
    } else if magnitude <= 2147483647 {
        Some(magnitude as i32)
    } else {
        None
    }
}

/// The widget position a saved text holds: `x,y` once trimmed, each a
/// decimal `i32`; pieces after the second are ignored.
pub open spec fn position_of(text: Seq<char>) -> Option<(i32, i32)> {
    let trimmed = choose|t: Seq<char>| is_trimmed(t, text);
    let pieces = split_on(trimmed, ',');
    if pieces.len() >= 2 && parsed_i32(pieces[0]) is Some && parsed_i32(pieces[1]) is Some {
        Some((parsed_i32(pieces[0])->0, parsed_i32(pieces[1])->0))
    } else {
        None
    }
}

/// Reads the saved widget position.
pub fn parse_floating_position(value: &str) -> (position: Option<(i32, i32)>)
    ensures
        position == position_of(value@),
{
    let trimmed = trim(value);
    proof {
        crate::text::lemma_trimmed_unique(choose|t: Seq<char>| is_trimmed(t, value@), trimmed@, value@);
    }
    let pieces = split_chars(trimmed.as_str(), ',');
    if pieces.len() < 2 {
        return None;
    }
    let x = parse_i32(pieces[0].as_slice());
    let y = parse_i32(pieces[1].as_slice());
    match (x, y) {
        (Some(x), Some(y)) => Some((x, y)),
        _ => None,
    }
}

/// The decimal digits of a value.
pub open spec fn decimal(value: nat) -> Seq<char>
    decreases value,
{
    if value < 10 {
        seq![(value + 48) as char]
    } else {
        decimal(value / 10).push(((value % 10) + 48) as char)
    }
}

/// The decimal text of an `i32`, with a `-` when negative.
pub open spec fn i32_text(value: i32) -> Seq<char> {
    if value < 0 {
        seq!['-'] + decimal((-value) as nat)
    } else {
        decimal(value as nat)
    }
}

/// The decimal digits of a value.
pub fn decimal_text(value: u64) -> (digits: Vec<char>)
    ensures
        digits@ == decimal(value as nat),
    decreases value,
{
    if value < 10 {
        let mut digits: Vec<char> = Vec::new();
        digits.push(((value as u8) + 48) as char);
        digits
    } else {
        let mut digits = decimal_text(value / 10);
        digits.push((((value % 10) as u8) + 48) as char);
        digits
    }
}

/// The text a widget position is saved as: `x,y`.
pub fn format_floating_position(position: (i32, i32)) -> (text: String)
    ensures
        text@ == i32_text(position.0) + seq![','] + i32_text(position.1),
{
    let mut chars = signed_digits(position.0);
    chars.push(',');
    let mut tail = signed_digits(position.1);
    chars.append(&mut tail);
    string_from_chars(chars.as_slice())
}

fn signed_digits(value: i32) -> (digits: Vec<char>)
    ensures
        digits@ == i32_text(value),
{
    if value < 0 {
        let magnitude = (0 - value as i64) as u64;
        let mut digits: Vec<char> = Vec::new();
        digits.push('-');
        let mut rest = decimal_text(magnitude);
        digits.append(&mut rest);
        digits
    } else {
        decimal_text(value as u64)
    }
}

proof fn lemma_decimal(n: nat)
    ensures
        decimal(n).len() > 0,
        all_digits(decimal(n)),
        digits_value(decimal(n)) == n,
    decreases n,
{
    if n < 10 {
        let c = (n + 48) as char;
        assert(c as nat == n + 48) by {
            vstd::utf8::char_u32_cast(c, (n + 48) as u32);
        }
        assert(decimal(n).drop_last() =~= Seq::<char>::empty());
        assert(decimal(n).last() == c);
        assert(digits_value(decimal(n)) == digits_value(Seq::<char>::empty()) * 10 + (c as nat - 48) as nat);
    } else {
        lemma_decimal(n / 10);
        let d = decimal(n);
        let c = ((n % 10) + 48) as char;
        assert(c as nat == (n % 10) + 48) by {
            vstd::utf8::char_u32_cast(c, ((n % 10) + 48) as u32);
        }
        assert(d.drop_last() =~= decimal(n / 10));
        assert(d.last() == c);
        assert(digits_value(d) == digits_value(decimal(n / 10)) * 10 + (n % 10));
        assert(n == (n / 10) * 10 + n % 10) by (nonlinear_arith);
        assert(all_digits(d)) by {
            assert forall|i: int| 0 <= i < d.len() implies '0' <= #[trigger] d[i] <= '9' by {
                if i < d.len() - 1 {
                    assert(d[i] == decimal(n / 10)[i]);
                }
            }
        }
    }
}

proof fn lemma_digits_have_no_separator(d: Seq<char>, sep: char)
    requires
        all_digits(d),
        !('0' <= sep <= '9'),
    ensures
        forall|i: int| 0 <= i < d.len() ==> d[i] != sep,
{
    assert forall|i: int| 0 <= i < d.len() implies d[i] != sep by {
        assert('0' <= d[i] <= '9');
    }
}

proof fn lemma_i32_text(v: i32)
    ensures
        parsed_i32(i32_text(v)) == Some(v),
        i32_text(v).len() > 0,
        forall|i: int| 0 <= i < i32_text(v).len() ==> #[trigger] i32_text(v)[i] != ',',
        !crate::text::is_unicode_whitespace(i32_text(v)[0]),
        !crate::text::is_unicode_whitespace(i32_text(v).last()),
{
    let t = i32_text(v);
    if v < 0 {
        let m = (-v) as nat;
        lemma_decimal(m);
        assert(t.drop_first() =~= decimal(m));
        lemma_digits_have_no_separator(decimal(m), ',');
        assert forall|i: int| 0 <= i < t.len() implies #[trigger] t[i] != ',' by {
            if i > 0 {
                assert(t[i] == decimal(m)[i - 1]);
            }
        }
        assert(t.last() == decimal(m).last());
        assert('0' <= decimal(m)[decimal(m).len() - 1] <= '9');
    } else {
        lemma_decimal(v as nat);
        lemma_digits_have_no_separator(decimal(v as nat), ',');
        assert('0' <= t[0] <= '9');
        assert('0' <= t[t.len() - 1] <= '9');
    }
}

proof fn lemma_split_append(x: Seq<char>, y: Seq<char>, sep: char)
    requires
        forall|i: int| 0 <= i < y.len() ==> y[i] != sep,
    ensures
        split_on(x + y, sep) == split_on(x, sep).update(
            split_on(x, sep).len() - 1,
            split_on(x, sep).last() + y,
        ),
    decreases y.len(),
{
    crate::text::lemma_split_nonempty(x, sep);
    if y.len() == 0 {
        assert(x + y =~= x);
        assert(split_on(x, sep).last() + y =~= split_on(x, sep).last());
        assert(split_on(x, sep).update(split_on(x, sep).len() - 1, split_on(x, sep).last())
            =~= split_on(x, sep));
    } else {
        let z = y.drop_last();
        assert forall|i: int| 0 <= i < z.len() implies z[i] != sep by {
            assert(z[i] == y[i]);
        }
        assert(y[y.len() - 1] != sep);
        lemma_split_append(x, z, sep);
        assert((x + y).drop_last() =~= x + z);
        assert((x + y).last() == y.last());
        crate::text::lemma_split_nonempty(x + z, sep);
        assert((split_on(x, sep).last() + z).push(y.last()) =~= split_on(x, sep).last() + y);
        assert(split_on(x + y, sep) =~= split_on(x, sep).update(
            split_on(x, sep).len() - 1,
            split_on(x, sep).last() + y,
        ));
    }
}

proof fn lemma_split_pair(a: Seq<char>, b: Seq<char>)
    requires
        forall|i: int| 0 <= i < a.len() ==> a[i] != ',',
        forall|i: int| 0 <= i < b.len() ==> b[i] != ',',
    ensures
        split_on(a + seq![','] + b, ',') == seq![a, b],
{
    lemma_split_append(Seq::<char>::empty(), a, ',');
    assert(Seq::<char>::empty() + a =~= a);
    assert(split_on(Seq::<char>::empty(), ',') =~= seq![Seq::<char>::empty()]);
    assert(split_on(a, ',') =~= seq![a]);
    assert(split_on(a + seq![','], ',') =~= seq![a, Seq::<char>::empty()]) by {
        assert((a + seq![',']).drop_last() =~= a);
    }
    lemma_split_append(a + seq![','], b, ',');
    assert(Seq::<char>::empty() + b =~= b);
    assert(split_on(a + seq![','] + b, ',') =~= seq![a, b]);
}

proof fn lemma_trimmed_itself(text: Seq<char>)
    requires
        text.len() > 0,
        !crate::text::is_unicode_whitespace(text[0]),
        !crate::text::is_unicode_whitespace(text.last()),
    ensures
        (choose|t: Seq<char>| crate::text::is_trimmed(t, text)) == text,
{
    let end = text.len() as int;
    assert(text.subrange(0, end) =~= text);
    assert(text[end - 1] == text.last());
    assert(forall|i: int| 0 <= i < 0 ==> crate::text::is_unicode_whitespace(#[trigger] text[i]));
    assert(forall|i: int| end <= i < text.len() ==> crate::text::is_unicode_whitespace(#[trigger] text[i]));
    assert(crate::text::is_trimmed(text, text));
    let t = choose|t: Seq<char>| crate::text::is_trimmed(t, text);
    assert(crate::text::is_trimmed(t, text));
    crate::text::lemma_trimmed_unique(t, text, text);
}

/// Reading a saved position gives back the position that was saved.
pub proof fn law_position_round_trip(position: (i32, i32))
    ensures
        position_of(i32_text(position.0) + seq![','] + i32_text(position.1)) == Some(position),
{
    let a = i32_text(position.0);
    let b = i32_text(position.1);
    lemma_i32_text(position.0);
    lemma_i32_text(position.1);
    let text = a + seq![','] + b;
    assert(text[0] == a[0]);
    assert(text.last() == b.last());
    lemma_trimmed_itself(text);
    lemma_split_pair(a, b);
}

/// Whether the widget is shown: unless the saved text, trimmed, is `0`.
pub fn floating_enabled_from(value: &str) -> (enabled: bool)
    ensures
        enabled == !(forall|t: Seq<char>| is_trimmed(t, value@) ==> t == "0"@),
{
    let trimmed = trim(value);
    proof {
        assert forall|t: Seq<char>| is_trimmed(t, value@) implies t == trimmed@ by {
            crate::text::lemma_trimmed_unique(t, trimmed@, value@);
        }
    }
    !str_equal(trimmed.as_str(), "0")
}

/// The text the widget setting is saved as.
pub fn floating_enabled_text(enabled: bool) -> (text: &'static str)
    ensures
        text@ == if enabled {
            "1"@
        } else {
            "0"@
        },
{
    if enabled {
        "1"
    } else {
        "0"
    }
}

/// The command Windows runs at logon: the quoted executable path, started
/// in the background.
pub fn auto_start_command(executable: &str) -> (command: String)
    ensures
        command@ == "\""@ + executable@ + "\" --background"@,
{
    let head = concat("\"", executable);
    concat(head.as_str(), "\" --background")
}

} // verus!
