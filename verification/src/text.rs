//! Character-level helpers over `str` and `String`.
use vstd::prelude::*;

verus! {

broadcast use vstd::string::group_string_axioms;

/// The characters of a text, in order.
pub fn chars_of(text: &str) -> (chars: Vec<char>)
    ensures
        chars@ == text@,
{
    let mut chars: Vec<char> = Vec::new();
    for c in it: text.chars()
        invariant
            it.seq() == text@,
            chars@ == it.seq().take(it.index()),
    {
        chars.push(c);
    }
    chars
}

/// Byte-wise equality of two byte slices.
pub fn bytes_equal(left: &[u8], right: &[u8]) -> (equal: bool)
    ensures
        equal == (left@ == right@),
{
    if left.len() != right.len() {
        return false;
    }
    let mut index: usize = 0;
    while index < left.len()
        invariant
            left@.len() == right@.len(),
            index <= left@.len(),
            forall|i: int| 0 <= i < index ==> left@[i] == right@[i],
        decreases left.len() - index,
    {
        if left[index] != right[index] {
            return false;
        }
        index += 1;
    }
    assert(left@ =~= right@);
    true
}

/// Equality of two texts.
pub fn str_equal(left: &str, right: &str) -> (equal: bool)
    ensures
        equal == (left@ == right@),
{
    proof {
        vstd::utf8::encode_utf8_decode_utf8(left@);
        vstd::utf8::encode_utf8_decode_utf8(right@);
    }
    bytes_equal(left.as_bytes(), right.as_bytes())
}

/// Whether an optional owned text holds exactly `expected`.
pub open spec fn holds_text(value: Option<String>, expected: Seq<char>) -> bool {
    match value {
        Some(text) => text@ == expected,
        None => false,
    }
}

pub fn option_holds(value: &Option<String>, expected: &str) -> (holds: bool)
    ensures
        holds == holds_text(*value, expected@),
{
    match value {
        Some(text) => str_equal(text.as_str(), expected),
        None => false,
    }
}

/// Builds an owned string from characters. Calls `FromIterator<char>` for
/// `String` (through `Iterator::collect`); the contract states the documented
/// behaviour: the string holds exactly these characters.
#[verifier::external_body]
pub(crate) fn string_from_chars(chars: &[char]) -> (text: String)
    ensures
        text@ == chars@,
{
    chars.iter().collect()
}

} // verus!

verus! {

/// ASCII lower-casing of one character.
pub open spec fn ascii_lower(c: char) -> char {
    if 'A' <= c <= 'Z' {
        ((c as u32) + 32) as char
    } else {
        c
    }
}

pub open spec fn ascii_lowercase(text: Seq<char>) -> Seq<char> {
    text.map_values(|c: char| ascii_lower(c))
}

pub fn char_ascii_lower(c: char) -> (lower: char)
    ensures
        lower == ascii_lower(c),
{
    if 'A' <= c && c <= 'Z' {
        proof {
            assert(((c as u32) + 32) as char == ((c as u32) + 32) as char);
        }
        ((c as u32 + 32) as u8) as char
    } else {
        c
    }
}

/// `str::eq_ignore_ascii_case`: equal once ASCII letters are lower-cased.
pub fn eq_ignore_ascii_case(left: &str, right: &str) -> (equal: bool)
    ensures
        equal == (ascii_lowercase(left@) == ascii_lowercase(right@)),
{
    let l = chars_of(left);
    let r = chars_of(right);
    if l.len() != r.len() {
        proof {
            assert(ascii_lowercase(left@).len() != ascii_lowercase(right@).len());
        }
        return false;
    }
    let mut index: usize = 0;
    while index < l.len()
        invariant
            l@ == left@,
            r@ == right@,
            l@.len() == r@.len(),
            index <= l@.len(),
            forall|i: int| 0 <= i < index ==> ascii_lower(l@[i]) == ascii_lower(r@[i]),
        decreases l.len() - index,
    {
        if char_ascii_lower(l[index]) != char_ascii_lower(r[index]) {
            proof {
                assert(ascii_lowercase(left@)[index as int] != ascii_lowercase(right@)[index as int]);
            }
            return false;
        }
        index += 1;
    }
    assert(ascii_lowercase(left@) =~= ascii_lowercase(right@));
    true
}

/// Copies `chars[start..end]` into a new vector.
pub fn copy_range(chars: &Vec<char>, start: usize, end: usize) -> (part: Vec<char>)
    requires
        start <= end <= chars@.len(),
    ensures
        part@ == chars@.subrange(start as int, end as int),
{
    let mut part: Vec<char> = Vec::new();
    let mut index = start;
    while index < end
        invariant
            start <= index <= end <= chars@.len(),
            part@ == chars@.subrange(start as int, index as int),
        decreases end - index,
    {
        proof {
            assert(chars@.subrange(start as int, index + 1) =~= chars@.subrange(
                start as int,
                index as int,
            ).push(chars@[index as int]));
        }
        part.push(chars[index]);
        index += 1;
    }
    part
}

} // verus!

verus! {

/// Lexicographic order of texts by code point, which is the order of
/// their UTF-8 bytes.
pub open spec fn text_less(a: Seq<char>, b: Seq<char>) -> bool
    decreases a.len(),
{
    if a.len() == 0 {
        b.len() > 0
    } else if b.len() == 0 {
        false
    } else if a[0] != b[0] {
        (a[0] as u32) < (b[0] as u32)
    } else {
        text_less(a.drop_first(), b.drop_first())
    }
}

/// `text_less` is a strict order: never both ways, and between different
/// texts always one way.
pub proof fn lemma_text_less_strict(a: Seq<char>, b: Seq<char>)
    ensures
        !(text_less(a, b) && text_less(b, a)),
        a != b ==> text_less(a, b) || text_less(b, a),
        !text_less(a, a),
    decreases a.len(),
{
    if a.len() > 0 && b.len() > 0 && a[0] == b[0] {
        lemma_text_less_strict(a.drop_first(), b.drop_first());
        if a != b {
            assert(a.drop_first() != b.drop_first()) by {
                if a.drop_first() == b.drop_first() {
                    assert forall|i: int| 0 <= i < a.len() implies a[i] == b[i] by {
                        if i > 0 {
                            assert(a[i] == a.drop_first()[i - 1]);
                            assert(b[i] == b.drop_first()[i - 1]);
                        }
                    }
                    assert(a =~= b);
                }
            }
        }
    } else if a.len() > 0 && b.len() > 0 {
        vstd::utf8::char_u32_cast(a[0], a[0] as u32);
        vstd::utf8::char_u32_cast(b[0], b[0] as u32);
    } else if a.len() == 0 && b.len() == 0 {
        assert(a =~= b);
    }
    if a.len() > 0 {
        lemma_text_less_strict(a.drop_first(), a.drop_first());
    }
}

proof fn lemma_text_less_skip(a: Seq<char>, b: Seq<char>, i: int)
    requires
        0 <= i < a.len(),
        i < b.len(),
        a[i] == b[i],
    ensures
        text_less(a.skip(i), b.skip(i)) == text_less(a.skip(i + 1), b.skip(i + 1)),
{
    assert(a.skip(i).drop_first() =~= a.skip(i + 1));
    assert(b.skip(i).drop_first() =~= b.skip(i + 1));
}

/// Whether `left` sorts before `right`.
pub fn text_less_than(left: &str, right: &str) -> (less: bool)
    ensures
        less == text_less(left@, right@),
{
    let l = chars_of(left);
    let r = chars_of(right);
    let mut index: usize = 0;
    proof {
        assert(l@.skip(0) =~= l@);
        assert(r@.skip(0) =~= r@);
    }
    while index < l.len() && index < r.len() && l[index] == r[index]
        invariant
            l@ == left@,
            r@ == right@,
            index <= l@.len(),
            index <= r@.len(),
            text_less(left@, right@) == text_less(l@.skip(index as int), r@.skip(index as int)),
        decreases l.len() - index,
    {
        proof {
            lemma_text_less_skip(l@, r@, index as int);
        }
        index += 1;
    }
    if index == l.len() {
        proof {
            assert(l@.skip(index as int).len() == 0);
        }
        index < r.len()
    } else if index == r.len() {
        false
    } else {
        proof {
            assert(l@.skip(index as int)[0] == l@[index as int]);
            assert(r@.skip(index as int)[0] == r@[index as int]);
        }
        (l[index] as u32) < (r[index] as u32)
    }
}

} // verus!

verus! {

pub proof fn lemma_text_less_transitive(a: Seq<char>, b: Seq<char>, c: Seq<char>)
    requires
        text_less(a, b),
        text_less(b, c),
    ensures
        text_less(a, c),
    decreases a.len(),
{
    if a.len() > 0 && b.len() > 0 && c.len() > 0 {
        if a[0] == b[0] && b[0] == c[0] {
            lemma_text_less_transitive(a.drop_first(), b.drop_first(), c.drop_first());
        } else {
            vstd::utf8::char_u32_cast(a[0], a[0] as u32);
            vstd::utf8::char_u32_cast(b[0], b[0] as u32);
            vstd::utf8::char_u32_cast(c[0], c[0] as u32);
        }
    }
}

} // verus!

verus! {

/// The concatenation of two texts.
pub fn concat(left: &str, right: &str) -> (text: String)
    ensures
        text@ == left@ + right@,
{
    let mut chars = chars_of(left);
    let mut tail = chars_of(right);
    chars.append(&mut tail);
    string_from_chars(chars.as_slice())
}

/// Whether `prefix` begins `text`, as `str::starts_with` with a text pattern.
pub fn starts_with(text: &str, prefix: &str) -> (found: bool)
    ensures
        found == prefix@.is_prefix_of(text@),
{
    let t = chars_of(text);
    let p = chars_of(prefix);
    if p.len() > t.len() {
        return false;
    }
    let mut index: usize = 0;
    while index < p.len()
        invariant
            t@ == text@,
            p@ == prefix@,
            p@.len() <= t@.len(),
            index <= p@.len(),
            forall|i: int| 0 <= i < index ==> p@[i] == t@[i],
        decreases p.len() - index,
    {
        if p[index] != t[index] {
            return false;
        }
        index += 1;
    }
    true
}

/// The characters with the Unicode `White_Space` property, which
/// `char::is_whitespace` tests and `str::trim` removes.
pub open spec fn is_unicode_whitespace(c: char) -> bool {
    ||| '\u{9}' <= c <= '\u{d}'
    ||| c == ' '
    ||| c == '\u{85}'
    ||| c == '\u{a0}'
    ||| c == '\u{1680}'
    ||| '\u{2000}' <= c <= '\u{200a}'
    ||| c == '\u{2028}'
    ||| c == '\u{2029}'
    ||| c == '\u{202f}'
    ||| c == '\u{205f}'
    ||| c == '\u{3000}'
}

fn char_is_whitespace(c: char) -> (white: bool)
    ensures
        white == is_unicode_whitespace(c),
{
    ('\u{9}' <= c && c <= '\u{d}') || c == ' ' || c == '\u{85}' || c == '\u{a0}' || c == '\u{1680}'
        || ('\u{2000}' <= c && c <= '\u{200a}') || c == '\u{2028}' || c == '\u{2029}' || c
        == '\u{202f}' || c == '\u{205f}' || c == '\u{3000}'
}

/// `text` without its leading and trailing white space: `text[start..end]`
/// where `start` is the first and `end - 1` the last character that is not
/// white space (an empty text when all are).
pub open spec fn is_trimmed(trimmed: Seq<char>, text: Seq<char>) -> bool {
    exists|start: int, end: int|
        0 <= start <= end <= text.len() && trimmed == text.subrange(start, end) && (forall|i: int|
            0 <= i < start ==> is_unicode_whitespace(#[trigger] text[i])) && (forall|i: int|
            end <= i < text.len() ==> is_unicode_whitespace(#[trigger] text[i])) && (start < end
            ==> !is_unicode_whitespace(text[start]) && !is_unicode_whitespace(text[end - 1]))
}

/// `str::trim`.
pub fn trim(text: &str) -> (trimmed: String)
    ensures
        is_trimmed(trimmed@, text@),
{
    let chars = chars_of(text);
    let mut start: usize = 0;
    while start < chars.len() && char_is_whitespace(chars[start])
        invariant
            chars@ == text@,
            start <= chars@.len(),
            forall|i: int| 0 <= i < start ==> is_unicode_whitespace(#[trigger] chars@[i]),
        decreases chars.len() - start,
    {
        start += 1;
    }
    let mut end: usize = chars.len();
    while end > start && char_is_whitespace(chars[end - 1])
        invariant
            chars@ == text@,
            start <= end <= chars@.len(),
            forall|i: int| end <= i < chars@.len() ==> is_unicode_whitespace(#[trigger] chars@[i]),
        decreases end - start,
    {
        end -= 1;
    }
    let part = copy_range(&chars, start, end);
    proof {
        assert(is_trimmed(part@, text@)) by {
            assert(part@ == text@.subrange(start as int, end as int));
        }
    }
    string_from_chars(part.as_slice())
}

/// Calls `std::str::from_utf8`: the text the bytes encode when they are
/// valid UTF-8, and `None` otherwise, as its documentation states.
#[verifier::external_body]
pub(crate) fn text_from_utf8(bytes: &[u8]) -> (text: Option<String>)
    ensures
        match text {
            Some(t) => vstd::utf8::valid_utf8(bytes@) && t@ == vstd::utf8::decode_utf8(bytes@),
            None => !vstd::utf8::valid_utf8(bytes@),
        },
{
    match std::str::from_utf8(bytes) {
        Ok(text) => Some(text.to_owned()),
        Err(_) => None,
    }
}

} // verus!

verus! {

/// The pieces of a text between occurrences of `separator`, as
/// `str::split` yields them.
pub open spec fn split_on(text: Seq<char>, separator: char) -> Seq<Seq<char>>
    decreases text.len(),
{
    if text.len() == 0 {
        seq![Seq::empty()]
    } else {
        let pieces = split_on(text.drop_last(), separator);
        if text.last() == separator {
            pieces.push(Seq::empty())
        } else {
            pieces.update(pieces.len() - 1, pieces.last().push(text.last()))
        }
    }
}

pub proof fn lemma_split_nonempty(text: Seq<char>, separator: char)
    ensures
        split_on(text, separator).len() >= 1,
    decreases text.len(),
{
    if text.len() > 0 {
        lemma_split_nonempty(text.drop_last(), separator);
    }
}

/// The pieces of a text between occurrences of `separator` (`str::split`).
pub fn split_chars(text: &str, separator: char) -> (pieces: Vec<Vec<char>>)
    ensures
        pieces@.len() == split_on(text@, separator).len(),
        forall|i: int| 0 <= i < pieces@.len() ==> (#[trigger] pieces@[i])@ == split_on(text@, separator)[i],
{
    let chars = chars_of(text);
    let mut pieces: Vec<Vec<char>> = Vec::new();
    pieces.push(Vec::new());
    let mut index: usize = 0;
    proof {
        assert(chars@.take(0) =~= Seq::<char>::empty());
    }
    while index < chars.len()
        invariant
            chars@ == text@,
            index <= chars@.len(),
            pieces@.len() == split_on(chars@.take(index as int), separator).len(),
            pieces@.len() >= 1,
            forall|i: int|
                0 <= i < pieces@.len() ==> (#[trigger] pieces@[i])@ == split_on(
                    chars@.take(index as int),
                    separator,
                )[i],
        decreases chars.len() - index,
    {
        let c = chars[index];
        let ghost before = pieces@;
        proof {
            assert(chars@.take(index + 1).drop_last() =~= chars@.take(index as int));
            assert(chars@.take(index + 1).last() == c);
        }
        if c == separator {
            pieces.push(Vec::new());
            proof {
                assert(pieces@[pieces@.len() - 1]@ =~= Seq::<char>::empty());
            }
        } else {
            let last = pieces.len() - 1;
            let mut piece = pieces.remove(last);
            piece.push(c);
            pieces.push(piece);
            proof {
                assert forall|i: int| 0 <= i < pieces@.len() implies (#[trigger] pieces@[i])@
                    == split_on(chars@.take(index + 1), separator)[i] by {
                    if i < last {
                        assert(pieces@[i] == before[i]);
                    }
                }
            }
        }
        index += 1;
    }
    proof {
        assert(chars@.take(chars@.len() as int) =~= chars@);
    }
    pieces
}

/// A text has one trimmed form.
pub proof fn lemma_trimmed_unique(a: Seq<char>, b: Seq<char>, text: Seq<char>)
    requires
        is_trimmed(a, text),
        is_trimmed(b, text),
    ensures
        a == b,
{
    let (s1, e1) = choose|start: int, end: int|
        0 <= start <= end <= text.len() && a == text.subrange(start, end) && (forall|i: int|
            0 <= i < start ==> is_unicode_whitespace(#[trigger] text[i])) && (forall|i: int|
            end <= i < text.len() ==> is_unicode_whitespace(#[trigger] text[i])) && (start < end
            ==> !is_unicode_whitespace(text[start]) && !is_unicode_whitespace(text[end - 1]));
    let (s2, e2) = choose|start: int, end: int|
        0 <= start <= end <= text.len() && b == text.subrange(start, end) && (forall|i: int|
            0 <= i < start ==> is_unicode_whitespace(#[trigger] text[i])) && (forall|i: int|
            end <= i < text.len() ==> is_unicode_whitespace(#[trigger] text[i])) && (start < end
            ==> !is_unicode_whitespace(text[start]) && !is_unicode_whitespace(text[end - 1]));
    if s1 < e1 && s2 < e2 {
        if s1 < s2 {
            assert(is_unicode_whitespace(text[s1]));
        }
        if s2 < s1 {
            assert(is_unicode_whitespace(text[s2]));
        }
        if e1 < e2 {
            assert(is_unicode_whitespace(text[e2 - 1]));
        }
        if e2 < e1 {
            assert(is_unicode_whitespace(text[e1 - 1]));
        }
    } else if s1 < e1 {
        assert(is_unicode_whitespace(text[s1])) by {
            if s1 < s2 {
            } else {
                assert(e2 <= s2 && s2 <= s1);
            }
        }
    } else if s2 < e2 {
        assert(is_unicode_whitespace(text[s2])) by {
            if s2 < s1 {
            } else {
                assert(e1 <= s1 && s1 <= s2);
            }
        }
    }
    assert(a =~= b);
}

} // verus!
