//! Bounded diagnostic logs: a line is cut at a character boundary to fit,
//! and the log is rotated before it would outgrow its limit.
use vstd::prelude::*;
use vstd::utf8::{encode_utf8, is_char_boundary};

verus! {

broadcast use vstd::string::group_string_axioms;

/// `end` is where a text of `bytes` is cut to fit in `max_bytes`: the whole
/// text when it fits, else the last character boundary at or below the limit.
pub open spec fn is_cut_point(bytes: Seq<u8>, max_bytes: int, end: int) -> bool {
    if bytes.len() <= max_bytes {
        end == bytes.len()
    } else {
        &&& 0 <= end <= max_bytes
        &&& is_char_boundary(bytes, end)
        &&& forall|k: int| end < k <= max_bytes ==> !is_char_boundary(bytes, k)
    }
}

/// The longest prefix of `value` that fits in `max_bytes` bytes without
/// splitting a character.
pub fn truncate_utf8(value: &str, max_bytes: usize) -> (line: String)
    ensures
        exists|end: int|
            is_cut_point(encode_utf8(value@), max_bytes as int, end) && encode_utf8(line@)
                == encode_utf8(value@).subrange(0, end),
{
    let length = value.as_bytes().len();
    if length <= max_bytes {
        let line = value.to_owned();
        proof {
            assert(encode_utf8(value@).subrange(0, length as int) =~= encode_utf8(value@));
            assert(is_cut_point(encode_utf8(value@), max_bytes as int, length as int));
        }
        return line;
    }
    let mut end = max_bytes;
    while end > 0 && !value.is_char_boundary(end)
        invariant
            end <= max_bytes < length,
            length == encode_utf8(value@).len(),
            forall|k: int| end < k <= max_bytes ==> !is_char_boundary(encode_utf8(value@), k),
        decreases end,
    {
        end -= 1;
    }
    proof {
        vstd::utf8::encode_utf8_valid_utf8(value@);
        if end == 0 {
            assert(is_char_boundary(encode_utf8(value@), 0));
        }
    }
    let (head, _) = value.split_at(end);
    let line = head.to_owned();
    proof {
        assert(is_cut_point(encode_utf8(value@), max_bytes as int, end as int));
    }
    line
}

/// Why a line could not be logged.
#[derive(Debug, Clone, Copy, PartialEq, Eq, Structural)]
pub enum LogError {
    ZeroLimit,
}

/// How to append a line to a log: the line as written (without its
/// newline), and whether the log is rotated first.
#[derive(Debug, Clone, PartialEq, Eq)]
pub struct LogAppend {
    pub line: String,
    pub rotate_first: bool,
}

/// Plans the append of a line to a log of `current_size` bytes that may
/// hold `max_bytes`: the line is cut to leave room for its newline, and the
/// log is rotated when the line would not fit after it. Whatever the log
/// held, it holds at most `max_bytes` afterwards.
pub fn plan_log_append(line: &str, max_bytes: u64, current_size: u64) -> (plan: Result<LogAppend, LogError>)
    requires
        max_bytes <= usize::MAX,
    ensures
        max_bytes == 0 ==> plan == Err::<LogAppend, LogError>(LogError::ZeroLimit),
        max_bytes > 0 ==> (plan matches Ok(p) && (exists|end: int|
            is_cut_point(encode_utf8(line@), max_bytes - 1, end) && encode_utf8(p.line@)
                == encode_utf8(line@).subrange(0, end)) && p.rotate_first == (current_size
            + encode_utf8(p.line@).len() + 1 > max_bytes) && (if p.rotate_first {
            0
        } else {
            current_size as int
        }) + encode_utf8(p.line@).len() + 1 <= max_bytes),
{
    if max_bytes == 0 {
        return Err(LogError::ZeroLimit);
    }
    let truncated = truncate_utf8(line, (max_bytes - 1) as usize);
    let incoming = truncated.as_str().as_bytes().len() as u64 + 1;
    proof {
        vstd::utf8::encode_utf8_valid_utf8(line@);
    }
    let rotate_first = if current_size > u64::MAX - incoming {
        true
    } else {
        current_size + incoming > max_bytes
    };
    Ok(LogAppend { line: truncated, rotate_first })
}

} // verus!
