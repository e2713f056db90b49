//! Which literal tokens the parser reads. The parser reads the text of a
//! literal byte by byte, by its first bytes as a string, a raw string, a byte
//! string, a byte, a character or a number, and gives up where the text is
//! not what that reader expects. What follows states, reader by reader, the
//! texts on which it does not give up: a text is refused only where the
//! parser would stop. One exception: a number that holds a byte outside
//! ASCII is refused, since which letters may end a number is a table of the
//! parser's own.
//!
//! The forms are stated over the bytes of the text. Bytes that have no name
//! below are written by their code: space 32, `+` 43, `-` 45, `1` 49 to `9`
//! 57, `A` 65, `E` 69, `F` 70, `Z` 90, `a` 97, `b` 98, `e` 101, `f` 102, `l`
//! 108, `n` 110, `o` 111, `r` 114, `s` 115, `t` 116, `u` 117, `x` 120, `z`
//! 122, `{` 123, `}` 125.

use vstd::prelude::*;
use vstd::string::StringSliceAdditionalSpecFns;

verus! {

pub const TAB: u8 = 9;

pub const LINE_FEED: u8 = 10;

pub const CARRIAGE_RETURN: u8 = 13;

pub const QUOTE: u8 = 34;

pub const HASH: u8 = 35;

pub const APOSTROPHE: u8 = 39;

pub const DOT: u8 = 46;

pub const ZERO: u8 = 48;

pub const BACKSLASH: u8 = 92;

pub const UNDERSCORE: u8 = 95;

/// Whether `b` after a backslash is one of the simple escapes: `n`, `r`,
/// `t`, `0`, a backslash, an apostrophe or a quote.
pub open spec fn is_simple_escape(b: u8) -> bool {
    b == 110 || b == 114 || b == 116 || b == ZERO || b == BACKSLASH || b == APOSTROPHE || b
        == QUOTE
}

/// Whether `b` is a decimal digit.
pub open spec fn is_digit(b: u8) -> bool {
    ZERO <= b <= 57
}

/// Whether `b` is a digit of base 16.
pub open spec fn is_hex(b: u8) -> bool {
    is_digit(b) || 65 <= b <= 70 || 97 <= b <= 102
}

/// The value of a digit of base 16.
pub open spec fn hex_value(b: u8) -> int {
    if b <= 57 {
        b - 48
    } else if b <= 70 {
        b - 55
    } else {
        b - 87
    }
}

/// Whether `code` is the code of a character: within range and no surrogate.
pub open spec fn is_char_code(code: int) -> bool {
    0 <= code <= 0x10FFFF && !(0xD800 <= code <= 0xDFFF)
}

/// Where the escape `\u` ends whose digits are read from `i` on, with
/// `digits` digits read so far that write `value`: behind a closing brace
/// that follows one to six digits of base 16, with underscores after the
/// first, which write the code of a character. Where it has no such end, -1.
pub open spec fn unicode_end(b: Seq<u8>, i: int, digits: int, value: int) -> int
    decreases b.len() - i,
{
    if i < 0 || i >= b.len() {
        -1
    } else if is_hex(b[i]) {
        if digits >= 6 {
            -1
        } else {
            unicode_end(b, i + 1, digits + 1, 16 * value + hex_value(b[i]))
        }
    } else if b[i] == UNDERSCORE && digits > 0 {
        unicode_end(b, i + 1, digits, value)
    } else if b[i] == 125 && digits > 0 && is_char_code(value) {
        i + 1
    } else {
        -1
    }
}

/// Where the escape ends that begins with the backslash at `i`, or -1 where
/// the reader gives up on it. The escapes are the simple ones; `x` and two
/// digits of base 16, in text no more than 80; and, in text only, `u` with
/// its digits in braces.
pub open spec fn escape_end(b: Seq<u8>, i: int, text: bool) -> int {
    if i < 0 || i + 1 >= b.len() {
        -1
    } else if is_simple_escape(b[i + 1]) {
        i + 2
    } else if b[i + 1] == 120 {
        if i + 3 < b.len() && is_hex(b[i + 2]) && is_hex(b[i + 3]) && (!text || 16 * hex_value(
            b[i + 2],
        ) + hex_value(b[i + 3]) <= 128) {
            i + 4
        } else {
            -1
        }
    } else if text && b[i + 1] == 117 {
        if i + 2 < b.len() && b[i + 2] == 123 {
            unicode_end(b, i + 3, 0, 0)
        } else {
            -1
        }
    } else {
        -1
    }
}

/// Whether the reader skips the byte after an escaped line end: in text a
/// space, a tab, a line feed or a carriage return; in a byte string any byte
/// that is white space as a character of its own.
pub open spec fn is_blank(b: u8, text: bool) -> bool {
    if text {
        b == 32 || b == TAB || b == LINE_FEED || b == CARRIAGE_RETURN
    } else {
        b == 32 || TAB <= b <= CARRIAGE_RETURN || b == 0x85 || b == 0xA0
    }
}

/// Where the bytes end that the reader skips from `i` on.
pub open spec fn blanks_end(b: Seq<u8>, i: int, text: bool) -> int
    decreases b.len() - i,
{
    if 0 <= i < b.len() && is_blank(b[i], text) {
        blanks_end(b, i + 1, text)
    } else {
        i
    }
}

/// Whether the string that is open at `i` closes: a quote follows, with
/// nothing before it but plain bytes, escapes, escaped line ends, and
/// carriage returns before line feeds.
pub open spec fn cooked_closes(b: Seq<u8>, i: int, text: bool) -> bool
    decreases b.len() - i,
{
    if i < 0 || i >= b.len() {
        false
    } else if b[i] == QUOTE {
        true
    } else if b[i] == BACKSLASH {
        if i + 1 < b.len() && (b[i + 1] == LINE_FEED || b[i + 1] == CARRIAGE_RETURN) {
            i < blanks_end(b, i + 2, text) <= b.len() && cooked_closes(
                b,
                blanks_end(b, i + 2, text),
                text,
            )
        } else {
            i < escape_end(b, i, text) <= b.len() && cooked_closes(
                b,
                escape_end(b, i, text),
                text,
            )
        }
    } else if b[i] == CARRIAGE_RETURN {
        i + 1 < b.len() && b[i + 1] == LINE_FEED && cooked_closes(b, i + 2, text)
    } else {
        cooked_closes(b, i + 1, text)
    }
}

/// How many hash signs stand in a row from `i` on.
pub open spec fn hashes_from(b: Seq<u8>, i: int) -> int
    decreases b.len() - i,
{
    if 0 <= i < b.len() && b[i] == HASH {
        1 + hashes_from(b, i + 1)
    } else {
        0
    }
}

/// Where the last quote stands before `end`, or -1 where none does.
pub open spec fn last_quote(b: Seq<u8>, end: int) -> int
    decreases end,
{
    if end <= 0 || end > b.len() {
        -1
    } else if b[end - 1] == QUOTE {
        end - 1
    } else {
        last_quote(b, end - 1)
    }
}

/// Whether a raw string whose hash signs begin at `start` closes: after the
/// hash signs a quote opens it, and the last quote of the text stands behind
/// that one and has as many hash signs behind it.
pub open spec fn raw_closes(b: Seq<u8>, start: int) -> bool {
    let count = hashes_from(b, start);
    let open = start + count;
    let close = last_quote(b, b.len() as int);
    &&& open < b.len()
    &&& b[open] == QUOTE
    &&& open < close
    &&& close + count < b.len()
    &&& forall|j: int| close < j <= close + count ==> b[j] == HASH
}

/// Whether the text is a byte between apostrophes after `b`: one byte that
/// is no backslash, or one escape.
pub open spec fn byte_closes(b: Seq<u8>) -> bool {
    b.len() >= 3 && if b[2] == BACKSLASH {
        escape_end(b, 2, false) > 0 && escape_end(b, 2, false) < b.len() && b[escape_end(
            b,
            2,
            false,
        )] == APOSTROPHE
    } else {
        b.len() >= 4 && b[3] == APOSTROPHE
    }
}

/// How many bytes the character takes whose encoding begins with `lead`.
pub open spec fn char_width(lead: u8) -> int {
    if lead < 128 {
        1
    } else if lead < 224 {
        2
    } else if lead < 240 {
        3
    } else {
        4
    }
}

/// Whether the text is a character between apostrophes: one character that
/// is no backslash, or one escape.
pub open spec fn char_closes(b: Seq<u8>) -> bool {
    b.len() >= 2 && if b[1] == BACKSLASH {
        escape_end(b, 1, true) > 0 && escape_end(b, 1, true) < b.len() && b[escape_end(b, 1, true)]
            == APOSTROPHE
    } else {
        1 + char_width(b[1]) < b.len() && b[1 + char_width(b[1])] == APOSTROPHE
    }
}

/// Whether `b` is a letter of ASCII or an underscore.
pub open spec fn is_name_start(b: u8) -> bool {
    b == UNDERSCORE || 65 <= b <= 90 || 97 <= b <= 122
}

/// Whether the text from `j` on is a name in ASCII: a letter or an
/// underscore, then letters, digits and underscores.
pub open spec fn is_name_at(b: Seq<u8>, j: int) -> bool {
    &&& 0 <= j < b.len()
    &&& is_name_start(b[j])
    &&& forall|k: int| j < k < b.len() ==> is_name_start(#[trigger] b[k]) || is_digit(b[k])
}

/// Whether the reader of integers, after `e` at `at`, takes the text from
/// `k` on: it does where no exponent follows and what stands from `e` on is
/// a name. `seen` says whether a digit of an exponent was read.
pub open spec fn int_exponent(b: Seq<u8>, k: int, seen: bool, at: int) -> bool
    decreases b.len() - k,
{
    if k < 0 || k >= b.len() {
        !seen && is_name_at(b, at)
    } else if b[k] == UNDERSCORE {
        int_exponent(b, k + 1, seen, at)
    } else if b[k] == 43 || b[k] == 45 {
        false
    } else if is_digit(b[k]) {
        int_exponent(b, k + 1, true, at)
    } else {
        !(seen && is_name_at(b, k)) && is_name_at(b, at)
    }
}

/// Whether the reader of integers takes the text from `i` on as digits of
/// the base 2, 8, 10 or 16 and underscores, with a name or nothing behind.
pub open spec fn int_from(b: Seq<u8>, i: int, base: int) -> bool
    decreases b.len() - i,
{
    if i < 0 || i >= b.len() {
        true
    } else if is_digit(b[i]) {
        b[i] - ZERO < base && int_from(b, i + 1, base)
    } else if base > 10 && is_hex(b[i]) {
        int_from(b, i + 1, base)
    } else if b[i] == UNDERSCORE {
        int_from(b, i + 1, base)
    } else if base == 10 && b[i] == DOT {
        false
    } else if base == 10 && (b[i] == 101 || b[i] == 69) {
        int_exponent(b, i + 1, false, i)
    } else {
        is_name_at(b, i)
    }
}

/// Whether the reader of integers takes the text from `start` on.
pub open spec fn int_closes(b: Seq<u8>, start: int) -> bool {
    if start + 1 < b.len() && b[start] == ZERO && b[start + 1] == 120 {
        int_from(b, start + 2, 16)
    } else if start + 1 < b.len() && b[start] == ZERO && b[start + 1] == 111 {
        int_from(b, start + 2, 8)
    } else if start + 1 < b.len() && b[start] == ZERO && b[start + 1] == 98 {
        int_from(b, start + 2, 2)
    } else {
        start < b.len() && is_digit(b[start]) && int_from(b, start, 10)
    }
}

/// The first byte from `k` on that is no underscore, or 0 where none is.
pub open spec fn next_solid(b: Seq<u8>, k: int) -> u8
    decreases b.len() - k,
{
    if k < 0 || k >= b.len() {
        0
    } else if b[k] == UNDERSCORE {
        next_solid(b, k + 1)
    } else {
        b[k]
    }
}

/// What the reader of floating-point numbers has seen.
pub struct FloatState {
    pub dot: bool,
    pub e: bool,
    pub sign: bool,
    pub exponent: bool,
}

/// Whether the reader of floating-point numbers, where it stops at `r`,
/// takes the text: an exponent, if begun, has a digit, and a name or nothing
/// stands behind.
pub open spec fn float_ends(b: Seq<u8>, r: int, st: FloatState) -> bool {
    !(st.e && !st.exponent) && (r >= b.len() || is_name_at(b, r))
}

/// Whether the reader of floating-point numbers takes the text from `r` on.
pub open spec fn float_from(b: Seq<u8>, r: int, st: FloatState) -> bool
    decreases b.len() - r,
{
    if r < 0 || r >= b.len() {
        float_ends(b, r, st)
    } else if b[r] == UNDERSCORE {
        float_from(b, r + 1, st)
    } else if is_digit(b[r]) {
        float_from(
            b,
            r + 1,
            FloatState { dot: st.dot, e: st.e, sign: st.sign, exponent: st.exponent || st.e },
        )
    } else if b[r] == DOT {
        !st.e && !st.dot && float_from(
            b,
            r + 1,
            FloatState { dot: true, e: st.e, sign: st.sign, exponent: st.exponent },
        )
    } else if b[r] == 101 || b[r] == 69 {
        let next = next_solid(b, r + 1);
        if !(next == 43 || next == 45 || is_digit(next)) {
            float_ends(b, r, st)
        } else if st.e {
            st.exponent && float_ends(b, r, st)
        } else {
            float_from(
                b,
                r + 1,
                FloatState { dot: st.dot, e: true, sign: st.sign, exponent: st.exponent },
            )
        }
    } else if b[r] == 43 || b[r] == 45 {
        !st.sign && !st.exponent && st.e && float_from(
            b,
            r + 1,
            FloatState { dot: st.dot, e: st.e, sign: true, exponent: st.exponent },
        )
    } else {
        float_ends(b, r, st)
    }
}

/// Whether every byte is of ASCII.
pub open spec fn is_ascii_bytes(b: Seq<u8>) -> bool {
    forall|k: int| 0 <= k < b.len() ==> (#[trigger] b[k]) < 128
}

/// Whether the text, which begins with a digit or a minus sign, is a number
/// that the reader of integers or that of floating-point numbers takes.
pub open spec fn number_closes(b: Seq<u8>) -> bool {
    let start: int = if b.len() > 0 && b[0] == 45 {
        1
    } else {
        0
    };
    is_ascii_bytes(b) && (int_closes(b, start) || (start < b.len() && is_digit(b[start])
        && float_from(
        b,
        start,
        FloatState { dot: false, e: false, sign: false, exponent: false },
    )))
}

/// Whether the text is `true` or `false`.
pub open spec fn is_bool_word(b: Seq<u8>) -> bool {
    ||| b.len() == 4 && b[0] == 116 && b[1] == 114 && b[2] == 117 && b[3] == 101
    ||| b.len() == 5 && b[0] == 102 && b[1] == 97 && b[2] == 108 && b[3] == 115 && b[4] == 101
}

/// Whether the bytes are a literal that the parser reads to its end.
pub open spec fn bytes_accepted(b: Seq<u8>) -> bool {
    b.len() > 0 && if b[0] == QUOTE {
        cooked_closes(b, 1, true)
    } else if b[0] == 114 {
        raw_closes(b, 1)
    } else if b[0] == 98 {
        b.len() > 1 && if b[1] == QUOTE {
            cooked_closes(b, 2, false)
        } else if b[1] == 114 {
            raw_closes(b, 2)
        } else if b[1] == APOSTROPHE {
            byte_closes(b)
        } else {
            false
        }
    } else if b[0] == APOSTROPHE {
        char_closes(b)
    } else if is_digit(b[0]) || b[0] == 45 {
        number_closes(b)
    } else {
        is_bool_word(b)
    }
}

/// Whether the text of a literal token, in its UTF-8 encoding, is one that
/// the parser reads to its end.
pub open spec fn literal_accepted(text: Seq<char>) -> bool {
    bytes_accepted(vstd::utf8::encode_utf8(text))
}

fn simple_escape(b: u8) -> (r: bool)
    ensures
        r == is_simple_escape(b),
{
    b == 110 || b == 114 || b == 116 || b == ZERO || b == BACKSLASH || b == APOSTROPHE || b == QUOTE
}

fn digit(b: u8) -> (r: bool)
    ensures
        r == is_digit(b),
{
    ZERO <= b && b <= 57
}

fn hex(b: u8) -> (r: bool)
    ensures
        r == is_hex(b),
{
    (ZERO <= b && b <= 57) || (65 <= b && b <= 70) || (97 <= b && b <= 102)
}

fn hex_digit(b: u8) -> (r: u32)
    requires
        is_hex(b),
    ensures
        r == hex_value(b),
        r < 16,
{
    if b <= 57 {
        (b - 48) as u32
    } else if b <= 70 {
        (b - 55) as u32
    } else {
        (b - 87) as u32
    }
}

/// Where the escape `\u` ends whose digits begin at `start`, or 0.
fn unicode_stop(b: &[u8], start: usize) -> (r: usize)
    requires
        0 < start <= b.len(),
    ensures
        r == 0 <==> unicode_end(b@, start as int, 0, 0) == -1,
        r != 0 ==> r == unicode_end(b@, start as int, 0, 0) && start < r <= b.len(),
{
    let mut i: usize = start;
    let mut digits: usize = 0;
    let mut value: u32 = 0;
    while i < b.len()
        invariant
            start <= i <= b.len(),
            digits <= 6,
            digits == 0 ==> value == 0,
            digits == 1 ==> value < 0x10,
            digits == 2 ==> value < 0x100,
            digits == 3 ==> value < 0x1000,
            digits == 4 ==> value < 0x1_0000,
            digits == 5 ==> value < 0x10_0000,
            digits == 6 ==> value < 0x100_0000,
            unicode_end(b@, start as int, 0, 0) == unicode_end(
                b@,
                i as int,
                digits as int,
                value as int,
            ),
        decreases b.len() - i,
    {
        if hex(b[i]) {
            if digits >= 6 {
                return 0;
            }
            value = value * 16 + hex_digit(b[i]);
            digits = digits + 1;
            i = i + 1;
        } else if b[i] == UNDERSCORE && digits > 0 {
            i = i + 1;
        } else if b[i] == 125 && digits > 0 && value <= 0x10FFFF && !(0xD800 <= value && value
            <= 0xDFFF) {
            return i + 1;
        } else {
            return 0;
        }
    }
    0
}

/// Where the escape ends that begins with the backslash at `i`, or 0.
fn escape_stop(b: &[u8], i: usize, text: bool) -> (r: usize)
    requires
        i < b.len(),
    ensures
        r == 0 <==> escape_end(b@, i as int, text) == -1,
        r != 0 ==> r == escape_end(b@, i as int, text) && i < r <= b.len(),
{
    if b.len() - i <= 1 {
        0
    } else if simple_escape(b[i + 1]) {
        i + 2
    } else if b[i + 1] == 120 {
        if b.len() - i > 3 && hex(b[i + 2]) && hex(b[i + 3]) && (!text || 16 * hex_digit(b[i + 2])
            + hex_digit(b[i + 3]) <= 128) {
            i + 4
        } else {
            0
        }
    } else if text && b[i + 1] == 117 {
        if b.len() - i > 2 && b[i + 2] == 123 {
            unicode_stop(b, i + 3)
        } else {
            0
        }
    } else {
        0
    }
}

fn blank(b: u8, text: bool) -> (r: bool)
    ensures
        r == is_blank(b, text),
{
    if text {
        b == 32 || b == TAB || b == LINE_FEED || b == CARRIAGE_RETURN
    } else {
        b == 32 || (TAB <= b && b <= CARRIAGE_RETURN) || b == 0x85 || b == 0xA0
    }
}

fn blanks_stop(b: &[u8], start: usize, text: bool) -> (r: usize)
    requires
        start <= b.len(),
    ensures
        r == blanks_end(b@, start as int, text),
        start <= r <= b.len(),
{
    let mut i: usize = start;
    while i < b.len() && blank(b[i], text)
        invariant
            start <= i <= b.len(),
            blanks_end(b@, start as int, text) == blanks_end(b@, i as int, text),
        decreases b.len() - i,
    {
        i = i + 1;
    }
    i
}

fn cooked_ok(b: &[u8], start: usize, text: bool) -> (r: bool)
    ensures
        r == cooked_closes(b@, start as int, text),
{
    let mut i: usize = start;
    while i < b.len()
        invariant
            start <= i,
            cooked_closes(b@, start as int, text) == cooked_closes(b@, i as int, text),
        decreases b.len() - i,
    {
        if b[i] == QUOTE {
            return true;
        } else if b[i] == BACKSLASH {
            if b.len() - i > 1 && (b[i + 1] == LINE_FEED || b[i + 1] == CARRIAGE_RETURN) {
                i = blanks_stop(b, i + 2, text);
            } else {
                let end = escape_stop(b, i, text);
                if end == 0 {
                    return false;
                }
                i = end;
            }
        } else if b[i] == CARRIAGE_RETURN {
            if b.len() - i > 1 && b[i + 1] == LINE_FEED {
                i = i + 2;
            } else {
                return false;
            }
        } else {
            i = i + 1;
        }
    }
    false
}

/// Where the last quote stands before `end`, if one does.
fn last_quote_at(b: &[u8]) -> (r: Option<usize>)
    ensures
        match r {
            Some(at) => at == last_quote(b@, b.len() as int) && at < b.len(),
            None => last_quote(b@, b.len() as int) == -1,
        },
{
    let mut end: usize = b.len();
    while end > 0
        invariant
            end <= b.len(),
            last_quote(b@, b.len() as int) == last_quote(b@, end as int),
        decreases end,
    {
        if b[end - 1] == QUOTE {
            return Some(end - 1);
        }
        end = end - 1;
    }
    None
}

fn raw_ok(b: &[u8], start: usize) -> (r: bool)
    ensures
        r == raw_closes(b@, start as int),
{
    let mut open: usize = start;
    while open < b.len() && b[open] == HASH
        invariant
            start <= open,
            hashes_from(b@, start as int) == (open - start) + hashes_from(b@, open as int),
        decreases b.len() - open,
    {
        open = open + 1;
    }
    let count = open - start;
    if open >= b.len() || b[open] != QUOTE {
        return false;
    }
    let close = match last_quote_at(b) {
        Some(at) => at,
        None => {
            return false;
        },
    };
    if close <= open || b.len() - close <= count {
        return false;
    }
    let mut j: usize = close + 1;
    while j <= close + count
        invariant
            close < j <= close + count + 1,
            close + count < b.len(),
            close == last_quote(b@, b.len() as int),
            count == hashes_from(b@, start as int),
            forall|k: int| close < k < j ==> b@[k] == HASH,
        decreases close + count + 1 - j,
    {
        if b[j] != HASH {
            return false;
        }
        j = j + 1;
    }
    true
}

fn byte_ok(b: &[u8]) -> (r: bool)
    ensures
        r == byte_closes(b@),
{
    if b.len() < 3 {
        return false;
    }
    if b[2] == BACKSLASH {
        let end = escape_stop(b, 2, false);
        end != 0 && end < b.len() && b[end] == APOSTROPHE
    } else {
        b.len() >= 4 && b[3] == APOSTROPHE
    }
}

fn char_ok(b: &[u8]) -> (r: bool)
    ensures
        r == char_closes(b@),
{
    if b.len() < 2 {
        return false;
    }
    if b[1] == BACKSLASH {
        let end = escape_stop(b, 1, true);
        end != 0 && end < b.len() && b[end] == APOSTROPHE
    } else {
        let width: usize = if b[1] < 128 {
            1
        } else if b[1] < 224 {
            2
        } else if b[1] < 240 {
            3
        } else {
            4
        };
        b.len() - 1 > width && b[1 + width] == APOSTROPHE
    }
}

fn name_start(b: u8) -> (r: bool)
    ensures
        r == is_name_start(b),
{
    b == UNDERSCORE || (65 <= b && b <= 90) || (97 <= b && b <= 122)
}

fn name_at(b: &[u8], j: usize) -> (r: bool)
    ensures
        r == is_name_at(b@, j as int),
{
    if j >= b.len() || !name_start(b[j]) {
        return false;
    }
    let mut k: usize = j + 1;
    while k < b.len()
        invariant
            j < k <= b.len(),
            forall|m: int| j < m < k ==> is_name_start(#[trigger] b@[m]) || is_digit(b@[m]),
        decreases b.len() - k,
    {
        if !(name_start(b[k]) || digit(b[k])) {
            return false;
        }
        k = k + 1;
    }
    true
}

fn int_exponent_ok(b: &[u8], start: usize, at: usize) -> (r: bool)
    requires
        start <= b.len(),
    ensures
        r == int_exponent(b@, start as int, false, at as int),
{
    let mut k: usize = start;
    let mut seen = false;
    while k < b.len()
        invariant
            start <= k <= b.len(),
            int_exponent(b@, start as int, false, at as int) == int_exponent(
                b@,
                k as int,
                seen,
                at as int,
            ),
        decreases b.len() - k,
    {
        if b[k] == UNDERSCORE {
            k = k + 1;
        } else if b[k] == 43 || b[k] == 45 {
            return false;
        } else if digit(b[k]) {
            seen = true;
            k = k + 1;
        } else {
            return !(seen && name_at(b, k)) && name_at(b, at);
        }
    }
    !seen && name_at(b, at)
}

fn int_from_ok(b: &[u8], start: usize, base: u8) -> (r: bool)
    requires
        start <= b.len(),
        base == 2 || base == 8 || base == 10 || base == 16,
    ensures
        r == int_from(b@, start as int, base as int),
{
    let mut i: usize = start;
    while i < b.len()
        invariant
            start <= i <= b.len(),
            int_from(b@, start as int, base as int) == int_from(b@, i as int, base as int),
        decreases b.len() - i,
    {
        if digit(b[i]) {
            if b[i] - ZERO >= base {
                return false;
            }
            i = i + 1;
        } else if base > 10 && hex(b[i]) {
            i = i + 1;
        } else if b[i] == UNDERSCORE {
            i = i + 1;
        } else if base == 10 && b[i] == DOT {
            return false;
        } else if base == 10 && (b[i] == 101 || b[i] == 69) {
            return int_exponent_ok(b, i + 1, i);
        } else {
            return name_at(b, i);
        }
    }
    true
}

fn int_ok(b: &[u8], start: usize) -> (r: bool)
    requires
        start <= 1,
    ensures
        r == int_closes(b@, start as int),
{
    if b.len() > start + 1 && b[start] == ZERO && b[start + 1] == 120 {
        int_from_ok(b, start + 2, 16)
    } else if b.len() > start + 1 && b[start] == ZERO && b[start + 1] == 111 {
        int_from_ok(b, start + 2, 8)
    } else if b.len() > start + 1 && b[start] == ZERO && b[start + 1] == 98 {
        int_from_ok(b, start + 2, 2)
    } else {
        start < b.len() && digit(b[start]) && int_from_ok(b, start, 10)
    }
}

fn solid_after(b: &[u8], start: usize) -> (r: u8)
    requires
        start <= b.len(),
    ensures
        r == next_solid(b@, start as int),
{
    let mut k: usize = start;
    while k < b.len() && b[k] == UNDERSCORE
        invariant
            start <= k <= b.len(),
            next_solid(b@, start as int) == next_solid(b@, k as int),
        decreases b.len() - k,
    {
        k = k + 1;
    }
    if k < b.len() {
        b[k]
    } else {
        0
    }
}

fn float_ends_ok(b: &[u8], r: usize, st: &FloatState) -> (ok: bool)
    ensures
        ok == float_ends(b@, r as int, *st),
{
    !(st.e && !st.exponent) && (r >= b.len() || name_at(b, r))
}

fn float_ok(b: &[u8], start: usize) -> (r: bool)
    requires
        start <= b.len(),
    ensures
        r == float_from(
            b@,
            start as int,
            FloatState { dot: false, e: false, sign: false, exponent: false },
        ),
{
    let mut i: usize = start;
    let mut st = FloatState { dot: false, e: false, sign: false, exponent: false };
    while i < b.len()
        invariant
            start <= i <= b.len(),
            float_from(
                b@,
                start as int,
                FloatState { dot: false, e: false, sign: false, exponent: false },
            ) == float_from(b@, i as int, st),
        decreases b.len() - i,
    {
        if b[i] == UNDERSCORE {
            i = i + 1;
        } else if digit(b[i]) {
            st = FloatState { dot: st.dot, e: st.e, sign: st.sign, exponent: st.exponent || st.e };
            i = i + 1;
        } else if b[i] == DOT {
            if st.e || st.dot {
                return false;
            }
            st = FloatState { dot: true, e: st.e, sign: st.sign, exponent: st.exponent };
            i = i + 1;
        } else if b[i] == 101 || b[i] == 69 {
            let next = solid_after(b, i + 1);
            if !(next == 43 || next == 45 || digit(next)) {
                return float_ends_ok(b, i, &st);
            } else if st.e {
                return st.exponent && float_ends_ok(b, i, &st);
            }
            st = FloatState { dot: st.dot, e: true, sign: st.sign, exponent: st.exponent };
            i = i + 1;
        } else if b[i] == 43 || b[i] == 45 {
            if st.sign || st.exponent || !st.e {
                return false;
            }
            st = FloatState { dot: st.dot, e: st.e, sign: true, exponent: st.exponent };
            i = i + 1;
        } else {
            return float_ends_ok(b, i, &st);
        }
    }
    float_ends_ok(b, i, &st)
}

fn ascii_bytes(b: &[u8]) -> (r: bool)
    ensures
        r == is_ascii_bytes(b@),
{
    let mut k: usize = 0;
    while k < b.len()
        invariant
            k <= b.len(),
            forall|m: int| 0 <= m < k ==> (#[trigger] b@[m]) < 128,
        decreases b.len() - k,
    {
        if b[k] >= 128 {
            return false;
        }
        k = k + 1;
    }
    true
}

fn number_ok(b: &[u8]) -> (r: bool)
    ensures
        r == number_closes(b@),
{
    let start: usize = if b.len() > 0 && b[0] == 45 {
        1
    } else {
        0
    };
    ascii_bytes(b) && (int_ok(b, start) || (start < b.len() && digit(b[start]) && float_ok(
        b,
        start,
    )))
}

fn bool_word(b: &[u8]) -> (r: bool)
    ensures
        r == is_bool_word(b@),
{
    (b.len() == 4 && b[0] == 116 && b[1] == 114 && b[2] == 117 && b[3] == 101) || (b.len() == 5
        && b[0] == 102 && b[1] == 97 && b[2] == 108 && b[3] == 115 && b[4] == 101)
}

/// Whether the bytes are a literal that the parser reads to its end.
pub fn bytes_ok(b: &[u8]) -> (r: bool)
    ensures
        r == bytes_accepted(b@),
{
    if b.len() == 0 {
        false
    } else if b[0] == QUOTE {
        cooked_ok(b, 1, true)
    } else if b[0] == 114 {
        raw_ok(b, 1)
    } else if b[0] == 98 {
        if b.len() <= 1 {
            false
        } else if b[1] == QUOTE {
            cooked_ok(b, 2, false)
        } else if b[1] == 114 {
            raw_ok(b, 2)
        } else if b[1] == APOSTROPHE {
            byte_ok(b)
        } else {
            false
        }
    } else if b[0] == APOSTROPHE {
        char_ok(b)
    } else if digit(b[0]) || b[0] == 45 {
        number_ok(b)
    } else {
        bool_word(b)
    }
}

/// Whether the text of a literal token is one that the parser reads to its end.
pub fn literal_ok(text: &str) -> (r: bool)
    ensures
        r == literal_accepted(text@),
{
    bytes_ok(text.as_bytes())
}

} // verus!
