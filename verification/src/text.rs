//! Text building blocks: the sequences of characters that the renderers are
//! specified over, and the string routines that compute them.

use vstd::prelude::*;
use vstd::string::StrSliceExecFns;
use vstd::string::StringExecFns;
use vstd::string::StringSliceAdditionalSpecFns;
use vstd::utf8::encode_utf8_decode_utf8;

verus! {

/// The parts in order, with `sep` between each two neighbours.
pub open spec fn join(parts: Seq<Seq<char>>, sep: Seq<char>) -> Seq<char>
    decreases parts.len(),
{
    if parts.len() == 0 {
        Seq::empty()
    } else if parts.len() == 1 {
        parts[0]
    } else {
        join(parts.drop_last(), sep) + sep + parts.last()
    }
}

/// Every line in order, each followed by a line feed.
pub open spec fn lines_text(lines: Seq<Seq<char>>) -> Seq<char>
    decreases lines.len(),
{
    if lines.len() == 0 {
        Seq::empty()
    } else {
        lines_text(lines.drop_last()) + lines.last() + "\n"@
    }
}

/// `s` without its first character when that is a space, else `s` itself.
pub open spec fn strip_space(s: Seq<char>) -> Seq<char> {
    if s.len() > 0 && s[0] == ' ' {
        s.subrange(1, s.len() as int)
    } else {
        s
    }
}

/// `s` with a backslash put before every vertical bar.
pub open spec fn escape_pipes(s: Seq<char>) -> Seq<char>
    decreases s.len(),
{
    if s.len() == 0 {
        Seq::empty()
    } else if s.last() == '|' {
        escape_pipes(s.drop_last()) + "\\|"@
    } else {
        escape_pipes(s.drop_last()).push(s.last())
    }
}

/// Two strings hold the same characters exactly when their UTF-8 encodings agree.
pub proof fn lemma_same_bytes_same_chars(a: Seq<char>, b: Seq<char>)
    ensures
        (vstd::utf8::encode_utf8(a) == vstd::utf8::encode_utf8(b)) <==> (a == b),
{
    encode_utf8_decode_utf8(a);
    encode_utf8_decode_utf8(b);
}

/// Whether `a` and `b` hold the same characters.
pub fn str_eq(a: &str, b: &str) -> (r: bool)
    ensures
        r == (a@ == b@),
{
    let x = a.as_bytes();
    let y = b.as_bytes();
    proof {
        lemma_same_bytes_same_chars(a@, b@);
    }
    if x.len() != y.len() {
        return false;
    }
    let mut i: usize = 0;
    while i < x.len()
        invariant
            i <= x.len(),
            x.len() == y.len(),
            x@ == a.spec_bytes(),
            y@ == b.spec_bytes(),
            forall|j: int| 0 <= j < i ==> x@[j] == y@[j],
        decreases x.len() - i,
    {
        if x[i] != y[i] {
            return false;
        }
        i = i + 1;
    }
    assert(x@ =~= y@);
    true
}

/// The strings of `parts` joined by `sep`.
pub fn join_strings(parts: &Vec<String>, sep: &str) -> (r: String)
    ensures
        r@ == join(parts.deep_view(), sep@),
{
    let mut out = String::new();
    let mut i: usize = 0;
    let ghost views = parts.deep_view();
    while i < parts.len()
        invariant
            i <= parts.len(),
            views == parts.deep_view(),
            out@ == join(views.take(i as int), sep@),
        decreases parts.len() - i,
    {
        proof {
            assert(views.take(i as int + 1).drop_last() == views.take(i as int));
        }
        if i > 0 {
            out.append(sep);
        }
        out.append(parts[i].as_str());
        i = i + 1;
    }
    assert(views.take(i as int) == views);
    out
}

/// Every string of `lines` followed by a line feed.
pub fn join_lines(lines: &Vec<String>) -> (r: String)
    ensures
        r@ == lines_text(lines.deep_view()),
{
    let mut out = String::new();
    let mut i: usize = 0;
    let ghost views = lines.deep_view();
    while i < lines.len()
        invariant
            i <= lines.len(),
            views == lines.deep_view(),
            out@ == lines_text(views.take(i as int)),
        decreases lines.len() - i,
    {
        proof {
            assert(views.take(i as int + 1).drop_last() == views.take(i as int));
        }
        out.append(lines[i].as_str());
        out.append("\n");
        i = i + 1;
    }
    assert(views.take(i as int) == views);
    out
}

/// Drops one leading space, if there is one.
pub fn strip_leading_space(s: &str) -> (r: String)
    ensures
        r@ == strip_space(s@),
{
    let n = s.unicode_len();
    if n > 0 && s.get_char(0) == ' ' {
        String::from_str(s.substring_char(1, n))
    } else {
        String::from_str(s)
    }
}

/// Puts a backslash before every vertical bar.
pub fn escape_pipe_chars(s: &str) -> (r: String)
    ensures
        r@ == escape_pipes(s@),
{
    let n = s.unicode_len();
    let mut out = String::new();
    let mut i: usize = 0;
    while i < n
        invariant
            i <= n,
            n == s@.len(),
            out@ == escape_pipes(s@.take(i as int)),
        decreases n - i,
    {
        proof {
            assert(s@.take(i as int + 1).drop_last() == s@.take(i as int));
        }
        if s.get_char(i) == '|' {
            out.append("\\|");
        } else {
            let piece = s.substring_char(i, i + 1);
            out.append(piece);
        }
        i = i + 1;
    }
    assert(s@.take(i as int) == s@);
    out
}

} // verus!
