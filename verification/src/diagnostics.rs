//! Classification of the external compiler's standard-error output.
//!
//! After the compiler exits, its captured standard error is split into
//! lines. A line holding the literal marker text `warning:` is a warning
//! and belongs on the build system's warning channel; every other line is a
//! plain diagnostic. Classification returns structured records and leaves
//! presentation to the caller.

use vstd::prelude::*;

verus! {

/// The marker text whose presence makes a diagnostic line a warning.
pub open spec fn warning_marker() -> Seq<char> {
    "warning:"@
}

/// `p` occurs in `s` starting at position `i`.
pub open spec fn matches_at(s: Seq<char>, p: Seq<char>, i: int) -> bool {
    0 <= i && i + p.len() <= s.len() && s.subrange(i, i + p.len() as int) == p
}

/// `p` occurs somewhere in `s`.
pub open spec fn has_substring(s: Seq<char>, p: Seq<char>) -> bool {
    exists|i: int| matches_at(s, p, i)
}

fn match_at(s: &str, p: &str, i: usize, n: usize, m: usize) -> (r: bool)
    requires
        n == s@.len(),
        m == p@.len(),
        i + m <= n,
    ensures
        r == matches_at(s@, p@, i as int),
{
    let mut j: usize = 0;
    while j < m
        invariant
            n == s@.len(),
            m == p@.len(),
            i + m <= n,
            j <= m,
            s@.subrange(i as int, i as int + j as int) == p@.take(j as int),
        decreases m - j,
    {
        let a = s.get_char(i + j);
        let b = p.get_char(j);
        if a != b {
            proof {
                if matches_at(s@, p@, i as int) {
                    assert(s@.subrange(i as int, i as int + m as int)[j as int] == s@[i as int
                        + j as int]);
                    assert(p@.take(m as int) =~= p@);
                }
            }
            return false;
        }
        proof {
            assert(s@.subrange(i as int, i as int + j as int + 1) =~= s@.subrange(
                i as int,
                i as int + j as int,
            ).push(s@[i as int + j as int]));
            assert(p@.take(j as int + 1) =~= p@.take(j as int).push(p@[j as int]));
        }
        j = j + 1;
    }
    proof {
        assert(p@.take(m as int) =~= p@);
    }
    true
}

fn contains_str(s: &str, p: &str) -> (r: bool)
    ensures
        r == has_substring(s@, p@),
{
    let n = s.unicode_len();
    let m = p.unicode_len();
    if m > n {
        proof {
            assert(forall|i: int| !matches_at(s@, p@, i));
        }
        return false;
    }
    let mut i: usize = 0;
    loop
        invariant
            n == s@.len(),
            m == p@.len(),
            m <= n,
            i <= n - m,
            forall|k: int| 0 <= k < i ==> !matches_at(s@, p@, k),
        decreases n - m - i,
    {
        if match_at(s, p, i, n, m) {
            return true;
        }
        if i == n - m {
            proof {
                assert(forall|k: int| k > n - m ==> !matches_at(s@, p@, k));
            }
            return false;
        }
        i = i + 1;
    }
}

/// Decides whether one line of compiler standard error is a warning: it is
/// exactly when the line holds the warning marker text.
pub fn is_warning_line(line: &str) -> (r: bool)
    ensures
        r == has_substring(line@, warning_marker()),
{
    contains_str(line, "warning:")
}

/// A line with one trailing carriage return removed, as the line splitter
/// treats a `\r\n` break like a bare `\n` break.
pub open spec fn strip_cr(line: Seq<char>) -> Seq<char> {
    if line.len() > 0 && line.last() == '\r' {
        line.drop_last()
    } else {
        line
    }
}

/// The lines remaining in `s` when the characters of `cur` have already
/// been read as the beginning of the current line.
pub open spec fn split_lines_rec(s: Seq<char>, cur: Seq<char>) -> Seq<Seq<char>>
    decreases s.len(),
{
    if s.len() == 0 {
        if cur.len() == 0 {
            Seq::empty()
        } else {
            seq![strip_cr(cur)]
        }
    } else if s[0] == '\n' {
        seq![strip_cr(cur)] + split_lines_rec(s.drop_first(), Seq::empty())
    } else {
        split_lines_rec(s.drop_first(), cur.push(s[0]))
    }
}

/// The lines of a text: pieces between newline breaks, each with one
/// trailing carriage return removed, without a final empty piece when the
/// text ends in a newline.
pub open spec fn lines_of(s: Seq<char>) -> Seq<Seq<char>> {
    split_lines_rec(s, Seq::empty())
}

fn strip_cr_exec(line: String) -> (r: String)
    ensures
        r@ == strip_cr(line@),
{
    let n = line.as_str().unicode_len();
    if n > 0 && line.as_str().get_char(n - 1) == '\r' {
        let shorter = line.as_str().substring_char(0, n - 1);
        proof {
            assert(shorter@ =~= line@.drop_last());
        }
        String::from_str(shorter)
    } else {
        line
    }
}

/// Splits captured compiler output into lines, exactly as the classifier
/// consumes them: broken at newlines, `\r\n` treated as one break, and no
/// final empty line when the text ends with a newline.
pub fn split_lines(text: &str) -> (r: Vec<String>)
    ensures
        r.deep_view() == lines_of(text@),
{
    let n = text.unicode_len();
    let mut r: Vec<String> = Vec::new();
    let mut cur = String::new();
    let mut i: usize = 0;
    proof {
        assert(text@.subrange(0, n as int) =~= text@);
        assert(r.deep_view() + split_lines_rec(text@, cur@) =~= lines_of(text@));
    }
    while i < n
        invariant
            n == text@.len(),
            i <= n,
            lines_of(text@) == r.deep_view() + split_lines_rec(
                text@.subrange(i as int, n as int),
                cur@,
            ),
        decreases n - i,
    {
        let ghost rest = text@.subrange(i as int, n as int);
        proof {
            assert(rest[0] == text@[i as int]);
            assert(rest.drop_first() =~= text@.subrange(i as int + 1, n as int));
        }
        let c = text.get_char(i);
        if c == '\n' {
            let ghost dv_before = r.deep_view();
            let ghost cur_before = cur@;
            let finished = strip_cr_exec(cur);
            r.push(finished);
            cur = String::new();
            proof {
                assert(r.deep_view() =~= dv_before.push(strip_cr(cur_before)));
                assert(dv_before.push(strip_cr(cur_before)) + split_lines_rec(
                    rest.drop_first(),
                    cur@,
                ) =~= dv_before + (seq![strip_cr(cur_before)] + split_lines_rec(
                    rest.drop_first(),
                    cur@,
                )));
            }
        } else {
            let ghost cur_before = cur@;
            let piece = text.substring_char(i, i + 1);
            cur.append(piece);
            proof {
                assert(piece@ =~= seq![text@[i as int]]);
                assert(cur@ =~= cur_before.push(rest[0]));
            }
        }
        i = i + 1;
    }
    proof {
        assert(text@.subrange(n as int, n as int) =~= Seq::<char>::empty());
    }
    if cur.as_str().unicode_len() > 0 {
        let ghost dv_before = r.deep_view();
        let ghost cur_final = cur@;
        let finished = strip_cr_exec(cur);
        r.push(finished);
        proof {
            assert(r.deep_view() =~= dv_before.push(strip_cr(cur_final)));
        }
    }
    proof {
        assert(r.deep_view() =~= lines_of(text@));
    }
    r
}

/// One classified line of the compiler's standard error.
pub struct Diagnostic {
    /// The line holds the warning marker and belongs on the warning channel.
    pub warning: bool,
    /// The text of the line, without its line break.
    pub text: String,
}

/// Splits captured standard error into lines and classifies each: a line is
/// a warning exactly when it holds the warning marker text, and every line
/// appears in the result, in order, with its text unchanged.
pub fn classify_stderr(text: &str) -> (r: Vec<Diagnostic>)
    ensures
        r@.len() == lines_of(text@).len(),
        forall|i: int|
            0 <= i < r@.len() ==> (#[trigger] r@[i]).text@ == lines_of(text@)[i] && r@[i].warning
                == has_substring(lines_of(text@)[i], warning_marker()),
{
    let lines = split_lines(text);
    let mut r: Vec<Diagnostic> = Vec::new();
    let mut i: usize = 0;
    while i < lines.len()
        invariant
            lines.deep_view() == lines_of(text@),
            i <= lines.len(),
            r@.len() == i,
            forall|k: int|
                0 <= k < i ==> (#[trigger] r@[k]).text@ == lines_of(text@)[k] && r@[k].warning
                    == has_substring(lines_of(text@)[k], warning_marker()),
        decreases lines.len() - i,
    {
        let line = lines[i].clone();
        let warning = is_warning_line(line.as_str());
        proof {
            assert(lines.deep_view()[i as int] == lines[i as int]@);
        }
        r.push(Diagnostic { warning, text: line });
        i = i + 1;
    }
    proof {
        assert(lines.deep_view().len() == lines@.len());
    }
    r
}

} // verus!
