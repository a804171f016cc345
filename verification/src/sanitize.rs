//! Repair of dependency files emitted by the external shader compiler.
//!
//! The compiler writes make-rule-style dependency files in which a single
//! backslash is an escape marker, yet on some platforms it emits un-escaped
//! backslashes inside literal path text. The sanitizer doubles every
//! backslash so downstream tooling can parse the file. The substitution is
//! deliberately unconditional, so applying it twice doubles the backslashes
//! again: the operation is not idempotent.

use vstd::prelude::*;

verus! {

/// What one character of the dependency text becomes after sanitization:
/// a backslash turns into two, everything else is kept as it is.
pub open spec fn escape_char(c: char) -> Seq<char> {
    if c == '\\' {
        seq!['\\', '\\']
    } else {
        seq![c]
    }
}

/// The sanitized form of a dependency text: every backslash doubled,
/// all other characters unchanged and in their original order.
pub open spec fn escaped(s: Seq<char>) -> Seq<char>
    decreases s.len(),
{
    if s.len() == 0 {
        Seq::empty()
    } else {
        escaped(s.drop_last()) + escape_char(s.last())
    }
}

/// How many times the character `c` occurs in `s`.
pub open spec fn count_char(s: Seq<char>, c: char) -> nat
    decreases s.len(),
{
    if s.len() == 0 {
        0
    } else {
        count_char(s.drop_last(), c) + (if s.last() == c {
            1nat
        } else {
            0nat
        })
    }
}

proof fn lemma_count_char_append(a: Seq<char>, b: Seq<char>, c: char)
    ensures
        count_char(a + b, c) == count_char(a, c) + count_char(b, c),
    decreases b.len(),
{
    if b.len() == 0 {
        assert(a + b =~= a);
    } else {
        lemma_count_char_append(a, b.drop_last(), c);
        assert((a + b).drop_last() =~= a + b.drop_last());
        assert((a + b).last() == b.last());
    }
}

proof fn lemma_escape_char_count(c: char)
    ensures
        count_char(escape_char(c), '\\') == (if c == '\\' {
            2nat
        } else {
            0nat
        }),
        escape_char(c).len() == (if c == '\\' {
            2int
        } else {
            1int
        }),
{
    if c == '\\' {
        let two = escape_char(c);
        assert(two.drop_last() =~= seq!['\\']);
        assert(seq!['\\'].drop_last() =~= Seq::<char>::empty());
        assert(count_char(Seq::<char>::empty(), '\\') == 0);
        assert(count_char(seq!['\\'], '\\') == 1);
        assert(count_char(two, '\\') == 2);
    } else {
        let one = escape_char(c);
        assert(one.drop_last() =~= Seq::<char>::empty());
        assert(one.last() == c);
        assert(count_char(Seq::<char>::empty(), '\\') == 0);
        assert(count_char(one, '\\') == 0);
    }
}

/// Sanitization doubles the backslash count and lengthens the text by
/// exactly the number of backslashes it held.
pub proof fn lemma_escaped_count(s: Seq<char>)
    ensures
        count_char(escaped(s), '\\') == 2 * count_char(s, '\\'),
        escaped(s).len() == s.len() + count_char(s, '\\'),
    decreases s.len(),
{
    if s.len() == 0 {
    } else {
        lemma_escaped_count(s.drop_last());
        lemma_count_char_append(escaped(s.drop_last()), escape_char(s.last()), '\\');
        lemma_escape_char_count(s.last());
    }
}

/// A text without backslashes is left byte-for-byte unchanged.
pub proof fn lemma_escaped_identity(s: Seq<char>)
    requires
        count_char(s, '\\') == 0,
    ensures
        escaped(s) == s,
    decreases s.len(),
{
    if s.len() == 0 {
        assert(escaped(s) =~= s);
    } else {
        lemma_escaped_identity(s.drop_last());
        assert(escaped(s) =~= s);
    }
}

/// A dependency text holding n backslashes sanitizes to one holding exactly
/// 2n; sanitizing the result again yields 4n, so for any text with at least
/// one backslash the operation is not idempotent.
pub proof fn lemma_sanitize_not_idempotent(s: Seq<char>)
    ensures
        count_char(escaped(s), '\\') == 2 * count_char(s, '\\'),
        count_char(escaped(escaped(s)), '\\') == 4 * count_char(s, '\\'),
        count_char(s, '\\') > 0 ==> escaped(escaped(s)) != escaped(s),
{
    lemma_escaped_count(s);
    lemma_escaped_count(escaped(s));
    if count_char(s, '\\') > 0 {
        assert(escaped(escaped(s)).len() != escaped(s).len());
    }
}

/// Rewrites dependency-file text so that every backslash is doubled and
/// nothing else changes. The caller reads the file before this call and
/// writes the result back in place of the old content.
pub fn sanitize_dependency_text(input: &str) -> (out: String)
    ensures
        out@ == escaped(input@),
{
    let n = input.unicode_len();
    let mut out = String::new();
    let mut i: usize = 0;
    while i < n
        invariant
            n == input@.len(),
            i <= n,
            out@ == escaped(input@.take(i as int)),
        decreases n - i,
    {
        let piece = input.substring_char(i, i + 1);
        out.append(piece);
        let c = input.get_char(i);
        if c == '\\' {
            out.append("\\");
        }
        proof {
            reveal_strlit("\\");
            let prefix = input@.take(i as int + 1);
            assert(prefix.drop_last() =~= input@.take(i as int));
            assert(prefix.last() == input@[i as int]);
            assert(piece@ =~= seq![input@[i as int]]);
            assert(out@ =~= escaped(input@.take(i as int)) + escape_char(prefix.last()));
        }
        i = i + 1;
    }
    proof {
        assert(input@.take(n as int) =~= input@);
    }
    out
}

} // verus!
