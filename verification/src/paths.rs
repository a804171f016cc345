//! Deterministic computation of the intermediate output path.
//!
//! The artifact for one source file lives in the caller-owned intermediate
//! directory, named after the source file with the shader kind's output
//! extension in place of the source extension: `shaders/demo.vert` with
//! extension `vert.spirv` under directory `build` becomes
//! `build/demo.vert.spirv`. The path is a pure function of source path,
//! directory, and extension; no randomness and no timestamps enter it.

use vstd::prelude::*;

verus! {

/// The index of the last occurrence of `c` in `s`, or -1 when `s` does not
/// contain `c`.
pub open spec fn last_index_of(s: Seq<char>, c: char) -> int
    decreases s.len(),
{
    if s.len() == 0 {
        -1
    } else if s.last() == c {
        s.len() - 1
    } else {
        last_index_of(s.drop_last(), c)
    }
}

proof fn lemma_last_index_bounds(s: Seq<char>, c: char)
    ensures
        -1 <= last_index_of(s, c) < s.len(),
    decreases s.len(),
{
    if s.len() == 0 {
    } else if s.last() == c {
    } else {
        lemma_last_index_bounds(s.drop_last(), c);
    }
}

/// The final component of a path: everything after the last separator, or
/// the whole path when it has no separator.
pub open spec fn file_name_of(path: Seq<char>) -> Seq<char> {
    path.subrange(last_index_of(path, '/') + 1, path.len() as int)
}

/// A file name with its extension removed: everything before the last dot,
/// or the whole name when it has no dot.
pub open spec fn stem_of(name: Seq<char>) -> Seq<char> {
    if last_index_of(name, '.') >= 0 {
        name.take(last_index_of(name, '.'))
    } else {
        name
    }
}

/// The intermediate output path for a source file: the directory, a path
/// separator, the source file's stem, a dot, and the kind's output
/// extension.
pub open spec fn intermediate_output_path(source: Seq<char>, dir: Seq<char>, ext: Seq<char>) -> Seq<
    char,
> {
    dir + seq!['/'] + stem_of(file_name_of(source)) + seq!['.'] + ext
}

/// The intermediate output path is a pure function of its three inputs:
/// any two computations from equal inputs yield the same path.
pub proof fn lemma_output_path_deterministic(
    r1: Seq<char>,
    r2: Seq<char>,
    source: Seq<char>,
    dir: Seq<char>,
    ext: Seq<char>,
)
    requires
        r1 == intermediate_output_path(source, dir, ext),
        r2 == intermediate_output_path(source, dir, ext),
    ensures
        r1 == r2,
{
}

fn last_index_char(s: &str, c: char) -> (r: Option<usize>)
    ensures
        match r {
            Some(i) => last_index_of(s@, c) == i as int,
            None => last_index_of(s@, c) == -1,
        },
{
    let n = s.unicode_len();
    let mut found: Option<usize> = None;
    let mut i: usize = 0;
    while i < n
        invariant
            n == s@.len(),
            i <= n,
            match found {
                Some(j) => last_index_of(s@.take(i as int), c) == j as int,
                None => last_index_of(s@.take(i as int), c) == -1,
            },
        decreases n - i,
    {
        let ch = s.get_char(i);
        proof {
            let prefix = s@.take(i as int + 1);
            assert(prefix.drop_last() =~= s@.take(i as int));
            assert(prefix.last() == s@[i as int]);
        }
        if ch == c {
            found = Some(i);
        }
        i = i + 1;
    }
    proof {
        assert(s@.take(n as int) =~= s@);
    }
    found
}

/// Computes the intermediate output path for one source file. The result is
/// the same on every call with the same inputs; the caller creates the file
/// there as a side effect of running the compiler.
pub fn compute_output_path(source: &str, dir: &str, ext: &str) -> (r: String)
    ensures
        r@ == intermediate_output_path(source@, dir@, ext@),
{
    let n = source.unicode_len();
    let start: usize = match last_index_char(source, '/') {
        Some(i) => {
            proof {
                lemma_last_index_bounds(source@, '/');
            }
            i + 1
        },
        None => 0,
    };
    let name = source.substring_char(start, n);
    assert(name@ == file_name_of(source@));
    let stem = match last_index_char(name, '.') {
        Some(j) => {
            proof {
                lemma_last_index_bounds(name@, '.');
            }
            name.substring_char(0, j)
        },
        None => name,
    };
    assert(stem@ == stem_of(file_name_of(source@)));
    let mut out = String::from_str(dir);
    out.append("/");
    out.append(stem);
    out.append(".");
    out.append(ext);
    proof {
        reveal_strlit("/");
        reveal_strlit(".");
        assert("/"@ =~= seq!['/']);
        assert("."@ =~= seq!['.']);
        assert(out@ =~= intermediate_output_path(source@, dir@, ext@));
    }
    out
}

} // verus!
