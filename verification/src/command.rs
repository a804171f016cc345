//! Construction of the external shader compiler's command line.
//!
//! One invocation compiles one source file. The argument list is fixed in
//! shape: the source path, a request for dependency-file generation with the
//! caller-owned dependency path, the output path, the caller's extra flags
//! in their original order, a default target-environment flag appended only
//! when no caller flag already selects one, and last the flags chosen by the
//! build configuration.

use vstd::prelude::*;

verus! {

/// The build configuration selecting the compiler's optimization and
/// debug-info flags: Debug emits debug info and disables optimization,
/// Release enables optimization.
#[derive(Clone, Copy, PartialEq, Eq, Structural, Debug)]
pub enum Configuration {
    Debug,
    Release,
}

/// `s` begins with the characters of `prefix`.
pub open spec fn starts_with(s: Seq<char>, prefix: Seq<char>) -> bool {
    prefix.len() <= s.len() && s.take(prefix.len() as int) == prefix
}

/// The prefix that marks a caller-supplied target-environment flag.
pub open spec fn target_env_marker() -> Seq<char> {
    "--target-env"@
}

/// The target-environment flag injected when the caller supplies none.
pub open spec fn default_target_env_flag() -> Seq<char> {
    "--target-env=vulkan1.3"@
}

/// Some flag in `flags` begins with the target-environment marker.
pub open spec fn has_target_env(flags: Seq<Seq<char>>) -> bool {
    exists|i: int| 0 <= i < flags.len() && starts_with(flags[i], target_env_marker())
}

/// The caller's flags as they appear in the final command: unchanged when
/// one of them already selects a target environment, otherwise with the
/// default target-environment flag appended last.
pub open spec fn flags_with_target_env(flags: Seq<Seq<char>>) -> Seq<Seq<char>> {
    if has_target_env(flags) {
        flags
    } else {
        flags.push(default_target_env_flag())
    }
}

/// The flags contributed by the build configuration.
pub open spec fn configuration_flags(c: Configuration) -> Seq<Seq<char>> {
    match c {
        Configuration::Debug => seq!["-g"@, "-O0"@],
        Configuration::Release => seq!["-O"@],
    }
}

/// The full argument list of one compiler invocation.
pub open spec fn command_args(
    source: Seq<char>,
    dep: Seq<char>,
    out: Seq<char>,
    extra: Seq<Seq<char>>,
    c: Configuration,
) -> Seq<Seq<char>> {
    seq![source, "-MD"@, "-MF"@, dep, "-o"@, out] + flags_with_target_env(extra)
        + configuration_flags(c)
}

/// How many arguments in `args` begin with the target-environment marker.
pub open spec fn count_target_env(args: Seq<Seq<char>>) -> nat
    decreases args.len(),
{
    if args.len() == 0 {
        0
    } else {
        count_target_env(args.drop_last()) + (if starts_with(args.last(), target_env_marker()) {
            1nat
        } else {
            0nat
        })
    }
}

proof fn lemma_count_target_env_append(a: Seq<Seq<char>>, b: Seq<Seq<char>>)
    ensures
        count_target_env(a + b) == count_target_env(a) + count_target_env(b),
    decreases b.len(),
{
    if b.len() == 0 {
        assert(a + b =~= a);
    } else {
        lemma_count_target_env_append(a, b.drop_last());
        assert((a + b).drop_last() =~= a + b.drop_last());
        assert((a + b).last() == b.last());
    }
}

proof fn lemma_has_iff_count(flags: Seq<Seq<char>>)
    ensures
        has_target_env(flags) <==> count_target_env(flags) > 0,
    decreases flags.len(),
{
    if flags.len() == 0 {
        assert(!has_target_env(flags));
    } else {
        lemma_has_iff_count(flags.drop_last());
        if starts_with(flags.last(), target_env_marker()) {
            assert(starts_with(flags[flags.len() - 1], target_env_marker()));
            assert(has_target_env(flags));
        } else {
            if has_target_env(flags.drop_last()) {
                let k = choose|k: int|
                    0 <= k < flags.drop_last().len() && starts_with(
                        flags.drop_last()[k],
                        target_env_marker(),
                    );
                assert(starts_with(flags[k], target_env_marker()));
                assert(has_target_env(flags));
            }
            if has_target_env(flags) {
                let k = choose|k: int|
                    0 <= k < flags.len() && starts_with(flags[k], target_env_marker());
                assert(k < flags.len() - 1);
                assert(starts_with(flags.drop_last()[k], target_env_marker()));
                assert(has_target_env(flags.drop_last()));
            }
        }
    }
}

proof fn lemma_count_of_singleton(flag: Seq<char>)
    ensures
        count_target_env(seq![flag]) == (if starts_with(flag, target_env_marker()) {
            1nat
        } else {
            0nat
        }),
{
    assert(seq![flag].drop_last() =~= Seq::<Seq<char>>::empty());
    assert(seq![flag].last() == flag);
    assert(count_target_env(Seq::<Seq<char>>::empty()) == 0);
}

/// The default target-environment flag itself begins with the marker, and
/// none of the fixed option names does.
proof fn lemma_marker_facts()
    ensures
        starts_with(default_target_env_flag(), target_env_marker()),
        !starts_with("-MD"@, target_env_marker()),
        !starts_with("-MF"@, target_env_marker()),
        !starts_with("-o"@, target_env_marker()),
        !starts_with("-g"@, target_env_marker()),
        !starts_with("-O0"@, target_env_marker()),
        !starts_with("-O"@, target_env_marker()),
{
    reveal_strlit("--target-env");
    reveal_strlit("--target-env=vulkan1.3");
    reveal_strlit("-MD");
    reveal_strlit("-MF");
    reveal_strlit("-o");
    reveal_strlit("-g");
    reveal_strlit("-O0");
    reveal_strlit("-O");
    assert(default_target_env_flag().take(target_env_marker().len() as int)
        =~= target_env_marker());
}

/// The target-environment flag is injected exactly once when wanted: if no
/// caller flag and none of the three paths begins with the marker, the final
/// command holds exactly one argument beginning with it, namely the default
/// flag; if some caller flag already begins with it, the command holds
/// exactly the caller's such flags and no injected one.
pub proof fn lemma_target_env_injection(
    source: Seq<char>,
    dep: Seq<char>,
    out: Seq<char>,
    extra: Seq<Seq<char>>,
    c: Configuration,
)
    requires
        !starts_with(source, target_env_marker()),
        !starts_with(dep, target_env_marker()),
        !starts_with(out, target_env_marker()),
    ensures
        !has_target_env(extra) ==> count_target_env(command_args(source, dep, out, extra, c))
            == 1 && command_args(source, dep, out, extra, c).contains(default_target_env_flag()),
        has_target_env(extra) ==> count_target_env(command_args(source, dep, out, extra, c))
            == count_target_env(extra),
{
    lemma_marker_facts();
    let fixed = seq![source, "-MD"@, "-MF"@, dep, "-o"@, out];
    assert(count_target_env(fixed) == 0) by {
        let f1 = seq![source];
        let f2 = seq![source, "-MD"@];
        let f3 = seq![source, "-MD"@, "-MF"@];
        let f4 = seq![source, "-MD"@, "-MF"@, dep];
        let f5 = seq![source, "-MD"@, "-MF"@, dep, "-o"@];
        lemma_count_of_singleton(source);
        assert(count_target_env(f1) == 0);
        assert(f2.drop_last() =~= f1 && f2.last() == "-MD"@);
        assert(count_target_env(f2) == 0);
        assert(f3.drop_last() =~= f2 && f3.last() == "-MF"@);
        assert(count_target_env(f3) == 0);
        assert(f4.drop_last() =~= f3 && f4.last() == dep);
        assert(count_target_env(f4) == 0);
        assert(f5.drop_last() =~= f4 && f5.last() == "-o"@);
        assert(count_target_env(f5) == 0);
        assert(fixed.drop_last() =~= f5 && fixed.last() == out);
        assert(count_target_env(fixed) == 0);
    }
    assert(count_target_env(configuration_flags(c)) == 0) by {
        match c {
            Configuration::Debug => {
                assert(configuration_flags(c).drop_last() =~= seq!["-g"@]);
                lemma_count_of_singleton("-g"@);
            },
            Configuration::Release => {
                lemma_count_of_singleton("-O"@);
                assert(configuration_flags(c) =~= seq!["-O"@]);
            },
        }
    }
    let middle = flags_with_target_env(extra);
    lemma_count_target_env_append(fixed, middle);
    lemma_count_target_env_append(fixed + middle, configuration_flags(c));
    assert(command_args(source, dep, out, extra, c) == fixed + middle + configuration_flags(c));
    lemma_has_iff_count(extra);
    if !has_target_env(extra) {
        assert(middle == extra.push(default_target_env_flag()));
        assert(middle.drop_last() =~= extra);
        assert(middle.last() == default_target_env_flag());
        assert(count_target_env(middle) == 1);
        let args = command_args(source, dep, out, extra, c);
        assert(args[fixed.len() + extra.len() as int] == default_target_env_flag());
        assert(args.contains(default_target_env_flag()));
    } else {
        assert(middle == extra);
    }
}

/// Debug configuration contributes the debug-info flag and the
/// optimization-disabling flag; Release contributes the
/// optimization-enabling flag; no configuration contributes both
/// optimization settings.
pub proof fn lemma_configuration_flags(c: Configuration)
    ensures
        configuration_flags(c).contains("-g"@) <==> c is Debug,
        configuration_flags(c).contains("-O0"@) <==> c is Debug,
        configuration_flags(c).contains("-O"@) <==> c is Release,
        !(configuration_flags(c).contains("-O"@) && configuration_flags(c).contains("-O0"@)),
{
    reveal_strlit("-g");
    reveal_strlit("-O0");
    reveal_strlit("-O");
    assert("-g"@.len() == 2 && "-O0"@.len() == 3 && "-O"@.len() == 2);
    assert("-g"@[1] == 'g' && "-O"@[1] == 'O');
    match c {
        Configuration::Debug => {
            let fs = configuration_flags(c);
            assert(fs[0] == "-g"@ && fs[1] == "-O0"@);
            assert(fs.contains("-g"@) && fs.contains("-O0"@));
            assert(forall|i: int| 0 <= i < fs.len() ==> fs[i] != "-O"@);
        },
        Configuration::Release => {
            let fs = configuration_flags(c);
            assert(fs[0] == "-O"@);
            assert(fs.contains("-O"@));
            assert(forall|i: int| 0 <= i < fs.len() ==> fs[i] != "-g"@ && fs[i] != "-O0"@);
        },
    }
}

fn str_starts_with(s: &str, prefix: &str) -> (r: bool)
    ensures
        r == starts_with(s@, prefix@),
{
    let n = s.unicode_len();
    let m = prefix.unicode_len();
    if m > n {
        return false;
    }
    let mut j: usize = 0;
    while j < m
        invariant
            n == s@.len(),
            m == prefix@.len(),
            m <= n,
            j <= m,
            s@.take(j as int) == prefix@.take(j as int),
        decreases m - j,
    {
        let a = s.get_char(j);
        let b = prefix.get_char(j);
        if a != b {
            proof {
                assert(s@.take(m as int)[j as int] == s@[j as int]);
                assert(prefix@.take(m as int) =~= prefix@);
            }
            return false;
        }
        proof {
            assert(s@.take(j as int + 1) =~= s@.take(j as int).push(s@[j as int]));
            assert(prefix@.take(j as int + 1) =~= prefix@.take(j as int).push(
                prefix@[j as int],
            ));
        }
        j = j + 1;
    }
    proof {
        assert(prefix@.take(m as int) =~= prefix@);
    }
    true
}

/// Builds the argument list for compiling `source` into `out`, writing
/// dependency information to `dep`, with the caller's extra flags and the
/// configuration's flags. Caller flags keep their order; a default
/// target-environment flag is appended only when no caller flag begins with
/// the target-environment marker.
pub fn build_command_args(
    source: &str,
    dep: &str,
    out: &str,
    extra: &Vec<String>,
    c: Configuration,
) -> (r: Vec<String>)
    ensures
        r.deep_view() == command_args(source@, dep@, out@, extra.deep_view(), c),
{
    let mut r: Vec<String> = Vec::new();
    r.push(String::from_str(source));
    r.push(String::from_str("-MD"));
    r.push(String::from_str("-MF"));
    r.push(String::from_str(dep));
    r.push(String::from_str("-o"));
    r.push(String::from_str(out));
    let ghost fixed: Seq<Seq<char>> = seq![source@, "-MD"@, "-MF"@, dep@, "-o"@, out@];
    assert(r.deep_view() =~= fixed);
    let mut found = false;
    let mut i: usize = 0;
    while i < extra.len()
        invariant
            i <= extra.len(),
            found == has_target_env(extra.deep_view().take(i as int)),
            r.deep_view() =~= fixed + extra.deep_view().take(i as int),
        decreases extra.len() - i,
    {
        let flag = &extra[i];
        let is_te = str_starts_with(flag.as_str(), "--target-env");
        proof {
            let ghost prev = extra.deep_view().take(i as int);
            let ghost next = extra.deep_view().take(i as int + 1);
            assert(next =~= prev.push(extra.deep_view()[i as int]));
            assert(extra.deep_view()[i as int] == extra[i as int]@);
            if is_te {
                assert(starts_with(next[i as int], target_env_marker()));
                assert(has_target_env(next));
            } else if found {
                let k = choose|k: int|
                    0 <= k < prev.len() && starts_with(prev[k], target_env_marker());
                assert(starts_with(next[k], target_env_marker()));
                assert(has_target_env(next));
            } else {
                assert(forall|k: int|
                    0 <= k < next.len() ==> !starts_with(
                        #[trigger] next[k],
                        target_env_marker(),
                    ));
            }
        }
        let ghost dv_before = r.deep_view();
        let cloned = flag.clone();
        assert(cloned@ == extra.deep_view()[i as int]);
        r.push(cloned);
        if is_te {
            found = true;
        }
        proof {
            assert(r.deep_view() =~= dv_before.push(extra.deep_view()[i as int]));
            assert(r.deep_view() =~= fixed + extra.deep_view().take(i as int + 1));
        }
        i = i + 1;
    }
    proof {
        assert(extra.deep_view().take(extra.len() as int) =~= extra.deep_view());
    }
    if !found {
        let ghost dv_extra = r.deep_view();
        let default_flag = String::from_str("--target-env=vulkan1.3");
        assert(default_flag@ == default_target_env_flag());
        r.push(default_flag);
        assert(r.deep_view() =~= dv_extra.push(default_target_env_flag()));
        assert(r.deep_view() =~= fixed + flags_with_target_env(extra.deep_view()));
    } else {
        assert(r.deep_view() =~= fixed + flags_with_target_env(extra.deep_view()));
    }
    match c {
        Configuration::Debug => {
            r.push(String::from_str("-g"));
            r.push(String::from_str("-O0"));
        },
        Configuration::Release => {
            r.push(String::from_str("-O"));
        },
    }
    proof {
        assert(r.deep_view() =~= command_args(source@, dep@, out@, extra.deep_view(), c));
    }
    r
}

} // verus!
