//! The argument rewrite: stripping or ensuring the target flag in the
//! forwarded command line, and the inspection of the two specially-watched
//! flags.

use vstd::prelude::*;

use crate::strings::{starts_with_seq, str_eq, str_starts_with};
use crate::subcommand::Subcommand;

verus! {

/// An argument that names a target in either accepted form: the bare flag
/// (whose value follows as the next argument) or the equals-joined form.
pub open spec fn is_target_argument(a: Seq<char>) -> bool {
    a == "--target"@ || starts_with_seq(a, "--target="@)
}

/// The argument list with every occurrence of the target flag removed, in
/// both forms: a bare `--target` takes its following value argument with it.
pub open spec fn strip_target_args(args: Seq<Seq<char>>) -> Seq<Seq<char>>
    decreases args.len(),
{
    if args.len() == 0 {
        args
    } else if args[0] == "--target"@ {
        if args.len() >= 2 {
            strip_target_args(args.subrange(2, args.len() as int))
        } else {
            Seq::empty()
        }
    } else if starts_with_seq(args[0], "--target="@) {
        strip_target_args(args.subrange(1, args.len() as int))
    } else {
        seq![args[0]] + strip_target_args(args.subrange(1, args.len() as int))
    }
}

/// Whether some argument already begins with the target flag (either form,
/// and anything else spelled with that prefix, exactly as the tool watches
/// for it).
pub open spec fn has_target_flag(args: Seq<Seq<char>>) -> bool {
    exists|i: int| 0 <= i < args.len() && starts_with_seq(args[i], "--target"@)
}

/// The argument list with a target flag made present: untouched when one is
/// already there, else the flag and the triple appended at the end.
pub open spec fn ensure_target_args(args: Seq<Seq<char>>, triple: Seq<char>) -> Seq<Seq<char>> {
    if has_target_flag(args) {
        args
    } else {
        args + seq!["--target"@, triple]
    }
}

/// What the outgoing argument list must be: stripped of target flags when the
/// subcommand refuses one (the workspace-wide metadata query), else with the
/// resolved target made present.
pub open spec fn rewritten_args_spec(
    args: Seq<Seq<char>>,
    subcommand: Option<Subcommand>,
    triple: Seq<char>,
) -> Seq<Seq<char>> {
    let forbids_target = match subcommand {
        Some(s) => s is Metadata,
        None => false,
    };
    if forbids_target {
        strip_target_args(args)
    } else {
        ensure_target_args(args, triple)
    }
}

/// Ensuring a target flag is idempotent: the appended flag itself satisfies
/// the presence test, so a second rewrite returns the list unchanged.
pub proof fn lemma_ensure_target_idempotent(args: Seq<Seq<char>>, triple: Seq<char>)
    ensures
        ensure_target_args(ensure_target_args(args, triple), triple) == ensure_target_args(
            args,
            triple,
        ),
{
    if !has_target_flag(args) {
        let appended = args + seq!["--target"@, triple];
        assert(appended[args.len() as int] == "--target"@);
        assert(starts_with_seq(appended[args.len() as int], "--target"@));
        assert(has_target_flag(appended));
    }
}

/// Stripping leaves a list without target arguments untouched.
pub proof fn lemma_strip_clean(args: Seq<Seq<char>>)
    requires
        forall|i: int| 0 <= i < args.len() ==> !is_target_argument(#[trigger] args[i]),
    ensures
        strip_target_args(args) == args,
    decreases args.len(),
{
    if args.len() > 0 {
        let rest = args.subrange(1, args.len() as int);
        lemma_strip_clean(rest);
        assert(strip_target_args(args) =~= args);
    }
}

/// Stripping removes a space-separated `--target <value>` pair wholly, and
/// the arguments around it stay untouched and in their original order.
pub proof fn lemma_strip_space_form(pre: Seq<Seq<char>>, value: Seq<char>, post: Seq<Seq<char>>)
    requires
        forall|i: int| 0 <= i < pre.len() ==> !is_target_argument(#[trigger] pre[i]),
    ensures
        strip_target_args(pre + seq!["--target"@, value] + post) == pre + strip_target_args(post),
    decreases pre.len(),
{
    let whole = pre + seq!["--target"@, value] + post;
    if pre.len() == 0 {
        assert(whole[0] == "--target"@);
        assert(whole.len() >= 2);
        assert(whole.subrange(2, whole.len() as int) =~= post);
        assert(pre + strip_target_args(post) =~= strip_target_args(post));
    } else {
        assert(!is_target_argument(whole[0]));
        let rest = whole.subrange(1, whole.len() as int);
        let pre1 = pre.subrange(1, pre.len() as int);
        assert(rest =~= pre1 + seq!["--target"@, value] + post);
        lemma_strip_space_form(pre1, value, post);
        assert(strip_target_args(whole) =~= seq![whole[0]] + (pre1 + strip_target_args(post)));
        assert(seq![whole[0]] + (pre1 + strip_target_args(post)) =~= pre + strip_target_args(
            post,
        ));
    }
}

/// Stripping removes an equals-joined target argument wholly, and the
/// arguments around it stay untouched and in their original order.
pub proof fn lemma_strip_eq_form(pre: Seq<Seq<char>>, flag: Seq<char>, post: Seq<Seq<char>>)
    requires
        forall|i: int| 0 <= i < pre.len() ==> !is_target_argument(#[trigger] pre[i]),
        starts_with_seq(flag, "--target="@),
    ensures
        strip_target_args(pre + seq![flag] + post) == pre + strip_target_args(post),
    decreases pre.len(),
{
    let whole = pre + seq![flag] + post;
    if pre.len() == 0 {
        assert(whole[0] == flag);
        assert(flag != "--target"@) by {
            reveal_strlit("--target");
            reveal_strlit("--target=");
            assert(flag.len() >= "--target="@.len());
        }
        assert(whole.subrange(1, whole.len() as int) =~= post);
        assert(pre + strip_target_args(post) =~= strip_target_args(post));
    } else {
        assert(!is_target_argument(whole[0]));
        let rest = whole.subrange(1, whole.len() as int);
        let pre1 = pre.subrange(1, pre.len() as int);
        assert(rest =~= pre1 + seq![flag] + post);
        lemma_strip_eq_form(pre1, flag, post);
        assert(strip_target_args(whole) =~= seq![whole[0]] + (pre1 + strip_target_args(post)));
        assert(seq![whole[0]] + (pre1 + strip_target_args(post)) =~= pre + strip_target_args(
            post,
        ));
    }
}

/// An element-for-element copy of an argument list.
pub fn clone_args(v: &Vec<String>) -> (r: Vec<String>)
    ensures
        r.deep_view() == v.deep_view(),
{
    let mut r: Vec<String> = Vec::new();
    let mut i: usize = 0;
    while i < v.len()
        invariant
            0 <= i <= v@.len(),
            r.deep_view() == v.deep_view().subrange(0, i as int),
        decreases v@.len() - i,
    {
        let ghost prev = r.deep_view();
        r.push(v[i].clone());
        proof {
            assert(r.deep_view() =~= prev.push(v.deep_view()[i as int]));
            assert(prev.push(v.deep_view()[i as int]) =~= v.deep_view().subrange(0, i + 1));
        }
        i = i + 1;
    }
    proof {
        assert(v.deep_view().subrange(0, v@.len() as int) =~= v.deep_view());
    }
    r
}

/// Rewrites the outgoing argument list for the chosen subcommand and resolved
/// target: strips every target flag when the subcommand refuses one, else
/// appends the flag and triple exactly once when none is present, and
/// otherwise returns the list unchanged.
pub fn filter_args(all: &Vec<String>, subcommand: Option<Subcommand>, target_triple: &str) -> (r:
    Vec<String>)
    ensures
        r.deep_view() == rewritten_args_spec(all.deep_view(), subcommand, target_triple@),
{
    let forbids_target = match subcommand {
        Some(s) => matches!(s, Subcommand::Metadata),
        None => false,
    };
    if forbids_target {
        let ghost full = all.deep_view();
        let mut r: Vec<String> = Vec::new();
        let mut i: usize = 0;
        proof {
            assert(full.subrange(0, full.len() as int) =~= full);
            assert(r.deep_view() =~= Seq::<Seq<char>>::empty());
            assert(r.deep_view() + strip_target_args(full) =~= strip_target_args(full));
        }
        while i < all.len()
            invariant
                full == all.deep_view(),
                0 <= i <= full.len(),
                strip_target_args(full) == r.deep_view() + strip_target_args(
                    full.subrange(i as int, full.len() as int),
                ),
            decreases full.len() - i,
        {
            let ghost suffix = full.subrange(i as int, full.len() as int);
            let arg = &all[i];
            if str_eq(arg.as_str(), "--target") {
                proof {
                    assert(suffix[0] == "--target"@);
                }
                if all.len() - i >= 2 {
                    proof {
                        assert(suffix.len() >= 2);
                        assert(suffix.subrange(2, suffix.len() as int) =~= full.subrange(
                            i + 2,
                            full.len() as int,
                        ));
                    }
                    i = i + 2;
                } else {
                    proof {
                        assert(suffix.len() == 1);
                        assert(strip_target_args(suffix) =~= Seq::<Seq<char>>::empty());
                        assert(full.subrange(full.len() as int, full.len() as int)
                            =~= Seq::<Seq<char>>::empty());
                        assert(r.deep_view() + strip_target_args(suffix) =~= r.deep_view()
                            + strip_target_args(
                            full.subrange(full.len() as int, full.len() as int),
                        ));
                    }
                    i = all.len();
                }
            } else if str_starts_with(arg.as_str(), "--target=") {
                proof {
                    assert(suffix[0] != "--target"@) by {
                        reveal_strlit("--target");
                        reveal_strlit("--target=");
                    }
                    assert(suffix.subrange(1, suffix.len() as int) =~= full.subrange(
                        i + 1,
                        full.len() as int,
                    ));
                }
                i = i + 1;
            } else {
                let ghost prev = r.deep_view();
                r.push(arg.clone());
                proof {
                    assert(suffix.subrange(1, suffix.len() as int) =~= full.subrange(
                        i + 1,
                        full.len() as int,
                    ));
                    assert(r.deep_view() =~= prev.push(suffix[0]));
                    assert(prev + (seq![suffix[0]] + strip_target_args(
                        full.subrange(i + 1, full.len() as int),
                    )) =~= r.deep_view() + strip_target_args(
                        full.subrange(i + 1, full.len() as int),
                    ));
                }
                i = i + 1;
            }
        }
        proof {
            assert(full.subrange(full.len() as int, full.len() as int)
                =~= Seq::<Seq<char>>::empty());
            assert(r.deep_view() + strip_target_args(Seq::<Seq<char>>::empty())
                =~= r.deep_view());
        }
        r
    } else {
        let mut present = false;
        let mut i: usize = 0;
        while i < all.len()
            invariant
                0 <= i <= all@.len(),
                present == exists|j: int|
                    0 <= j < i && starts_with_seq(all.deep_view()[j], "--target"@),
            decreases all@.len() - i,
        {
            if str_starts_with(all[i].as_str(), "--target") {
                proof {
                    assert(starts_with_seq(all.deep_view()[i as int], "--target"@));
                }
                present = true;
            }
            i = i + 1;
        }
        if present {
            clone_args(all)
        } else {
            let ghost before = all.deep_view();
            let mut r = clone_args(all);
            r.push("--target".to_owned());
            r.push(target_triple.to_owned());
            proof {
                assert(r.deep_view() =~= before + seq!["--target"@, target_triple@]);
            }
            r
        }
    }
}

/// Whether the version-query flag occurs in the raw argument list.
pub open spec fn wants_version_spec(args: Seq<Seq<char>>) -> bool {
    exists|i: int| 0 <= i < args.len() && (args[i] == "--version"@ || args[i] == "-V"@)
}

pub fn wants_version(args: &Vec<String>) -> (r: bool)
    ensures
        r == wants_version_spec(args.deep_view()),
{
    let mut i: usize = 0;
    while i < args.len()
        invariant
            0 <= i <= args@.len(),
            forall|j: int| 0 <= j < i ==> !(args.deep_view()[j] == "--version"@
                || args.deep_view()[j] == "-V"@),
        decreases args@.len() - i,
    {
        if str_eq(args[i].as_str(), "--version") || str_eq(args[i].as_str(), "-V") {
            proof {
                assert(args.deep_view()[i as int] == "--version"@ || args.deep_view()[i as int]
                    == "-V"@);
            }
            return true;
        }
        i = i + 1;
    }
    false
}

/// Whether a verbosity flag occurs in the raw argument list.
pub open spec fn is_verbose_spec(args: Seq<Seq<char>>) -> bool {
    exists|i: int|
        0 <= i < args.len() && (args[i] == "--verbose"@ || args[i] == "-v"@ || args[i] == "-vv"@)
}

pub fn is_verbose(args: &Vec<String>) -> (r: bool)
    ensures
        r == is_verbose_spec(args.deep_view()),
{
    let mut i: usize = 0;
    while i < args.len()
        invariant
            0 <= i <= args@.len(),
            forall|j: int| 0 <= j < i ==> !(args.deep_view()[j] == "--verbose"@
                || args.deep_view()[j] == "-v"@ || args.deep_view()[j] == "-vv"@),
        decreases args@.len() - i,
    {
        if str_eq(args[i].as_str(), "--verbose") || str_eq(args[i].as_str(), "-v") || str_eq(
            args[i].as_str(),
            "-vv",
        ) {
            proof {
                assert(args.deep_view()[i as int] == "--verbose"@ || args.deep_view()[i as int]
                    == "-v"@ || args.deep_view()[i as int] == "-vv"@);
            }
            return true;
        }
        i = i + 1;
    }
    false
}

} // verus!
