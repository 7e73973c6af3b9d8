//! Scope-flag handling: spotting the global-store flag among the CLI
//! tokens, and stripping it from the caller arguments before binding.

use vstd::prelude::*;

use crate::str_eq;

verus! {

/// True of the tokens that select the global store.
pub open spec fn spec_is_global_flag(s: Seq<char>) -> bool {
    s == "--global"@ || s == "-g"@
}

pub fn is_global_flag(arg: &str) -> (r: bool)
    ensures
        r == spec_is_global_flag(arg@),
{
    str_eq(arg, "--global") || str_eq(arg, "-g")
}

/// Whether any token anywhere in the argument list selects the global
/// store.
pub open spec fn spec_has_global_flag(args: Seq<Seq<char>>) -> bool {
    exists|i: int| 0 <= i < args.len() && spec_is_global_flag(#[trigger] args[i])
}

pub fn has_global_flag(args: &Vec<String>) -> (r: bool)
    ensures
        r == spec_has_global_flag(args.deep_view()),
{
    let ghost av: Seq<Seq<char>> = args.deep_view();
    let n = args.len();
    let mut i: usize = 0;
    while i < n
        invariant
            av == args.deep_view(),
            n == av.len(),
            i <= n,
            forall|j: int| 0 <= j < i ==> !spec_is_global_flag(#[trigger] av[j]),
        decreases n - i,
    {
        if is_global_flag(args[i].as_str()) {
            proof {
                assert(spec_is_global_flag(av[i as int]));
            }
            return true;
        }
        i = i + 1;
    }
    false
}

/// The argument list with every scope-flag token removed, order otherwise
/// kept: the flag selects a store, it is never a placeholder argument.
pub open spec fn spec_strip_global_flags(args: Seq<Seq<char>>) -> Seq<Seq<char>>
    decreases args.len(),
{
    if args.len() == 0 {
        Seq::empty()
    } else if spec_is_global_flag(args[0]) {
        spec_strip_global_flags(args.skip(1))
    } else {
        seq![args[0]] + spec_strip_global_flags(args.skip(1))
    }
}

pub fn strip_global_flags(args: &Vec<String>) -> (r: Vec<String>)
    ensures
        r.deep_view() == spec_strip_global_flags(args.deep_view()),
{
    let ghost av: Seq<Seq<char>> = args.deep_view();
    let n = args.len();
    let mut out: Vec<String> = Vec::new();
    let mut i: usize = 0;
    proof {
        assert(av.skip(0) =~= av);
        assert(out.deep_view() + spec_strip_global_flags(av) =~= spec_strip_global_flags(av));
    }
    while i < n
        invariant
            av == args.deep_view(),
            n == av.len(),
            i <= n,
            out.deep_view() + spec_strip_global_flags(av.skip(i as int))
                == spec_strip_global_flags(av),
        decreases n - i,
    {
        let ghost dv0: Seq<Seq<char>> = out.deep_view();
        proof {
            assert(av.skip(i as int)[0] == av[i as int]);
            assert(av.skip(i as int).skip(1) =~= av.skip(i + 1));
        }
        let a: &String = &args[i];
        if !is_global_flag(a.as_str()) {
            let ac: String = a.clone();
            proof {
                assert(ac@ == av[i as int]);
            }
            out.push(ac);
            proof {
                assert(out.deep_view() =~~= dv0 + seq![av[i as int]]);
                assert((dv0 + seq![av[i as int]]) + spec_strip_global_flags(av.skip(i + 1))
                    =~= dv0 + (seq![av[i as int]] + spec_strip_global_flags(av.skip(i + 1))));
            }
        }
        i = i + 1;
    }
    proof {
        assert(av.skip(i as int).len() == 0);
        assert(out.deep_view() + spec_strip_global_flags(av.skip(i as int)) =~= out.deep_view());
    }
    out
}

} // verus!
