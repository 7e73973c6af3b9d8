//! Placeholder counting and positional substitution.
//!
//! A template is a command string that may contain the two-character
//! placeholder token `{}`. Occurrences are counted non-overlapping,
//! scanning left to right; substitution replaces the occurrences one-for-one
//! with the caller's arguments, in order, in a single pass over the template
//! (text introduced by an argument is never rescanned).

use vstd::prelude::*;

use crate::ArgCountError;

verus! {

/// Number of non-overlapping placeholder occurrences in `t`, leftmost first.
pub open spec fn spec_placeholder_count(t: Seq<char>) -> nat
    decreases t.len(),
{
    if t.len() < 2 {
        0
    } else if t[0] == '{' && t[1] == '}' {
        1 + spec_placeholder_count(t.skip(2))
    } else {
        spec_placeholder_count(t.skip(1))
    }
}

/// Result of substituting `args`, in order, for the placeholder occurrences
/// of `t`, left to right in a single pass. Occurrences beyond the last
/// argument stay as they are; arguments beyond the last occurrence are
/// ignored.
pub open spec fn spec_substitute(t: Seq<char>, args: Seq<Seq<char>>) -> Seq<char>
    decreases t.len(),
{
    if t.len() < 2 {
        t
    } else if t[0] == '{' && t[1] == '}' {
        if args.len() > 0 {
            args[0] + spec_substitute(t.skip(2), args.skip(1))
        } else {
            seq!['{', '}'] + spec_substitute(t.skip(2), args)
        }
    } else {
        seq![t[0]] + spec_substitute(t.skip(1), args)
    }
}

/// Counts the placeholder occurrences in `template`.
pub fn count_placeholders(template: &str) -> (r: usize)
    ensures
        r == spec_placeholder_count(template@),
{
    let n = template.unicode_len();
    let mut i: usize = 0;
    let mut count: usize = 0;
    proof {
        assert(template@.skip(0) =~= template@);
    }
    while i < n
        invariant
            n == template@.len(),
            i <= n,
            2 * count <= i,
            count + spec_placeholder_count(template@.skip(i as int))
                == spec_placeholder_count(template@),
        decreases n - i,
    {
        if i + 1 < n && template.get_char(i) == '{' && template.get_char(i + 1) == '}' {
            proof {
                assert(template@.skip(i as int).skip(2) =~= template@.skip(i + 2));
            }
            count = count + 1;
            i = i + 2;
        } else {
            proof {
                assert(template@.skip(i as int).skip(1) =~= template@.skip(i + 1));
                if i + 1 == n {
                    assert(template@.skip(i + 1).len() == 0);
                }
            }
            i = i + 1;
        }
    }
    count
}

/// Substitutes `args` for the placeholders of `template`, left to right in
/// a single pass, and returns the resulting command line.
pub fn substitute_all(template: &str, args: &Vec<String>) -> (r: String)
    ensures
        r@ == spec_substitute(template@, args.deep_view()),
{
    let ghost argsv: Seq<Seq<char>> = args.deep_view();
    let n = template.unicode_len();
    let mut out = String::new();
    let mut i: usize = 0;
    let mut arg_idx: usize = 0;
    proof {
        assert(template@.skip(0) =~= template@);
        assert(argsv.skip(0) =~= argsv);
        assert(out@ + spec_substitute(template@, argsv) =~= spec_substitute(template@, argsv));
    }
    while i < n
        invariant
            n == template@.len(),
            i <= n,
            arg_idx <= args@.len(),
            argsv == args.deep_view(),
            out@ + spec_substitute(template@.skip(i as int), argsv.skip(arg_idx as int))
                == spec_substitute(template@, argsv),
        decreases n - i,
    {
        let ghost out0: Seq<char> = out@;
        let ghost rest: Seq<char> = spec_substitute(
            template@.skip(i as int),
            argsv.skip(arg_idx as int),
        );
        if i + 1 < n && template.get_char(i) == '{' && template.get_char(i + 1) == '}' {
            proof {
                assert(template@.skip(i as int)[0] == '{');
                assert(template@.skip(i as int)[1] == '}');
                assert(template@.skip(i as int).skip(2) =~= template@.skip(i + 2));
            }
            if arg_idx < args.len() {
                let a: &String = &args[arg_idx];
                out.append(a.as_str());
                proof {
                    assert(argsv.skip(arg_idx as int).skip(1) =~= argsv.skip(arg_idx + 1));
                    assert(argsv.skip(arg_idx as int)[0] == argsv[arg_idx as int]);
                    assert(rest == a@ + spec_substitute(
                        template@.skip(i + 2),
                        argsv.skip(arg_idx + 1),
                    ));
                    assert(out@ + spec_substitute(template@.skip(i + 2), argsv.skip(arg_idx + 1))
                        =~= out0 + rest);
                }
                arg_idx = arg_idx + 1;
            } else {
                out.append("{}");
                proof {
                    reveal_strlit("{}");
                    assert("{}"@ =~= seq!['{', '}']);
                    assert(rest == seq!['{', '}'] + spec_substitute(
                        template@.skip(i + 2),
                        argsv.skip(arg_idx as int),
                    ));
                    assert(out@ + spec_substitute(template@.skip(i + 2), argsv.skip(arg_idx as int))
                        =~= out0 + rest);
                }
            }
            i = i + 2;
        } else {
            let piece: &str = template.substring_char(i, i + 1);
            out.append(piece);
            proof {
                assert(piece@ =~= seq![template@[i as int]]);
                if i + 1 < n {
                    assert(template@.skip(i as int).skip(1) =~= template@.skip(i + 1));
                    assert(rest == seq![template@[i as int]] + spec_substitute(
                        template@.skip(i + 1),
                        argsv.skip(arg_idx as int),
                    ));
                } else {
                    assert(template@.skip(i as int) =~= seq![template@[i as int]]);
                    assert(template@.skip(i + 1).len() == 0);
                    assert(rest =~= seq![template@[i as int]] + spec_substitute(
                        template@.skip(i + 1),
                        argsv.skip(arg_idx as int),
                    ));
                }
                assert(out@ + spec_substitute(template@.skip(i + 1), argsv.skip(arg_idx as int))
                    =~= out0 + rest);
            }
            i = i + 1;
        }
    }
    proof {
        assert(template@.skip(i as int).len() == 0);
        assert(out@ + spec_substitute(template@.skip(i as int), argsv.skip(arg_idx as int))
            =~= out@);
    }
    out
}

/// Substitutes `args` into `template` after checking that the argument
/// count matches the template's own placeholder count exactly (a template
/// without placeholders accepts, and ignores, any arguments). On a
/// mismatch the error names the count this template requires.
pub fn substitute(template: &str, args: &Vec<String>) -> (r: Result<String, ArgCountError>)
    ensures
        ({
            let c = spec_placeholder_count(template@);
            match r {
                Ok(s) => (c == 0 || c == args.deep_view().len()) && s@ == spec_substitute(
                    template@,
                    args.deep_view(),
                ),
                Err(e) => c > 0 && c != args.deep_view().len() && e.required == c,
            }
        }),
{
    let c = count_placeholders(template);
    if c > 0 && c != args.len() {
        return Err(ArgCountError { required: c });
    }
    Ok(substitute_all(template, args))
}

/// No brace character occurs in `s` at all.
pub open spec fn spec_brace_free(s: Seq<char>) -> bool {
    forall|i: int| 0 <= i < s.len() ==> s[i] != '{' && s[i] != '}'
}

/// Every brace in the template belongs to a placeholder occurrence: no
/// stray `{` or `}` that could combine with substituted text into a new
/// placeholder token.
pub open spec fn spec_template_braces_wf(t: Seq<char>) -> bool
    decreases t.len(),
{
    if t.len() == 0 {
        true
    } else if t.len() >= 2 && t[0] == '{' && t[1] == '}' {
        spec_template_braces_wf(t.skip(2))
    } else {
        t[0] != '{' && t[0] != '}' && spec_template_braces_wf(t.skip(1))
    }
}

proof fn lemma_brace_free_concat(a: Seq<char>, b: Seq<char>)
    requires
        spec_brace_free(a),
        spec_brace_free(b),
    ensures
        spec_brace_free(a + b),
{
    assert forall|i: int| 0 <= i < (a + b).len() implies (a + b)[i] != '{' && (a + b)[i]
        != '}' by {
        if i < a.len() {
            assert((a + b)[i] == a[i]);
        } else {
            assert((a + b)[i] == b[i - a.len()]);
        }
    }
}

proof fn lemma_substitute_brace_free(t: Seq<char>, args: Seq<Seq<char>>)
    requires
        spec_template_braces_wf(t),
        forall|k: int| 0 <= k < args.len() ==> spec_brace_free(#[trigger] args[k]),
        spec_placeholder_count(t) == args.len(),
    ensures
        spec_brace_free(spec_substitute(t, args)),
    decreases t.len(),
{
    if t.len() == 0 {
    } else if t.len() >= 2 && t[0] == '{' && t[1] == '}' {
        assert(args.len() > 0);
        lemma_substitute_brace_free(t.skip(2), args.skip(1));
        lemma_brace_free_concat(args[0], spec_substitute(t.skip(2), args.skip(1)));
    } else if t.len() == 1 {
        assert(spec_brace_free(t));
    } else {
        assert(spec_placeholder_count(t) == spec_placeholder_count(t.skip(1)));
        lemma_substitute_brace_free(t.skip(1), args);
        lemma_brace_free_concat(seq![t[0]], spec_substitute(t.skip(1), args));
    }
}

proof fn lemma_brace_free_no_placeholder(s: Seq<char>)
    requires
        spec_brace_free(s),
    ensures
        spec_placeholder_count(s) == 0,
    decreases s.len(),
{
    if s.len() >= 2 {
        lemma_brace_free_no_placeholder(s.skip(1));
    }
}

/// Substitution is positional and exhaustive: a template whose braces all
/// belong to its placeholders, substituted with exactly as many arguments
/// as it has placeholders, none of which contains a brace, yields a
/// command line with no placeholder token left. (An argument that itself
/// contains a brace, or a stray brace in the template — as in `{{}}` with
/// an empty argument — can recreate the token, so those inputs are
/// excluded.)
pub proof fn lemma_substitution_exhaustive(t: Seq<char>, args: Seq<Seq<char>>)
    requires
        spec_template_braces_wf(t),
        forall|k: int| 0 <= k < args.len() ==> spec_brace_free(#[trigger] args[k]),
        spec_placeholder_count(t) == args.len(),
    ensures
        spec_placeholder_count(spec_substitute(t, args)) == 0,
{
    lemma_substitute_brace_free(t, args);
    lemma_brace_free_no_placeholder(spec_substitute(t, args));
}

} // verus!
