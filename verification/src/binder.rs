//! The argument binder: distributes a flat list of caller arguments over an
//! ordered list of command templates, by placeholder count.
//!
//! Each template needs as many arguments as it has placeholder occurrences.
//! When the chain needs at least one argument in total, the caller must
//! supply exactly that many; a chain with no placeholders at all silently
//! ignores any stray arguments. Arguments are handed out in one left-to-right
//! pass: each template takes the next contiguous run of arguments.

use vstd::prelude::*;

use crate::placeholder::spec_placeholder_count;
use crate::placeholder::count_placeholders;
use crate::ArgCountError;

verus! {

/// Index of the first argument that belongs to template `k`: the sum of the
/// placeholder counts of the templates before it.
pub open spec fn spec_arg_offset(ts: Seq<Seq<char>>, k: int) -> nat
    decreases k,
{
    if k <= 0 {
        0
    } else {
        spec_arg_offset(ts, k - 1) + spec_placeholder_count(ts[k - 1])
    }
}

/// Total number of arguments the whole template list requires.
pub open spec fn spec_required_total(ts: Seq<Seq<char>>) -> nat {
    spec_arg_offset(ts, ts.len() as int)
}

/// Argument offsets never decrease from one template to the next.
pub proof fn lemma_arg_offset_monotone(ts: Seq<Seq<char>>, k1: int, k2: int)
    requires
        0 <= k1 <= k2,
    ensures
        spec_arg_offset(ts, k1) <= spec_arg_offset(ts, k2),
    decreases k2 - k1,
{
    if k1 < k2 {
        lemma_arg_offset_monotone(ts, k1, k2 - 1);
    }
}

/// A chain that requires no arguments at all gives every template zero
/// arguments: each placeholder count is zero, and every argument offset
/// stays at the start. Extra caller arguments therefore reach no template.
pub proof fn lemma_no_placeholders_ignores_args(ts: Seq<Seq<char>>)
    requires
        spec_required_total(ts) == 0,
    ensures
        forall|k: int|
            0 <= k < ts.len() ==> #[trigger] spec_placeholder_count(ts[k]) == 0,
        forall|k: int| 0 <= k <= ts.len() ==> #[trigger] spec_arg_offset(ts, k) == 0,
{
    assert forall|k: int| 0 <= k <= ts.len() implies #[trigger] spec_arg_offset(ts, k) == 0 by {
        lemma_arg_offset_monotone(ts, k, ts.len() as int);
    }
    assert forall|k: int|
        0 <= k < ts.len() implies #[trigger] spec_placeholder_count(ts[k]) == 0 by {
        assert(spec_arg_offset(ts, k + 1) == 0);
    }
}

/// The slices the binder hands out always satisfy the executor's own
/// per-template check: once the aggregate count is right (or the chain
/// requires nothing), every template's slice has exactly its placeholder
/// count of arguments, so substitution never rejects a bound chain.
pub proof fn lemma_bound_slices_match(ts: Seq<Seq<char>>, av: Seq<Seq<char>>)
    requires
        spec_required_total(ts) == 0 || spec_required_total(ts) == av.len(),
    ensures
        forall|k: int|
            0 <= k < ts.len() ==> av.subrange(
                spec_arg_offset(ts, k) as int,
                (spec_arg_offset(ts, k) + spec_placeholder_count(ts[k])) as int,
            ).len() == spec_placeholder_count(#[trigger] ts[k]),
{
    if spec_required_total(ts) == 0 {
        lemma_no_placeholders_ignores_args(ts);
    } else {
        assert forall|k: int| 0 <= k < ts.len() implies av.subrange(
            spec_arg_offset(ts, k) as int,
            (spec_arg_offset(ts, k) + spec_placeholder_count(ts[k])) as int,
        ).len() == spec_placeholder_count(#[trigger] ts[k]) by {
            lemma_arg_offset_monotone(ts, k + 1, ts.len() as int);
        }
    }
}

/// One template paired with the contiguous run of caller arguments that
/// will fill its placeholders.
#[derive(Debug, Clone)]
pub struct Binding {
    pub template: String,
    pub args: Vec<String>,
}

/// Total number of arguments that `templates` requires, or `None` when that
/// sum does not fit in a machine word.
pub fn required_total(templates: &Vec<String>) -> (r: Option<usize>)
    ensures
        match r {
            Some(n) => n == spec_required_total(templates.deep_view()),
            None => spec_required_total(templates.deep_view()) > usize::MAX,
        },
{
    let ghost ts: Seq<Seq<char>> = templates.deep_view();
    let n = templates.len();
    let mut total: usize = 0;
    let mut k: usize = 0;
    while k < n
        invariant
            n == ts.len(),
            ts == templates.deep_view(),
            k <= n,
            total == spec_arg_offset(ts, k as int),
        decreases n - k,
    {
        let c = count_placeholders(templates[k].as_str());
        proof {
            assert(ts[k as int] == templates@[k as int]@);
        }
        match total.checked_add(c) {
            Some(t) => {
                total = t;
            },
            None => {
                proof {
                    lemma_arg_offset_monotone(ts, k + 1, ts.len() as int);
                }
                return None;
            },
        }
        k = k + 1;
    }
    Some(total)
}

/// Distributes `raw_args` over `templates`, one contiguous slice per
/// template, sized by its placeholder count.
///
/// When the chain requires at least one argument, the caller must supply
/// exactly the required total, or the whole invocation is rejected with an
/// error naming that total. A chain that requires none accepts any number
/// of stray arguments and passes none of them on.
pub fn bind_args(templates: &Vec<String>, raw_args: &Vec<String>) -> (r: Result<
    Vec<Binding>,
    ArgCountError,
>)
    requires
        spec_required_total(templates.deep_view()) <= usize::MAX,
    ensures
        ({
            let ts = templates.deep_view();
            let av = raw_args.deep_view();
            let total = spec_required_total(ts);
            match r {
                Ok(bs) => (total == 0 || total == av.len()) && bs@.len() == ts.len() && (forall|
                    k: int,
                |
                    0 <= k < ts.len() ==> #[trigger] bs@[k].template@ == ts[k]) && (forall|k: int|
                    0 <= k < ts.len() ==> #[trigger] bs@[k].args.deep_view() == av.subrange(
                        spec_arg_offset(ts, k) as int,
                        (spec_arg_offset(ts, k) + spec_placeholder_count(ts[k])) as int,
                    )),
                Err(e) => total > 0 && total != av.len() && e.required == total,
            }
        }),
{
    let ghost ts: Seq<Seq<char>> = templates.deep_view();
    let ghost av: Seq<Seq<char>> = raw_args.deep_view();
    let total = match required_total(templates) {
        Some(t) => t,
        None => {
            proof {
                assert(false);
            }
            return Err(ArgCountError { required: 0 });
        },
    };
    let m = raw_args.len();
    if total > 0 && total != m {
        return Err(ArgCountError { required: total });
    }
    let n = templates.len();
    let mut out: Vec<Binding> = Vec::new();
    let mut cursor: usize = 0;
    let mut k: usize = 0;
    while k < n
        invariant
            n == ts.len(),
            ts == templates.deep_view(),
            av == raw_args.deep_view(),
            m == raw_args@.len(),
            av.len() == m,
            total == spec_required_total(ts),
            total == 0 || total == av.len(),
            total <= usize::MAX,
            k <= n,
            cursor == spec_arg_offset(ts, k as int),
            out@.len() == k,
            forall|j: int| 0 <= j < k ==> #[trigger] out@[j].template@ == ts[j],
            forall|j: int|
                0 <= j < k ==> #[trigger] out@[j].args.deep_view() == av.subrange(
                    spec_arg_offset(ts, j) as int,
                    (spec_arg_offset(ts, j) + spec_placeholder_count(ts[j])) as int,
                ),
        decreases n - k,
    {
        let c = count_placeholders(templates[k].as_str());
        proof {
            assert(ts[k as int] == templates@[k as int]@);
            lemma_arg_offset_monotone(ts, k + 1, ts.len() as int);
            if total == 0 {
                lemma_no_placeholders_ignores_args(ts);
            }
        }
        let mut slice_args: Vec<String> = Vec::new();
        let mut j: usize = 0;
        while j < c
            invariant
                av == raw_args.deep_view(),
                m == raw_args@.len(),
                av.len() == m,
                j <= c,
                cursor + c <= m,
                slice_args@.len() == j,
                forall|i: int| 0 <= i < j ==> #[trigger] slice_args@[i]@ == av[cursor + i],
            decreases c - j,
        {
            let a: &String = &raw_args[cursor + j];
            let ac: String = a.clone();
            proof {
                assert(ac@ == av[cursor + j]);
            }
            slice_args.push(ac);
            j = j + 1;
        }
        proof {
            let target = av.subrange(cursor as int, cursor + c);
            assert(slice_args.deep_view().len() == target.len());
            assert forall|i: int| 0 <= i < c implies slice_args.deep_view()[i] == target[i] by {
                assert(slice_args@[i]@ == av[cursor + i]);
            }
            assert(slice_args.deep_view() =~= target);
        }
        out.push(Binding { template: templates[k].clone(), args: slice_args });
        cursor = cursor + c;
        k = k + 1;
    }
    Ok(out)
}

} // verus!
